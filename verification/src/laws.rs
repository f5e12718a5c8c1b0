use vstd::prelude::*;
use crate::fault::Fault;
use crate::instruction::{decode_spec, lemma_decoded_wf, Instruction};
use crate::keypad::{first_pressed, lemma_first_pressed_from, KEYPAD_SIZE};
use crate::machine::{flag, ticked, wrap16, wrap8, Machine, FLAG, REGISTER_COUNT};
use crate::memory::{opcode_at, overlay, MEMORY_SIZE, START_ADDRESS};
use crate::sprite::lemma_draw_rows_shape;
use crate::stack::STACK_COUNT;

verus! {

/// Setting a register to an immediate gives that register the immediate and
/// moves the program counter on; no other register, and nothing else of the
/// machine, changes.
pub proof fn lemma_load_immediate(m: Machine, x: usize, kk: u8, random: u8)
    requires
        m.wf(),
        x < REGISTER_COUNT,
    ensures
        m.execute(Instruction::LdByte { x, kk }, random) matches Ok(after) && {
            &&& after.v[x as int] == kk
            &&& forall|i: int| 0 <= i < REGISTER_COUNT && i != x ==> after.v[i] == m.v[i]
            &&& after == (Machine { v: after.v, pc: wrap16(m.pc + 2), ..m })
        },
{
}

/// The word `6xkk` decodes to "set `Vx` to `kk`".
pub proof fn lemma_decode_load_immediate(x: usize, kk: u8)
    requires
        x < REGISTER_COUNT,
    ensures
        decode_spec((0x6000 + 256 * x + kk) as u16) == Some(Instruction::LdByte { x, kk }),
{
}

/// A whole step on the word `6xkk` sets `Vx` to `kk`, moves the program
/// counter on by two and lets the timers tick; nothing else changes.
pub proof fn lemma_step_load_immediate(m: Machine, x: usize, kk: u8, random: u8)
    requires
        m.wf(),
        m.can_fetch(),
        x < REGISTER_COUNT,
        m.fetch() == 0x6000 + 256 * x + kk,
    ensures
        m.step(random) == Ok::<Machine, Fault>(
            (Machine {
                v: m.v.update(x as int, kk),
                pc: (m.pc + 2) as u16,
                delay_timer: ticked(m.delay_timer),
                sound_timer: ticked(m.sound_timer),
                ..m
            }),
        ),
{
    lemma_decode_load_immediate(x, kk);
}

/// Adding registers other than the flag: `Vx` takes the low byte of the
/// sum, the flag is 1 exactly if the sum is above 255, and no other
/// register changes.
pub proof fn lemma_add_with_carry(m: Machine, x: int, y: int)
    requires
        m.wf(),
        0 <= x < FLAG,
        0 <= y < REGISTER_COUNT,
    ensures
        m.add_reg(x, y).v[x] == wrap8(m.v[x] + m.v[y]),
        m.add_reg(x, y).v[FLAG as int] == flag(m.v[x] + m.v[y] > 255),
        forall|i: int|
            0 <= i < REGISTER_COUNT && i != x && i != FLAG ==> m.add_reg(x, y).v[i] == m.v[i],
{
}

/// Subtracting registers other than the flag: `Vx` takes `Vx - Vy`,
/// wrapped, the flag is 1 exactly if `Vx > Vy`, and no other register
/// changes.
pub proof fn lemma_sub_not_borrow(m: Machine, x: int, y: int)
    requires
        m.wf(),
        0 <= x < FLAG,
        0 <= y < FLAG,
    ensures
        m.sub_reg(x, y).v[x] == wrap8(m.v[x] - m.v[y]),
        m.sub_reg(x, y).v[FLAG as int] == flag(m.v[x] > m.v[y]),
        m.subn_reg(x, y).v[x] == wrap8(m.v[y] - m.v[x]),
        m.subn_reg(x, y).v[FLAG as int] == flag(m.v[y] > m.v[x]),
        forall|i: int|
            0 <= i < REGISTER_COUNT && i != x && i != FLAG ==> m.sub_reg(x, y).v[i] == m.v[i]
                && m.subn_reg(x, y).v[i] == m.v[i],
{
}

/// Shifting a register other than the flag: the flag takes the bit that is
/// shifted out, the lowest on a right shift and the highest on a left
/// shift, and no other register changes.
pub proof fn lemma_shift_flag(m: Machine, x: int)
    requires
        m.wf(),
        0 <= x < FLAG,
    ensures
        m.shr(x).v[x] == m.v[x] / 2,
        m.shr(x).v[FLAG as int] == m.v[x] % 2,
        m.shl(x).v[x] == wrap8(m.v[x] * 2),
        m.shl(x).v[FLAG as int] == flag(m.v[x] >= 128),
        forall|i: int|
            0 <= i < REGISTER_COUNT && i != x && i != FLAG ==> m.shr(x).v[i] == m.v[i] && m.shl(
                x,
            ).v[i] == m.v[i],
{
}

/// The three bytes that the decimal instruction stores are the decimal
/// digits of `Vx`: each is below ten, and together they give `Vx` back.
pub proof fn lemma_bcd_digits(m: Machine, x: int)
    requires
        m.wf(),
        0 <= x < REGISTER_COUNT,
        m.index + 2 < MEMORY_SIZE,
    ensures
        ({
            let after = m.store_bcd(x);
            let at = m.index as int;
            &&& after.memory[at] < 10 && after.memory[at + 1] < 10 && after.memory[at + 2] < 10
            &&& after.memory[at] * 100 + after.memory[at + 1] * 10 + after.memory[at + 2]
                == m.v[x]
            &&& forall|a: int|
                0 <= a < MEMORY_SIZE && !(at <= a <= at + 2) ==> after.memory[a] == m.memory[a]
        }),
{
}

/// A program that was loaded is what is fetched: the word at the program
/// origin is made of the first two bytes of the image, the first one high.
pub proof fn lemma_load_then_fetch(memory: Seq<u8>, rom: Seq<u8>)
    requires
        memory.len() == MEMORY_SIZE,
        2 <= rom.len() <= MEMORY_SIZE - START_ADDRESS,
    ensures
        opcode_at(overlay(memory, START_ADDRESS as int, rom), START_ADDRESS as int) == rom[0] * 256
            + rom[1],
{
}

/// A call followed by a return comes back to the instruction after the
/// call, with the stack as it was before.
pub proof fn lemma_call_then_return(m: Machine, nnn: u16, random: u8)
    requires
        m.wf(),
        m.stack.len() < STACK_COUNT,
    ensures
        m.execute(Instruction::Call { nnn }, random) matches Ok(called) && called.execute(
            Instruction::Ret,
            random,
        ) matches Ok(back) && back == m.advance(),
{
    let called = m.advance().apply(Instruction::Call { nnn }, random);
    assert(called.stack.drop_last() =~= m.stack);
}

/// While the key-wait instruction is at the program counter and no key is
/// down, a step changes nothing but the timers: the program counter stays
/// on the instruction and no register changes.
pub proof fn lemma_key_wait_blocks(m: Machine, x: usize, random: u8)
    requires
        m.wf(),
        m.can_fetch(),
        decode_spec(m.fetch()) == Some(Instruction::LdVxK { x }),
        forall|k: int| 0 <= k < KEYPAD_SIZE ==> !m.keys[k],
    ensures
        m.step(random) == Ok::<Machine, Fault>(m.tick_timers()),
{
    lemma_first_pressed_from(m.keys, 0);
}

/// However many steps are taken while the key-wait instruction is at the
/// program counter and no key is down, the program counter stays where it
/// is, no register changes, and neither does anything else but the timers.
pub proof fn lemma_key_wait_blocks_repeatedly(m: Machine, x: usize, randoms: Seq<u8>)
    requires
        m.wf(),
        m.can_fetch(),
        decode_spec(m.fetch()) == Some(Instruction::LdVxK { x }),
        forall|k: int| 0 <= k < KEYPAD_SIZE ==> !m.keys[k],
    ensures
        m.run(randoms) matches Ok(after) && after == (Machine {
            delay_timer: after.delay_timer,
            sound_timer: after.sound_timer,
            ..m
        }),
    decreases randoms.len(),
{
    if randoms.len() > 0 {
        lemma_key_wait_blocks(m, x, randoms[0]);
        lemma_key_wait_blocks_repeatedly(m.tick_timers(), x, randoms.drop_first());
    }
}

/// With the key-wait instruction at the program counter and some key down,
/// a step puts the number of the lowest such key in `Vx` and moves the
/// program counter on by two.
pub proof fn lemma_key_wait_releases(m: Machine, x: usize, random: u8)
    requires
        m.wf(),
        m.can_fetch(),
        decode_spec(m.fetch()) == Some(Instruction::LdVxK { x }),
        (exists|k: int| 0 <= k < KEYPAD_SIZE && m.keys[k]),
    ensures
        0 <= first_pressed(m.keys) < KEYPAD_SIZE,
        m.keys[first_pressed(m.keys)],
        forall|k: int| 0 <= k < first_pressed(m.keys) ==> !m.keys[k],
        m.step(random) == Ok::<Machine, Fault>(
            (Machine {
                v: m.v.update(x as int, first_pressed(m.keys) as u8),
                pc: (m.pc + 2) as u16,
                ..m
            }).tick_timers(),
        ),
{
    lemma_first_pressed_from(m.keys, 0);
}

/// Whether the instruction at the program counter is the one that sets the
/// delay timer.
pub open spec fn sets_delay(m: Machine) -> bool {
    m.can_fetch() && decode_spec(m.fetch()) matches Some(Instruction::LdDtVx { .. })
}

/// Whether the instruction at the program counter is the one that sets the
/// sound timer.
pub open spec fn sets_sound(m: Machine) -> bool {
    m.can_fetch() && decode_spec(m.fetch()) matches Some(Instruction::LdStVx { .. })
}

/// A timer that ticks never goes up and never goes below zero: from one it
/// goes to zero, and at zero it stays.
pub proof fn lemma_ticked_floor(timer: u8)
    ensures
        0 <= ticked(timer) <= timer,
        timer > 0 ==> ticked(timer) == timer - 1,
        ticked(1) == 0,
        ticked(0) == 0,
{
}

/// A step lets each timer tick once, unless the instruction is the one that
/// sets that timer.
pub proof fn lemma_timers_count_down(m: Machine, random: u8)
    requires
        m.wf(),
        m.step(random) is Ok,
    ensures
        !sets_delay(m) ==> m.step(random)->Ok_0.delay_timer == ticked(m.delay_timer),
        !sets_sound(m) ==> m.step(random)->Ok_0.sound_timer == ticked(m.sound_timer),
{
    let instruction = decode_spec(m.fetch())->Some_0;
    lemma_decoded_wf(m.fetch());
    lemma_apply_keeps_timers(m.advance(), instruction, random);
}

/// Whether no step of the run from `m` with `randoms` executes the
/// instruction that sets the delay timer.
pub open spec fn never_sets_delay(m: Machine, randoms: Seq<u8>) -> bool
    decreases randoms.len(),
{
    randoms.len() == 0 || (!sets_delay(m) && match m.step(randoms[0]) {
        Ok(next) => never_sets_delay(next, randoms.drop_first()),
        Err(_) => true,
    })
}

/// Over a run in which no instruction sets the delay timer, the timer goes
/// down by one a step until it is zero, and stays there: after as many steps
/// as the timer held, or more, it is zero.
pub proof fn lemma_delay_timer_runs_down(m: Machine, randoms: Seq<u8>)
    requires
        m.wf(),
        never_sets_delay(m, randoms),
        m.run(randoms) is Ok,
    ensures
        m.run(randoms)->Ok_0.delay_timer == if m.delay_timer >= randoms.len() {
            m.delay_timer - randoms.len()
        } else {
            0
        },
    decreases randoms.len(),
{
    if randoms.len() > 0 {
        let next = m.step(randoms[0])->Ok_0;
        lemma_step_wf(m, randoms[0]);
        lemma_timers_count_down(m, randoms[0]);
        lemma_delay_timer_runs_down(next, randoms.drop_first());
    }
}

/// No instruction but the two that set a timer changes that timer.
pub proof fn lemma_apply_keeps_timers(m: Machine, instruction: Instruction, random: u8)
    requires
        m.wf(),
        instruction.wf(),
    ensures
        !(instruction is LdDtVx) ==> m.apply(instruction, random).delay_timer == m.delay_timer,
        !(instruction is LdStVx) ==> m.apply(instruction, random).sound_timer == m.sound_timer,
{
    match instruction {
        Instruction::Drw { x, y, n } => {
            lemma_draw_rows_shape(m.set_reg(FLAG as int, 0), x as int, y as int, n as nat);
        },
        _ => {},
    }
}

/// Only the random instruction looks at the random byte: a step on any
/// other instruction is the same whatever byte is handed in.
pub proof fn lemma_random_only_for_rnd(m: Machine, random: u8, other: u8)
    requires
        !m.draws_random(),
    ensures
        m.step(random) == m.step(other),
{
}

/// Whatever a well-formed machine executes without a fault leaves it well
/// formed: the registers, memory, screen and keypad keep their sizes, the
/// stack stays within its capacity and every pixel stays 0 or 1.
pub proof fn lemma_execute_wf(m: Machine, instruction: Instruction, random: u8)
    requires
        m.wf(),
        instruction.wf(),
    ensures
        m.execute(instruction, random) matches Ok(after) ==> after.wf(),
{
    match instruction {
        Instruction::Drw { x, y, n } => {
            lemma_draw_rows_shape(m.advance().set_reg(FLAG as int, 0), x as int, y as int, n as nat);
        },
        _ => {},
    }
}

/// A step that succeeds takes a well-formed machine to a well-formed one.
pub proof fn lemma_step_wf(m: Machine, random: u8)
    requires
        m.wf(),
    ensures
        m.step(random) matches Ok(after) ==> after.wf(),
{
    if m.can_fetch() {
        lemma_decoded_wf(m.fetch());
        match decode_spec(m.fetch()) {
            Some(instruction) => {
                lemma_execute_wf(m, instruction, random);
            },
            None => {},
        }
    }
}

} // verus!
