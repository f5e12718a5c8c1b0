use vstd::prelude::*;
use crate::display::{pixel_index, valid_pixels, DISPLAY_HEIGHT, DISPLAY_SIZE, DISPLAY_WIDTH};
use crate::fault::Fault;
use crate::instruction::{decode_spec, Instruction};
use crate::keypad::{first_pressed, KEYPAD_SIZE};
use crate::memory::{glyph_address, opcode_at, overlay, MEMORY_SIZE};
use crate::stack::STACK_COUNT;

verus! {

/// Number of general registers.
pub const REGISTER_COUNT: usize = 16;

/// Number of the register that doubles as the flag.
pub const FLAG: usize = 0xF;

/// The whole state of the machine, as plain mathematical values.
pub struct Machine {
    /// The sixteen general registers `V0..=VF`.
    pub v: Seq<u8>,
    /// The index register.
    pub index: u16,
    /// The program counter.
    pub pc: u16,
    pub delay_timer: u8,
    pub sound_timer: u8,
    /// The 4096 bytes of memory.
    pub memory: Seq<u8>,
    /// The return addresses, oldest first.
    pub stack: Seq<u16>,
    /// The screen, row by row; each pixel is 0 or 1.
    pub pixels: Seq<u8>,
    /// Whether the screen was written to since it was last rendered.
    pub changed: bool,
    /// Which of the sixteen keys are down.
    pub keys: Seq<bool>,
}

/// The byte that `i` wraps to.
pub open spec fn wrap8(i: int) -> u8 {
    (i % 256) as u8
}

/// The 16-bit word that `i` wraps to.
pub open spec fn wrap16(i: int) -> u16 {
    (i % 65536) as u16
}

/// 1 where `b` holds, 0 where it does not.
pub open spec fn flag(b: bool) -> u8 {
    if b {
        1
    } else {
        0
    }
}

/// A timer one step later: one less, and never below zero.
pub open spec fn ticked(timer: u8) -> u8 {
    if timer > 0 {
        (timer - 1) as u8
    } else {
        0
    }
}

/// Bit `bit` of a sprite row, counted from the left: the pixel that the row
/// has in its column `bit`.
pub open spec fn sprite_bit(row: u8, bit: int) -> u8 {
    (row >> ((7 - bit) as u8)) & 1
}

/// A screen pixel after a sprite pixel is laid on it: a lit sprite pixel
/// flips it, a dark one leaves it.
pub open spec fn flipped(screen_pixel: u8, sprite_pixel: u8) -> u8 {
    if sprite_pixel == 1 {
        (1 - screen_pixel) as u8
    } else {
        screen_pixel
    }
}

/// A blank screen.
pub open spec fn blank() -> Seq<u8> {
    Seq::new(DISPLAY_SIZE as nat, |i: int| 0u8)
}

impl Machine {
    /// Every part has its fixed size, the stack is within its capacity and
    /// every pixel is 0 or 1.
    pub open spec fn wf(self) -> bool {
        &&& self.v.len() == REGISTER_COUNT
        &&& self.memory.len() == MEMORY_SIZE
        &&& self.stack.len() <= STACK_COUNT
        &&& valid_pixels(self.pixels)
        &&& self.keys.len() == KEYPAD_SIZE
    }

    /// This machine with register `x` set to `value`.
    pub open spec fn set_reg(self, x: int, value: u8) -> Machine {
        Machine { v: self.v.update(x, value), ..self }
    }

    /// This machine with the program counter at `pc`.
    pub open spec fn jump(self, pc: u16) -> Machine {
        Machine { pc, ..self }
    }

    /// This machine with the program counter moved past one instruction.
    pub open spec fn advance(self) -> Machine {
        self.jump(wrap16(self.pc + 2))
    }

    /// This machine with the next instruction skipped if `condition` holds.
    pub open spec fn skip_if(self, condition: bool) -> Machine {
        if condition {
            self.advance()
        } else {
            self
        }
    }

    /// This machine with both timers one step later.
    pub open spec fn tick_timers(self) -> Machine {
        Machine {
            delay_timer: ticked(self.delay_timer),
            sound_timer: ticked(self.sound_timer),
            ..self
        }
    }

    /// `8xy4`: the flag takes the carry, then `Vx` the low byte of the sum.
    pub open spec fn add_reg(self, x: int, y: int) -> Machine {
        let sum = self.v[x] + self.v[y];
        self.set_reg(FLAG as int, flag(sum > 255)).set_reg(x, wrap8(sum))
    }

    /// `8xy5`: the flag says whether `Vx > Vy`, then `Vx` takes `Vx - Vy`,
    /// wrapped, of the registers as they then are.
    pub open spec fn sub_reg(self, x: int, y: int) -> Machine {
        let flagged = self.set_reg(FLAG as int, flag(self.v[x] > self.v[y]));
        flagged.set_reg(x, wrap8(flagged.v[x] - flagged.v[y]))
    }

    /// `8xy7`: the flag says whether `Vy > Vx`, then `Vx` takes `Vy - Vx`,
    /// wrapped, of the registers as they then are.
    pub open spec fn subn_reg(self, x: int, y: int) -> Machine {
        let flagged = self.set_reg(FLAG as int, flag(self.v[y] > self.v[x]));
        flagged.set_reg(x, wrap8(flagged.v[y] - flagged.v[x]))
    }

    /// `8x_6`: the flag takes the lowest bit of `Vx`, then `Vx` is halved.
    pub open spec fn shr(self, x: int) -> Machine {
        let flagged = self.set_reg(FLAG as int, self.v[x] % 2);
        flagged.set_reg(x, flagged.v[x] / 2)
    }

    /// `8x_E`: the flag takes the highest bit of `Vx`, then `Vx` is doubled,
    /// wrapped.
    pub open spec fn shl(self, x: int) -> Machine {
        let flagged = self.set_reg(FLAG as int, self.v[x] / 128);
        flagged.set_reg(x, wrap8(flagged.v[x] * 2))
    }

    /// `Fx1E`: the index register takes `Vx` more, wrapped to 16 bits, then
    /// the flag says whether it is above 255.
    pub open spec fn add_index(self, x: int) -> Machine {
        let index = wrap16(self.index + self.v[x]);
        Machine { index, ..self }.set_reg(FLAG as int, flag(index > 255))
    }

    /// `Fx0A`: `Vx` takes the number of the lowest key that is down; with no
    /// key down the program counter goes back to this instruction.
    pub open spec fn wait_key(self, x: int) -> Machine {
        let key = first_pressed(self.keys);
        if key < KEYPAD_SIZE {
            self.set_reg(x, key as u8)
        } else {
            self.jump(wrap16(self.pc - 2))
        }
    }

    /// `Fx33`: the hundreds, tens and ones of `Vx` go to the three bytes at
    /// the index register.
    pub open spec fn store_bcd(self, x: int) -> Machine {
        let value = self.v[x];
        let at = self.index as int;
        Machine {
            memory: self.memory.update(at + 2, value % 10).update(at + 1, value / 10 % 10).update(
                at,
                value / 100,
            ),
            ..self
        }
    }

    /// `Fx55`: `V0..=Vx` go to memory from the index register on.
    pub open spec fn store_regs(self, x: int) -> Machine {
        Machine {
            memory: overlay(self.memory, self.index as int, self.v.subrange(0, x + 1)),
            ..self
        }
    }

    /// `Fx65`: `V0..=Vx` are read from memory from the index register on.
    pub open spec fn load_regs(self, x: int) -> Machine {
        Machine {
            v: overlay(self.v, 0, self.memory.subrange(self.index as int, self.index + x + 1)),
            ..self
        }
    }

    /// One sprite pixel laid on the screen at column `x_pos` of row `y_pos`:
    /// a lit sprite pixel flips the screen pixel, and raises the flag where
    /// it turns a lit pixel off. The screen counts as written either way.
    pub open spec fn plot(self, x_pos: int, y_pos: int, sprite_pixel: u8) -> Machine {
        let at = pixel_index(x_pos, y_pos);
        let screen_pixel = self.pixels[at];
        Machine {
            v: self.v.update(
                FLAG as int,
                if sprite_pixel == 1 && screen_pixel == 1 {
                    1
                } else {
                    self.v[FLAG as int]
                },
            ),
            pixels: self.pixels.update(at, flipped(screen_pixel, sprite_pixel)),
            changed: true,
            ..self
        }
    }

    /// The first `bits` pixels of the sprite row `row` laid on screen row
    /// `y_pos`, left to right. The column of each is `Vx` as it is when the
    /// pixel is laid, plus the pixel's place in the row, wrapped.
    pub open spec fn draw_bits(self, x: int, y_pos: int, row: u8, bits: nat) -> Machine
        decreases bits,
    {
        if bits == 0 {
            self
        } else {
            let before = self.draw_bits(x, y_pos, row, (bits - 1) as nat);
            before.plot(
                (before.v[x] + (bits - 1)) % (DISPLAY_WIDTH as int),
                y_pos,
                sprite_bit(row, bits - 1),
            )
        }
    }

    /// The first `rows` rows of the sprite at the index register laid on the
    /// screen, top to bottom. The screen row of each is `Vy` as it is when the
    /// row is begun, plus the row's place in the sprite, wrapped.
    pub open spec fn draw_rows(self, x: int, y: int, rows: nat) -> Machine
        decreases rows,
    {
        if rows == 0 {
            self
        } else {
            let before = self.draw_rows(x, y, (rows - 1) as nat);
            before.draw_bits(
                x,
                (before.v[y] + (rows - 1)) % (DISPLAY_HEIGHT as int),
                before.memory[before.index + (rows - 1)],
                8,
            )
        }
    }

    /// `Dxyn`: the flag is taken down, then the `n` rows are drawn.
    pub open spec fn draw_sprite(self, x: int, y: int, n: nat) -> Machine {
        self.set_reg(FLAG as int, 0).draw_rows(x, y, n)
    }

    /// The fault that `instruction` runs into on this machine, if any.
    pub open spec fn fault_of(self, instruction: Instruction) -> Option<Fault> {
        match instruction {
            Instruction::Ret => if self.stack.len() == 0 {
                Some(Fault::StackUnderflow)
            } else {
                None
            },
            Instruction::Call { .. } => if self.stack.len() >= STACK_COUNT {
                Some(Fault::StackOverflow)
            } else {
                None
            },
            Instruction::Drw { n, .. } => if n > 0 && self.index + n > MEMORY_SIZE {
                Some(Fault::AddressOutOfRange)
            } else {
                None
            },
            Instruction::Skp { x } | Instruction::Sknp { x } => if self.v[x as int]
                >= KEYPAD_SIZE {
                Some(Fault::BadKey)
            } else {
                None
            },
            Instruction::LdF { x } => if self.v[x as int] >= 16 {
                Some(Fault::BadDigit)
            } else {
                None
            },
            Instruction::LdB { .. } => if self.index + 2 >= MEMORY_SIZE {
                Some(Fault::AddressOutOfRange)
            } else {
                None
            },
            Instruction::StoreRegs { x } | Instruction::LoadRegs { x } => if self.index + x
                >= MEMORY_SIZE {
                Some(Fault::AddressOutOfRange)
            } else {
                None
            },
            _ => None,
        }
    }

    /// What `instruction` does to this machine, whose program counter is
    /// already past it, where it runs into no fault. `random` is the byte
    /// that the random instruction draws.
    pub open spec fn apply(self, instruction: Instruction, random: u8) -> Machine {
        match instruction {
            Instruction::Cls => Machine { pixels: blank(), changed: true, ..self },
            Instruction::Ret => Machine {
                pc: self.stack.last(),
                stack: self.stack.drop_last(),
                ..self
            },
            Instruction::Jp { nnn } => self.jump(nnn),
            Instruction::Call { nnn } => Machine { pc: nnn, stack: self.stack.push(self.pc), ..self },
            Instruction::SeByte { x, kk } => self.skip_if(self.v[x as int] == kk),
            Instruction::SneByte { x, kk } => self.skip_if(self.v[x as int] != kk),
            Instruction::SeReg { x, y } => self.skip_if(self.v[x as int] == self.v[y as int]),
            Instruction::LdByte { x, kk } => self.set_reg(x as int, kk),
            Instruction::AddByte { x, kk } => self.set_reg(x as int, wrap8(self.v[x as int] + kk)),
            Instruction::LdReg { x, y } => self.set_reg(x as int, self.v[y as int]),
            Instruction::Or { x, y } => self.set_reg(x as int, self.v[x as int] | self.v[y as int]),
            Instruction::And { x, y } => self.set_reg(x as int, self.v[x as int] & self.v[y as int]),
            Instruction::Xor { x, y } => self.set_reg(x as int, self.v[x as int] ^ self.v[y as int]),
            Instruction::AddReg { x, y } => self.add_reg(x as int, y as int),
            Instruction::SubReg { x, y } => self.sub_reg(x as int, y as int),
            Instruction::Shr { x } => self.shr(x as int),
            Instruction::Subn { x, y } => self.subn_reg(x as int, y as int),
            Instruction::Shl { x } => self.shl(x as int),
            Instruction::SneReg { x, y } => self.skip_if(self.v[x as int] != self.v[y as int]),
            Instruction::LdI { nnn } => Machine { index: nnn, ..self },
            Instruction::JpV0 { nnn } => self.jump(wrap16(self.v[0] + nnn)),
            Instruction::Rnd { x, kk } => self.set_reg(x as int, random & kk),
            Instruction::Drw { x, y, n } => self.draw_sprite(x as int, y as int, n as nat),
            Instruction::Skp { x } => self.skip_if(self.keys[self.v[x as int] as int]),
            Instruction::Sknp { x } => self.skip_if(!self.keys[self.v[x as int] as int]),
            Instruction::LdVxDt { x } => self.set_reg(x as int, self.delay_timer),
            Instruction::LdVxK { x } => self.wait_key(x as int),
            Instruction::LdDtVx { x } => Machine { delay_timer: self.v[x as int], ..self },
            Instruction::LdStVx { x } => Machine { sound_timer: self.v[x as int], ..self },
            Instruction::AddI { x } => self.add_index(x as int),
            Instruction::LdF { x } => Machine {
                index: glyph_address(self.v[x as int] as int) as u16,
                ..self
            },
            Instruction::LdB { x } => self.store_bcd(x as int),
            Instruction::StoreRegs { x } => self.store_regs(x as int),
            Instruction::LoadRegs { x } => self.load_regs(x as int),
        }
    }

    /// Running `instruction`, fetched at the program counter: a fault leaves
    /// nothing behind; otherwise the program counter moves past the
    /// instruction and the instruction takes effect.
    pub open spec fn execute(self, instruction: Instruction, random: u8) -> Result<Machine, Fault> {
        match self.fault_of(instruction) {
            Some(fault) => Err(fault),
            None => Ok(self.advance().apply(instruction, random)),
        }
    }

    /// Whether a whole instruction word can be read at the program counter.
    pub open spec fn can_fetch(self) -> bool {
        self.pc + 1 < MEMORY_SIZE
    }

    /// The instruction word at the program counter.
    pub open spec fn fetch(self) -> u16 {
        opcode_at(self.memory, self.pc as int) as u16
    }

    /// One whole step: fetch, decode, execute, then both timers tick. A
    /// fault leaves nothing behind.
    pub open spec fn step(self, random: u8) -> Result<Machine, Fault> {
        if !self.can_fetch() {
            Err(Fault::AddressOutOfRange)
        } else {
            match decode_spec(self.fetch()) {
                None => Err(Fault::UnknownOpcode),
                Some(instruction) => match self.execute(instruction, random) {
                    Err(fault) => Err(fault),
                    Ok(after) => Ok(after.tick_timers()),
                },
            }
        }
    }

    /// As many steps as `randoms` has bytes, each with its byte, up to the
    /// first fault.
    pub open spec fn run(self, randoms: Seq<u8>) -> Result<Machine, Fault>
        decreases randoms.len(),
    {
        if randoms.len() == 0 {
            Ok(self)
        } else {
            match self.step(randoms[0]) {
                Err(fault) => Err(fault),
                Ok(next) => next.run(randoms.drop_first()),
            }
        }
    }

    /// Whether the instruction at the program counter is the one that draws
    /// a random byte.
    pub open spec fn draws_random(self) -> bool {
        self.can_fetch() && decode_spec(self.fetch()) matches Some(Instruction::Rnd { .. })
    }
}

/// Whether a machine that was `before` and is now `after`, having reported
/// `reported`, did what `expected` says: on success it is the machine that
/// `expected` holds; on a fault the same fault is reported and nothing has
/// changed.
pub open spec fn outcome(
    before: Machine,
    expected: Result<Machine, Fault>,
    after: Machine,
    reported: Result<(), Fault>,
) -> bool {
    match expected {
        Ok(machine) => reported == Ok::<(), Fault>(()) && after == machine,
        Err(fault) => reported == Err::<(), Fault>(fault) && after == before,
    }
}

} // verus!
