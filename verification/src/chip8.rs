use rand::rngs::ThreadRng;
use rand::Rng;
use vstd::prelude::*;
use crate::display::{frame, pixel_index, Display, DISPLAY_HEIGHT, DISPLAY_WIDTH, FRAME_SIZE};
use crate::fault::Fault;
use crate::instruction::{decode, decode_spec, Instruction};
use crate::keypad::{lemma_first_pressed_is, Keypad, KEYPAD_SIZE};
use crate::machine::{blank, outcome, wrap16, wrap8, Machine, FLAG, REGISTER_COUNT};
use crate::memory::{
    glyph_address, overlay, Memory, FONTSET_SIZE, FONTSET_START_ADDRESS, MEMORY_SIZE,
    START_ADDRESS,
};
use crate::stack::{Stack, STACK_COUNT};

verus! {

/// `rand::rngs::ThreadRng`, the handle to the thread's random number
/// generator. Nothing is known of what it holds.
#[verifier::external_type_specification]
#[verifier::external_body]
pub struct ExThreadRng(ThreadRng);

/// Calls `rand::thread_rng`. Nothing is claimed of the handle it returns.
/// The call panics where the operating system gives no entropy to seed the
/// generator with.
#[verifier::external_body]
fn thread_rng() -> (handle: ThreadRng) {
    rand::thread_rng()
}

/// Calls `rand::Rng::gen` for a `u8`. Nothing is claimed of the byte: any
/// value may come back, and two calls may differ.
#[verifier::external_body]
fn random_byte(rng: &mut ThreadRng) -> (byte: u8) {
    rng.gen::<u8>()
}

/// A pixel taken out of a sprite row is 0 or 1.
proof fn lemma_sprite_bit_is_pixel(row: u8, shift: u8)
    by (bit_vector)
    ensures
        (row >> shift) & 1 <= 1,
{
}

/// On pixels, exclusive or flips and `and` tells a collision.
proof fn lemma_pixel_ops(flag_before: u8, sprite_pixel: u8, screen_pixel: u8)
    by (bit_vector)
    requires
        flag_before <= 1,
        sprite_pixel <= 1,
        screen_pixel <= 1,
    ensures
        screen_pixel ^ sprite_pixel <= 1,
        sprite_pixel == 1 ==> screen_pixel ^ sprite_pixel == 1 - screen_pixel,
        sprite_pixel != 1 ==> screen_pixel ^ sprite_pixel == screen_pixel,
        sprite_pixel == 1 && screen_pixel == 1 ==> flag_before | (sprite_pixel & screen_pixel) == 1,
        !(sprite_pixel == 1 && screen_pixel == 1) ==> flag_before | (sprite_pixel & screen_pixel)
            == flag_before,
{
}

/// The interpreter: registers, timers, and the memory, stack, screen and
/// keypad it owns.
pub struct Chip8 {
    v: [u8; REGISTER_COUNT],
    memory: Memory,
    stack: Stack,
    display: Display,
    rng: ThreadRng,
    index: u16,
    pc: u16,
    delay_timer: u8,
    sound_timer: u8,
    keypad: Keypad,
}

impl Chip8 {
    /// The state of the machine as plain values.
    pub closed spec fn view(&self) -> Machine {
        Machine {
            v: self.v@,
            index: self.index,
            pc: self.pc,
            delay_timer: self.delay_timer,
            sound_timer: self.sound_timer,
            memory: self.memory@,
            stack: self.stack@,
            pixels: self.display@.pixels,
            changed: self.display@.changed,
            keys: self.keypad@,
        }
    }

    /// The parts it owns are well formed.
    pub closed spec fn wf(&self) -> bool {
        self.stack.wf() && self.display.wf()
    }

    /// The state of a well-formed interpreter is a well-formed machine.
    pub proof fn lemma_view_wf(&self)
        requires
            self.wf(),
        ensures
            self@.wf(),
    {
        self.stack.lemma_depth_bounded();
        self.memory.lemma_size();
        self.keypad.lemma_size();
    }

    /// A machine with everything at zero, no key down, and the program
    /// counter at the program origin.
    pub fn new() -> (c: Self)
        ensures
            c.wf(),
            c@ == (Machine {
                v: Seq::new(REGISTER_COUNT as nat, |i: int| 0u8),
                index: 0,
                pc: START_ADDRESS as u16,
                delay_timer: 0,
                sound_timer: 0,
                memory: Seq::new(MEMORY_SIZE as nat, |i: int| 0u8),
                stack: Seq::empty(),
                pixels: blank(),
                changed: false,
                keys: Seq::new(KEYPAD_SIZE as nat, |i: int| false),
            }),
    {
        let c = Chip8 {
            v: [0; REGISTER_COUNT],
            memory: Memory::new(),
            index: 0,
            pc: START_ADDRESS as u16,
            stack: Stack::new(),
            delay_timer: 0,
            sound_timer: 0,
            keypad: Keypad::new(),
            display: Display::new(),
            rng: thread_rng(),
        };
        assert(c@.v =~= Seq::new(REGISTER_COUNT as nat, |i: int| 0u8));
        c
    }

    /// Writes the glyph table to its fixed place in memory. Only a table of
    /// exactly 80 bytes is taken.
    pub fn load_fontset(&mut self, fontset: &Vec<u8>) -> (r: Result<(), Fault>)
        requires
            old(self).wf(),
        ensures
            final(self).wf(),
            fontset@.len() == FONTSET_SIZE ==> r == Ok::<(), Fault>(()) && final(self)@ == (Machine {
                memory: overlay(old(self)@.memory, FONTSET_START_ADDRESS as int, fontset@),
                ..old(self)@
            }),
            fontset@.len() != FONTSET_SIZE ==> r == Err::<(), Fault>(Fault::BadFontset)
                && final(self)@ == old(self)@,
    {
        self.memory.load_fontset(fontset.as_slice())
    }

    /// Writes a program image to memory from the program origin on. Only an
    /// image that ends within memory is taken.
    pub fn load_rom(&mut self, rom: &Vec<u8>) -> (r: Result<(), Fault>)
        requires
            old(self).wf(),
        ensures
            final(self).wf(),
            rom@.len() <= MEMORY_SIZE - START_ADDRESS ==> r == Ok::<(), Fault>(()) && final(self)@
                == (Machine {
                memory: overlay(old(self)@.memory, START_ADDRESS as int, rom@),
                ..old(self)@
            }),
            rom@.len() > MEMORY_SIZE - START_ADDRESS ==> r == Err::<(), Fault>(
                Fault::ProgramTooLarge,
            ) && final(self)@ == old(self)@,
    {
        self.memory.load_rom(rom.as_slice())
    }

    /// `00E0`, CLS: clears the screen.
    fn op_00e0(&mut self)
        requires
            old(self).wf(),
        ensures
            final(self).wf(),
            final(self)@ == (Machine { pixels: blank(), changed: true, ..old(self)@ }),
    {
        self.display.clear();
    }

    /// `00EE`, RET: returns from a subroutine. The stack must hold an address.
    fn op_00ee(&mut self)
        requires
            old(self).wf(),
            old(self)@.stack.len() > 0,
        ensures
            final(self).wf(),
            final(self)@ == (Machine {
                pc: old(self)@.stack.last(),
                stack: old(self)@.stack.drop_last(),
                ..old(self)@
            }),
    {
        match self.stack.pop() {
            Ok(address) => {
                self.pc = address;
            },
            Err(_) => {},
        }
    }

    /// `1nnn`, JP addr: jumps to `nnn`.
    fn op_1nnn(&mut self, nnn: u16)
        requires
            old(self).wf(),
        ensures
            final(self).wf(),
            final(self)@ == old(self)@.jump(nnn),
    {
        self.pc = nnn;
    }

    /// `2nnn`, CALL addr: calls the subroutine at `nnn`, leaving the program
    /// counter on the stack. The stack must have room.
    fn op_2nnn(&mut self, nnn: u16)
        requires
            old(self).wf(),
            old(self)@.stack.len() < STACK_COUNT,
        ensures
            final(self).wf(),
            final(self)@ == (Machine {
                pc: nnn,
                stack: old(self)@.stack.push(old(self)@.pc),
                ..old(self)@
            }),
    {
        let _ = self.stack.push(self.pc);
        self.pc = nnn;
    }

    /// Moves the program counter past the next instruction if `condition`
    /// holds.
    fn skip_if(&mut self, condition: bool)
        requires
            old(self).wf(),
        ensures
            final(self).wf(),
            final(self)@ == old(self)@.skip_if(condition),
    {
        if condition {
            self.pc = self.pc.wrapping_add(2);
        }
    }

    /// `3xkk`, SE Vx, byte: skips the next instruction if `Vx == kk`.
    fn op_3xkk(&mut self, x: usize, kk: u8)
        requires
            old(self).wf(),
            x < REGISTER_COUNT,
        ensures
            final(self).wf(),
            final(self)@ == old(self)@.skip_if(old(self)@.v[x as int] == kk),
    {
        self.skip_if(self.v[x] == kk);
    }

    /// `4xkk`, SNE Vx, byte: skips the next instruction if `Vx != kk`.
    fn op_4xkk(&mut self, x: usize, kk: u8)
        requires
            old(self).wf(),
            x < REGISTER_COUNT,
        ensures
            final(self).wf(),
            final(self)@ == old(self)@.skip_if(old(self)@.v[x as int] != kk),
    {
        self.skip_if(self.v[x] != kk);
    }

    /// `5xy0`, SE Vx, Vy: skips the next instruction if `Vx == Vy`.
    fn op_5xy0(&mut self, x: usize, y: usize)
        requires
            old(self).wf(),
            x < REGISTER_COUNT,
            y < REGISTER_COUNT,
        ensures
            final(self).wf(),
            final(self)@ == old(self)@.skip_if(old(self)@.v[x as int] == old(self)@.v[y as int]),
    {
        self.skip_if(self.v[x] == self.v[y]);
    }

    /// `6xkk`, LD Vx, byte: sets `Vx` to `kk`.
    fn op_6xkk(&mut self, x: usize, kk: u8)
        requires
            old(self).wf(),
            x < REGISTER_COUNT,
        ensures
            final(self).wf(),
            final(self)@ == old(self)@.set_reg(x as int, kk),
    {
        self.v[x] = kk;
    }

    /// `7xkk`, ADD Vx, byte: adds `kk` to `Vx`, wrapping; the flag is left alone.
    fn op_7xkk(&mut self, x: usize, kk: u8)
        requires
            old(self).wf(),
            x < REGISTER_COUNT,
        ensures
            final(self).wf(),
            final(self)@ == old(self)@.set_reg(x as int, wrap8(old(self)@.v[x as int] + kk)),
    {
        self.v[x] = self.v[x].wrapping_add(kk);
    }

    /// `8xy0`, LD Vx, Vy: sets `Vx` to `Vy`.
    fn op_8xy0(&mut self, x: usize, y: usize)
        requires
            old(self).wf(),
            x < REGISTER_COUNT,
            y < REGISTER_COUNT,
        ensures
            final(self).wf(),
            final(self)@ == old(self)@.set_reg(x as int, old(self)@.v[y as int]),
    {
        self.v[x] = self.v[y];
    }

    /// `8xy1`, OR Vx, Vy: sets `Vx` to `Vx | Vy`.
    fn op_8xy1(&mut self, x: usize, y: usize)
        requires
            old(self).wf(),
            x < REGISTER_COUNT,
            y < REGISTER_COUNT,
        ensures
            final(self).wf(),
            final(self)@ == old(self)@.set_reg(
                x as int,
                old(self)@.v[x as int] | old(self)@.v[y as int],
            ),
    {
        self.v[x] = self.v[x] | self.v[y];
    }

    /// `8xy2`, AND Vx, Vy: sets `Vx` to `Vx & Vy`.
    fn op_8xy2(&mut self, x: usize, y: usize)
        requires
            old(self).wf(),
            x < REGISTER_COUNT,
            y < REGISTER_COUNT,
        ensures
            final(self).wf(),
            final(self)@ == old(self)@.set_reg(
                x as int,
                old(self)@.v[x as int] & old(self)@.v[y as int],
            ),
    {
        self.v[x] = self.v[x] & self.v[y];
    }

    /// `8xy3`, XOR Vx, Vy: sets `Vx` to `Vx ^ Vy`.
    fn op_8xy3(&mut self, x: usize, y: usize)
        requires
            old(self).wf(),
            x < REGISTER_COUNT,
            y < REGISTER_COUNT,
        ensures
            final(self).wf(),
            final(self)@ == old(self)@.set_reg(
                x as int,
                old(self)@.v[x as int] ^ old(self)@.v[y as int],
            ),
    {
        self.v[x] = self.v[x] ^ self.v[y];
    }

    /// `8xy4`, ADD Vx, Vy: adds `Vy` to `Vx`. The flag is set to 1 if the sum
    /// is above 255 and to 0 otherwise; then `Vx` takes the low eight bits of
    /// the sum.
    fn op_8xy4(&mut self, x: usize, y: usize)
        requires
            old(self).wf(),
            x < REGISTER_COUNT,
            y < REGISTER_COUNT,
        ensures
            final(self).wf(),
            final(self)@ == old(self)@.add_reg(x as int, y as int),
    {
        let sum: u16 = self.v[x] as u16 + self.v[y] as u16;
        if sum > 255 {
            self.v[FLAG] = 1;
        } else {
            self.v[FLAG] = 0;
        }
        assert(sum & 0xFF == sum % 256) by (bit_vector);
        self.v[x] = (sum & 0xFF) as u8;
    }

    /// `8xy5`, SUB Vx, Vy: the flag is set to 1 if `Vx > Vy` and to 0
    /// otherwise; then `Vy` is subtracted from `Vx`, wrapping.
    fn op_8xy5(&mut self, x: usize, y: usize)
        requires
            old(self).wf(),
            x < REGISTER_COUNT,
            y < REGISTER_COUNT,
        ensures
            final(self).wf(),
            final(self)@ == old(self)@.sub_reg(x as int, y as int),
    {
        if self.v[x] > self.v[y] {
            self.v[FLAG] = 1;
        } else {
            self.v[FLAG] = 0;
        }
        self.v[x] = self.v[x].wrapping_sub(self.v[y]);
    }

    /// `8x_6`, SHR Vx: the flag takes the lowest bit of `Vx`; then `Vx` is
    /// shifted right by one.
    fn op_8x06(&mut self, x: usize)
        requires
            old(self).wf(),
            x < REGISTER_COUNT,
        ensures
            final(self).wf(),
            final(self)@ == old(self)@.shr(x as int),
    {
        let value: u8 = self.v[x];
        assert(value & 0x1 == value % 2) by (bit_vector);
        self.v[FLAG] = value & 0x1;
        let value: u8 = self.v[x];
        assert(value >> 1 == value / 2) by (bit_vector);
        self.v[x] = value >> 1;
    }

    /// `8xy7`, SUBN Vx, Vy: the flag is set to 1 if `Vy > Vx` and to 0
    /// otherwise; then `Vx` takes `Vy - Vx`, wrapping.
    fn op_8xy7(&mut self, x: usize, y: usize)
        requires
            old(self).wf(),
            x < REGISTER_COUNT,
            y < REGISTER_COUNT,
        ensures
            final(self).wf(),
            final(self)@ == old(self)@.subn_reg(x as int, y as int),
    {
        if self.v[y] > self.v[x] {
            self.v[FLAG] = 1;
        } else {
            self.v[FLAG] = 0;
        }
        self.v[x] = self.v[y].wrapping_sub(self.v[x]);
    }

    /// `8x_E`, SHL Vx: the flag takes the highest bit of `Vx`; then `Vx` is
    /// shifted left by one.
    fn op_8x0e(&mut self, x: usize)
        requires
            old(self).wf(),
            x < REGISTER_COUNT,
        ensures
            final(self).wf(),
            final(self)@ == old(self)@.shl(x as int),
    {
        let value: u8 = self.v[x];
        assert((value & 0x80) >> 7 == value / 128) by (bit_vector);
        self.v[FLAG] = (value & 0x80) >> 7;
        let value: u8 = self.v[x];
        assert(value << 1 == (value * 2) % 256) by (bit_vector);
        self.v[x] = value << 1;
    }

    /// `9xy0`, SNE Vx, Vy: skips the next instruction if `Vx != Vy`.
    fn op_9xy0(&mut self, x: usize, y: usize)
        requires
            old(self).wf(),
            x < REGISTER_COUNT,
            y < REGISTER_COUNT,
        ensures
            final(self).wf(),
            final(self)@ == old(self)@.skip_if(old(self)@.v[x as int] != old(self)@.v[y as int]),
    {
        self.skip_if(self.v[x] != self.v[y]);
    }

    /// `Annn`, LD I, addr: sets the index register to `nnn`.
    fn op_annn(&mut self, nnn: u16)
        requires
            old(self).wf(),
        ensures
            final(self).wf(),
            final(self)@ == (Machine { index: nnn, ..old(self)@ }),
    {
        self.index = nnn;
    }

    /// `Bnnn`, JP V0, addr: jumps to `nnn + V0`.
    fn op_bnnn(&mut self, nnn: u16)
        requires
            old(self).wf(),
        ensures
            final(self).wf(),
            final(self)@ == old(self)@.jump(wrap16(old(self)@.v[0] + nnn)),
    {
        self.pc = (self.v[0] as u16).wrapping_add(nnn);
    }

    /// `Cxkk`, RND Vx, byte: sets `Vx` to `random & kk`.
    fn op_cxkk(&mut self, x: usize, kk: u8, random: u8)
        requires
            old(self).wf(),
            x < REGISTER_COUNT,
        ensures
            final(self).wf(),
            final(self)@ == old(self)@.set_reg(x as int, random & kk),
    {
        self.v[x] = random & kk;
    }

    /// `Dxyn`, DRW Vx, Vy, n: draws the sprite of `n` rows that starts at the
    /// index register at `(Vx, Vy)`. Each row is a byte, its highest bit
    /// leftmost. Sprite pixels are xored onto the screen, and columns and rows
    /// wrap round to the opposite edge. The flag is first set to 0, and then to
    /// 1 whenever a lit pixel is turned off. The sprite must lie within memory.
    fn op_dxyn(&mut self, x: usize, y: usize, n: u8)
        requires
            old(self).wf(),
            x < REGISTER_COUNT,
            y < REGISTER_COUNT,
            n == 0 || old(self)@.index + n <= MEMORY_SIZE,
        ensures
            final(self).wf(),
            final(self)@ == old(self)@.draw_sprite(x as int, y as int, n as nat),
    {
        self.v[FLAG] = 0;

        let mut byte: usize = 0;
        while byte < n as usize
            invariant
                byte <= n,
                x < REGISTER_COUNT,
                y < REGISTER_COUNT,
                self.index == old(self).index,
                self.index + n <= MEMORY_SIZE || n == 0,
                self.wf(),
                self.v[FLAG as int] <= 1,
                self@ == old(self)@.set_reg(FLAG as int, 0).draw_rows(
                    x as int,
                    y as int,
                    byte as nat,
                ),
            decreases n - byte,
        {
            let y_pos = (self.v[y] as usize + byte) % self.display.height();
            let sprite_byte = self.memory.peek(self.index as usize + byte);
            let ghost row_start = self@;
            let mut bit: u8 = 0;
            while bit < 8
                invariant
                    bit <= 8,
                    x < REGISTER_COUNT,
                    y_pos < DISPLAY_HEIGHT,
                    self.index == old(self).index,
                    self.wf(),
                    self.v[FLAG as int] <= 1,
                    self@ == row_start.draw_bits(x as int, y_pos as int, sprite_byte, bit as nat),
                decreases 8 - bit,
            {
                let x_pos = (self.v[x] as usize + bit as usize) % self.display.width();
                let shift: u8 = 7 - bit;
                let sprite_pixel = (sprite_byte >> shift) & 1;
                let screen_pixel = self.display.peek(x_pos, y_pos);
                let flag_before = self.v[FLAG];
                proof {
                    lemma_sprite_bit_is_pixel(sprite_byte, shift);
                    lemma_pixel_ops(flag_before, sprite_pixel, screen_pixel);
                }
                self.v[FLAG] = flag_before | (sprite_pixel & screen_pixel);
                self.display.poke(x_pos, y_pos, screen_pixel ^ sprite_pixel);
                bit += 1;
            }
            byte += 1;
        }
    }

    /// `Ex9E`, SKP Vx: skips the next instruction if the key numbered `Vx` is
    /// down. `Vx` must number a key.
    fn op_ex9e(&mut self, x: usize)
        requires
            old(self).wf(),
            x < REGISTER_COUNT,
            old(self)@.v[x as int] < KEYPAD_SIZE,
        ensures
            final(self).wf(),
            final(self)@ == old(self)@.skip_if(old(self)@.keys[old(self)@.v[x as int] as int]),
    {
        let key = self.v[x] as usize;
        self.skip_if(self.keypad.pressed(key));
    }

    /// `ExA1`, SKNP Vx: skips the next instruction if the key numbered `Vx`
    /// is up. `Vx` must number a key.
    fn op_exa1(&mut self, x: usize)
        requires
            old(self).wf(),
            x < REGISTER_COUNT,
            old(self)@.v[x as int] < KEYPAD_SIZE,
        ensures
            final(self).wf(),
            final(self)@ == old(self)@.skip_if(!old(self)@.keys[old(self)@.v[x as int] as int]),
    {
        let key = self.v[x] as usize;
        self.skip_if(!self.keypad.pressed(key));
    }

    /// `Fx07`, LD Vx, DT: sets `Vx` to the delay timer.
    fn op_fx07(&mut self, x: usize)
        requires
            old(self).wf(),
            x < REGISTER_COUNT,
        ensures
            final(self).wf(),
            final(self)@ == old(self)@.set_reg(x as int, old(self)@.delay_timer),
    {
        self.v[x] = self.delay_timer;
    }

    /// `Fx0A`, LD Vx, K: puts the number of the lowest key that is down in
    /// `Vx`; with no key down, moves the program counter back onto this
    /// instruction, so that the next step runs it again.
    fn op_fx0a(&mut self, x: usize)
        requires
            old(self).wf(),
            x < REGISTER_COUNT,
        ensures
            final(self).wf(),
            final(self)@ == old(self)@.wait_key(x as int),
    {
        proof {
            self.keypad.lemma_size();
        }
        let mut k: u8 = 0;
        while k < 16
            invariant
                k <= 16,
                x < REGISTER_COUNT,
                self.wf(),
                *self == *old(self),
                self.keypad@.len() == KEYPAD_SIZE,
                forall|j: int| 0 <= j < k ==> !self.keypad@[j],
            decreases 16 - k,
        {
            if self.keypad.pressed(k as usize) {
                proof {
                    lemma_first_pressed_is(self.keypad@, k as int);
                }
                self.v[x] = k;
                return ;
            }
            k += 1;
        }
        proof {
            lemma_first_pressed_is(self.keypad@, 16);
        }
        self.pc = self.pc.wrapping_sub(2);
    }

    /// `Fx15`, LD DT, Vx: sets the delay timer to `Vx`.
    fn op_fx15(&mut self, x: usize)
        requires
            old(self).wf(),
            x < REGISTER_COUNT,
        ensures
            final(self).wf(),
            final(self)@ == (Machine { delay_timer: old(self)@.v[x as int], ..old(self)@ }),
    {
        self.delay_timer = self.v[x];
    }

    /// `Fx18`, LD ST, Vx: sets the sound timer to `Vx`.
    fn op_fx18(&mut self, x: usize)
        requires
            old(self).wf(),
            x < REGISTER_COUNT,
        ensures
            final(self).wf(),
            final(self)@ == (Machine { sound_timer: old(self)@.v[x as int], ..old(self)@ }),
    {
        self.sound_timer = self.v[x];
    }

    /// `Fx1E`, ADD I, Vx: adds `Vx` to the index register, wrapping at 16
    /// bits; then the flag is set to 1 if the index register is above 255 and
    /// to 0 otherwise.
    fn op_fx1e(&mut self, x: usize)
        requires
            old(self).wf(),
            x < REGISTER_COUNT,
        ensures
            final(self).wf(),
            final(self)@ == old(self)@.add_index(x as int),
    {
        self.index = self.index.wrapping_add(self.v[x] as u16);
        if self.index > 255 {
            self.v[FLAG] = 1;
        } else {
            self.v[FLAG] = 0
        }
    }

    /// `Fx29`, LD F, Vx: points the index register at the glyph of the digit
    /// in `Vx`. `Vx` must hold a hexadecimal digit.
    fn op_fx29(&mut self, x: usize)
        requires
            old(self).wf(),
            x < REGISTER_COUNT,
            old(self)@.v[x as int] < 16,
        ensures
            final(self).wf(),
            final(self)@ == (Machine {
                index: glyph_address(old(self)@.v[x as int] as int) as u16,
                ..old(self)@
            }),
    {
        self.index = self.memory.get_char_addr(self.v[x] as usize);
    }

    /// `Fx33`, LD B, Vx: stores the hundreds, tens and ones of `Vx` at the
    /// index register and the two bytes after it, which must lie within
    /// memory.
    fn op_fx33(&mut self, x: usize)
        requires
            old(self).wf(),
            x < REGISTER_COUNT,
            old(self)@.index + 2 < MEMORY_SIZE,
        ensures
            final(self).wf(),
            final(self)@ == old(self)@.store_bcd(x as int),
    {
        let mut value = self.v[x];
        let address: usize = self.index as usize;
        // Ones-place
        self.memory.poke(address + 2, value % 10);
        value /= 10;
        // Tens-place
        self.memory.poke(address + 1, value % 10);
        value /= 10;
        // Hundreds-place
        self.memory.poke(address, value % 10);
    }

    /// `Fx55`, LD [I], Vx: stores `V0..=Vx` in memory from the index register
    /// on, which is left as it is. The bytes must lie within memory.
    fn op_fx55(&mut self, x: usize)
        requires
            old(self).wf(),
            x < REGISTER_COUNT,
            old(self)@.index + x < MEMORY_SIZE,
        ensures
            final(self).wf(),
            final(self)@ == old(self)@.store_regs(x as int),
    {
        proof {
            self.memory.lemma_size();
            assert(self@.memory =~= overlay(
                self@.memory,
                self@.index as int,
                self@.v.subrange(0, 0),
            ));
        }
        let mut i: usize = 0;
        while i <= x
            invariant
                i <= x + 1,
                x < REGISTER_COUNT,
                self.index + x < MEMORY_SIZE,
                self.wf(),
                old(self)@.memory.len() == MEMORY_SIZE,
                self@ == (Machine {
                    memory: overlay(
                        old(self)@.memory,
                        old(self)@.index as int,
                        old(self)@.v.subrange(0, i as int),
                    ),
                    ..old(self)@
                }),
            decreases x + 1 - i,
        {
            self.memory.poke(self.index as usize + i, self.v[i]);
            i += 1;
            assert(self@.memory =~= overlay(
                old(self)@.memory,
                old(self)@.index as int,
                old(self)@.v.subrange(0, i as int),
            ));
        }
    }

    /// `Fx65`, LD Vx, [I]: reads `V0..=Vx` from memory from the index register
    /// on, which is left as it is. The bytes must lie within memory.
    fn op_fx65(&mut self, x: usize)
        requires
            old(self).wf(),
            x < REGISTER_COUNT,
            old(self)@.index + x < MEMORY_SIZE,
        ensures
            final(self).wf(),
            final(self)@ == old(self)@.load_regs(x as int),
    {
        proof {
            self.memory.lemma_size();
            assert(self@.v =~= overlay(
                self@.v,
                0,
                self@.memory.subrange(self@.index as int, self@.index + 0),
            ));
        }
        let mut i: usize = 0;
        while i <= x
            invariant
                i <= x + 1,
                x < REGISTER_COUNT,
                self.index + x < MEMORY_SIZE,
                self.wf(),
                old(self)@.memory.len() == MEMORY_SIZE,
                self@ == (Machine {
                    v: overlay(
                        old(self)@.v,
                        0,
                        old(self)@.memory.subrange(
                            old(self)@.index as int,
                            old(self)@.index + i,
                        ),
                    ),
                    ..old(self)@
                }),
            decreases x + 1 - i,
        {
            self.v[i] = self.memory.peek(self.index as usize + i);
            i += 1;
            assert(self@.v =~= overlay(
                old(self)@.v,
                0,
                old(self)@.memory.subrange(old(self)@.index as int, old(self)@.index + i),
            ));
        }
    }

    /// The fault that `instruction` would run into now, if any.
    pub fn fault(&self, instruction: Instruction) -> (r: Option<Fault>)
        requires
            self.wf(),
            instruction.wf(),
        ensures
            r == self@.fault_of(instruction),
    {
        proof {
            self.lemma_view_wf();
        }
        match instruction {
            Instruction::Ret => if self.stack.is_empty() {
                Some(Fault::StackUnderflow)
            } else {
                None
            },
            Instruction::Call { .. } => if self.stack.is_full() {
                Some(Fault::StackOverflow)
            } else {
                None
            },
            Instruction::Drw { n, .. } => if n > 0 && self.index as usize + n as usize
                > MEMORY_SIZE {
                Some(Fault::AddressOutOfRange)
            } else {
                None
            },
            Instruction::Skp { x } | Instruction::Sknp { x } => if self.v[x] as usize
                >= KEYPAD_SIZE {
                Some(Fault::BadKey)
            } else {
                None
            },
            Instruction::LdF { x } => if self.v[x] >= 16 {
                Some(Fault::BadDigit)
            } else {
                None
            },
            Instruction::LdB { .. } => if self.index as usize + 2 >= MEMORY_SIZE {
                Some(Fault::AddressOutOfRange)
            } else {
                None
            },
            Instruction::StoreRegs { x } | Instruction::LoadRegs { x } => if self.index as usize
                + x >= MEMORY_SIZE {
                Some(Fault::AddressOutOfRange)
            } else {
                None
            },
            _ => None,
        }
    }

    /// Runs `instruction` as if it had just been fetched at the program
    /// counter. `random` is the byte that the random instruction uses. A
    /// fault is reported before anything is changed.
    pub fn execute(&mut self, instruction: Instruction, random: u8) -> (r: Result<(), Fault>)
        requires
            old(self).wf(),
            instruction.wf(),
        ensures
            final(self).wf(),
            outcome(old(self)@, old(self)@.execute(instruction, random), final(self)@, r),
    {
        match self.fault(instruction) {
            Some(fault) => {
                return Err(fault);
            },
            None => {},
        }
        self.pc = self.pc.wrapping_add(2);
        match instruction {
            Instruction::Cls => self.op_00e0(),
            Instruction::Ret => self.op_00ee(),
            Instruction::Jp { nnn } => self.op_1nnn(nnn),
            Instruction::Call { nnn } => self.op_2nnn(nnn),
            Instruction::SeByte { x, kk } => self.op_3xkk(x, kk),
            Instruction::SneByte { x, kk } => self.op_4xkk(x, kk),
            Instruction::SeReg { x, y } => self.op_5xy0(x, y),
            Instruction::LdByte { x, kk } => self.op_6xkk(x, kk),
            Instruction::AddByte { x, kk } => self.op_7xkk(x, kk),
            Instruction::LdReg { x, y } => self.op_8xy0(x, y),
            Instruction::Or { x, y } => self.op_8xy1(x, y),
            Instruction::And { x, y } => self.op_8xy2(x, y),
            Instruction::Xor { x, y } => self.op_8xy3(x, y),
            Instruction::AddReg { x, y } => self.op_8xy4(x, y),
            Instruction::SubReg { x, y } => self.op_8xy5(x, y),
            Instruction::Shr { x } => self.op_8x06(x),
            Instruction::Subn { x, y } => self.op_8xy7(x, y),
            Instruction::Shl { x } => self.op_8x0e(x),
            Instruction::SneReg { x, y } => self.op_9xy0(x, y),
            Instruction::LdI { nnn } => self.op_annn(nnn),
            Instruction::JpV0 { nnn } => self.op_bnnn(nnn),
            Instruction::Rnd { x, kk } => self.op_cxkk(x, kk, random),
            Instruction::Drw { x, y, n } => self.op_dxyn(x, y, n),
            Instruction::Skp { x } => self.op_ex9e(x),
            Instruction::Sknp { x } => self.op_exa1(x),
            Instruction::LdVxDt { x } => self.op_fx07(x),
            Instruction::LdVxK { x } => self.op_fx0a(x),
            Instruction::LdDtVx { x } => self.op_fx15(x),
            Instruction::LdStVx { x } => self.op_fx18(x),
            Instruction::AddI { x } => self.op_fx1e(x),
            Instruction::LdF { x } => self.op_fx29(x),
            Instruction::LdB { x } => self.op_fx33(x),
            Instruction::StoreRegs { x } => self.op_fx55(x),
            Instruction::LoadRegs { x } => self.op_fx65(x),
        }
        Ok(())
    }

    /// Reads and decodes the instruction at the program counter.
    fn fetch_instruction(&self) -> (r: Result<Instruction, Fault>)
        requires
            self.wf(),
        ensures
            !self@.can_fetch() ==> r == Err::<Instruction, Fault>(Fault::AddressOutOfRange),
            self@.can_fetch() ==> r == match decode_spec(self@.fetch()) {
                None => Err::<Instruction, Fault>(Fault::UnknownOpcode),
                Some(instruction) => Ok(instruction),
            },
            r matches Ok(instruction) ==> instruction.wf(),
    {
        if self.pc as usize + 1 >= MEMORY_SIZE {
            return Err(Fault::AddressOutOfRange);
        }
        let opcode = self.memory.get_opcode(self.pc);
        match decode(opcode) {
            None => Err(Fault::UnknownOpcode),
            Some(instruction) => Ok(instruction),
        }
    }

    /// Lets both timers tick once.
    fn tick_timers(&mut self)
        requires
            old(self).wf(),
        ensures
            final(self).wf(),
            final(self)@ == old(self)@.tick_timers(),
    {
        if self.delay_timer > 0 {
            self.delay_timer -= 1;
        }
        if self.sound_timer > 0 {
            self.sound_timer -= 1;
        }
    }

    /// Runs a fetched instruction and lets the timers tick.
    fn finish(&mut self, instruction: Instruction, random: u8) -> (r: Result<(), Fault>)
        requires
            old(self).wf(),
            instruction.wf(),
            old(self)@.can_fetch(),
            decode_spec(old(self)@.fetch()) == Some(instruction),
        ensures
            final(self).wf(),
            outcome(old(self)@, old(self)@.step(random), final(self)@, r),
    {
        match self.execute(instruction, random) {
            Err(fault) => Err(fault),
            Ok(()) => {
                self.tick_timers();
                Ok(())
            },
        }
    }

    /// One step of the machine with `random` as the byte that a random
    /// instruction would draw: fetch, decode, execute, then the timers tick.
    pub fn tick_with(&mut self, random: u8) -> (r: Result<(), Fault>)
        requires
            old(self).wf(),
        ensures
            final(self).wf(),
            outcome(old(self)@, old(self)@.step(random), final(self)@, r),
    {
        match self.fetch_instruction() {
            Err(fault) => Err(fault),
            Ok(instruction) => self.finish(instruction, random),
        }
    }

    /// One step of the machine. Where the instruction is the random one, the
    /// byte comes from the thread's generator, and the step is the one that
    /// some byte gives; every other step is fully determined.
    pub fn tick(&mut self) -> (r: Result<(), Fault>)
        requires
            old(self).wf(),
        ensures
            final(self).wf(),
            exists|random: u8| outcome(old(self)@, old(self)@.step(random), final(self)@, r),
            !old(self)@.draws_random() ==> outcome(
                old(self)@,
                old(self)@.step(0),
                final(self)@,
                r,
            ),
    {
        match self.fetch_instruction() {
            Err(fault) => {
                assert(outcome(old(self)@, old(self)@.step(0), self@, Err::<(), Fault>(fault)));
                Err(fault)
            },
            Ok(instruction) => {
                let random = match instruction {
                    Instruction::Rnd { .. } => random_byte(&mut self.rng),
                    _ => 0,
                };
                let r = self.finish(instruction, random);
                assert(outcome(old(self)@, old(self)@.step(random), self@, r));
                r
            },
        }
    }

    /// The value of register `x`.
    pub fn register(&self, x: usize) -> (value: u8)
        requires
            x < REGISTER_COUNT,
        ensures
            value == self@.v[x as int],
    {
        self.v[x]
    }

    /// The index register.
    pub fn index(&self) -> (index: u16)
        ensures
            index == self@.index,
    {
        self.index
    }

    /// The program counter.
    pub fn program_counter(&self) -> (pc: u16)
        ensures
            pc == self@.pc,
    {
        self.pc
    }

    /// The delay timer.
    pub fn delay_timer(&self) -> (timer: u8)
        ensures
            timer == self@.delay_timer,
    {
        self.delay_timer
    }

    /// The sound timer.
    pub fn sound_timer(&self) -> (timer: u8)
        ensures
            timer == self@.sound_timer,
    {
        self.sound_timer
    }

    /// The byte of memory at `address`.
    pub fn peek(&self, address: usize) -> (value: u8)
        requires
            address < MEMORY_SIZE,
        ensures
            value == self@.memory[address as int],
    {
        self.memory.peek(address)
    }

    /// The pixel in column `x` of row `y`.
    pub fn pixel(&self, x: usize, y: usize) -> (pixel: u8)
        requires
            x < DISPLAY_WIDTH,
            y < DISPLAY_HEIGHT,
        ensures
            pixel == self@.pixels[pixel_index(x as int, y as int)],
    {
        self.display.peek(x, y)
    }

    /// Renders the screen into the first 8192 bytes of `buf`, four bytes per
    /// pixel, and takes the change flag down.
    pub fn draw(&mut self, buf: &mut [u8])
        requires
            old(self).wf(),
            old(buf)@.len() >= FRAME_SIZE,
        ensures
            final(self).wf(),
            final(buf)@ == frame(old(self)@.pixels) + old(buf)@.subrange(
                FRAME_SIZE as int,
                old(buf)@.len() as int,
            ),
            final(self)@ == (Machine { changed: false, ..old(self)@ }),
    {
        self.display.draw(buf);
    }

    /// Whether the screen was written to since it was last rendered.
    pub fn display_changed(&self) -> (changed: bool)
        ensures
            changed == self@.changed,
    {
        self.display.changed()
    }

    /// Records that `key` is down or up.
    pub fn set_key(&mut self, key: usize, pressed: bool)
        requires
            old(self).wf(),
            key < KEYPAD_SIZE,
        ensures
            final(self).wf(),
            final(self)@ == (Machine { keys: old(self)@.keys.update(key as int, pressed), ..old(self)@ }),
    {
        if pressed {
            self.keypad.press(key);
        } else {
            self.keypad.release(key);
        }
    }
}

} // verus!
