use vstd::prelude::*;
use crate::fault::Fault;

verus! {

/// Number of addressable bytes.
pub const MEMORY_SIZE: usize = 4096;

/// Address of the first byte of the glyph table.
pub const FONTSET_START_ADDRESS: usize = 0x50;

/// Length of the glyph table: sixteen glyphs of five bytes.
pub const FONTSET_SIZE: usize = 80;

/// Address at which a program image starts.
pub const START_ADDRESS: usize = 0x200;

/// Bytes per glyph.
pub const FONTSET_CHAR_SIZE: usize = 5;

/// The machine's byte-addressable store.
pub struct Memory {
    buffer: [u8; MEMORY_SIZE],
}

/// The memory `mem` with `bytes` laid over it from address `at` on.
pub open spec fn overlay(mem: Seq<u8>, at: int, bytes: Seq<u8>) -> Seq<u8> {
    Seq::new(
        mem.len(),
        |i: int|
            if at <= i < at + bytes.len() {
                bytes[i - at]
            } else {
                mem[i]
            },
    )
}

/// The big-endian word made of the bytes at `address` and `address + 1`.
pub open spec fn opcode_at(mem: Seq<u8>, address: int) -> int {
    mem[address] * 256 + mem[address + 1]
}

/// Where the glyph of a hexadecimal digit starts.
pub open spec fn glyph_address(digit: int) -> int {
    FONTSET_START_ADDRESS + digit * FONTSET_CHAR_SIZE
}

/// A byte followed by a byte is the first times 256 plus the second.
proof fn lemma_big_endian(hi: u16, lo: u16)
    by (bit_vector)
    requires
        hi < 256,
        lo < 256,
    ensures
        (hi << 8 | lo) == hi * 256 + lo,
{
}

impl Memory {
    /// The 4096 bytes, by address.
    pub closed spec fn view(&self) -> Seq<u8> {
        self.buffer@
    }

    /// Every memory has exactly `MEMORY_SIZE` bytes.
    pub proof fn lemma_size(&self)
        ensures
            self@.len() == MEMORY_SIZE,
    {
    }

    pub fn new() -> (m: Self)
        ensures
            m@ == Seq::new(MEMORY_SIZE as nat, |i: int| 0u8),
    {
        let m = Memory { buffer: [0; MEMORY_SIZE] };
        assert(m@ =~= Seq::new(MEMORY_SIZE as nat, |i: int| 0u8));
        m
    }

    /// Copies `bytes` into memory from address `at` on.
    fn copy_in(&mut self, at: usize, bytes: &[u8])
        requires
            at + bytes@.len() <= MEMORY_SIZE,
        ensures
            final(self)@ == overlay(old(self)@, at as int, bytes@),
    {
        let n = bytes.len();
        let mut i: usize = 0;
        while i < n
            invariant
                n == bytes@.len(),
                at + n <= MEMORY_SIZE,
                i <= n,
                self@ == overlay(old(self)@, at as int, bytes@.subrange(0, i as int)),
            decreases n - i,
        {
            self.buffer[at + i] = bytes[i];
            i += 1;
            assert(self@ =~= overlay(old(self)@, at as int, bytes@.subrange(0, i as int)));
        }
        assert(bytes@.subrange(0, n as int) =~= bytes@);
    }

    /// Writes the glyph table to its fixed place. Only a table of exactly
    /// `FONTSET_SIZE` bytes is taken.
    pub fn load_fontset(&mut self, fontset: &[u8]) -> (r: Result<(), Fault>)
        ensures
            fontset@.len() == FONTSET_SIZE ==> r == Ok::<(), Fault>(()) && final(self)@ == overlay(
                old(self)@,
                FONTSET_START_ADDRESS as int,
                fontset@,
            ),
            fontset@.len() != FONTSET_SIZE ==> r == Err::<(), Fault>(Fault::BadFontset)
                && final(self)@ == old(self)@,
    {
        if fontset.len() == FONTSET_SIZE {
            self.copy_in(FONTSET_START_ADDRESS, fontset);
            Ok(())
        } else {
            Err(Fault::BadFontset)
        }
    }

    /// Writes a program image from `START_ADDRESS` on. Only an image that
    /// ends within memory is taken.
    pub fn load_rom(&mut self, rom: &[u8]) -> (r: Result<(), Fault>)
        ensures
            rom@.len() <= MEMORY_SIZE - START_ADDRESS ==> r == Ok::<(), Fault>(()) && final(self)@
                == overlay(old(self)@, START_ADDRESS as int, rom@),
            rom@.len() > MEMORY_SIZE - START_ADDRESS ==> r == Err::<(), Fault>(
                Fault::ProgramTooLarge,
            ) && final(self)@ == old(self)@,
    {
        if rom.len() <= MEMORY_SIZE - START_ADDRESS {
            self.copy_in(START_ADDRESS, rom);
            Ok(())
        } else {
            Err(Fault::ProgramTooLarge)
        }
    }

    /// Reads the instruction word at `address`.
    pub fn get_opcode(&self, address: u16) -> (opcode: u16)
        requires
            address + 1 < MEMORY_SIZE,
        ensures
            opcode == opcode_at(self@, address as int),
    {
        let hi = self.buffer[address as usize] as u16;
        let lo = self.buffer[(address + 1) as usize] as u16;
        proof {
            lemma_big_endian(hi, lo);
        }
        hi << 8 | lo
    }

    /// Address of the glyph for a hexadecimal digit.
    pub fn get_char_addr(&self, digit: usize) -> (address: u16)
        requires
            digit < 16,
        ensures
            address == glyph_address(digit as int),
    {
        (FONTSET_START_ADDRESS + (digit * FONTSET_CHAR_SIZE)) as u16
    }

    pub fn poke(&mut self, address: usize, value: u8)
        requires
            address < MEMORY_SIZE,
        ensures
            final(self)@ == old(self)@.update(address as int, value),
    {
        self.buffer[address] = value;
    }

    pub fn peek(&self, address: usize) -> (value: u8)
        requires
            address < MEMORY_SIZE,
        ensures
            value == self@[address as int],
    {
        self.buffer[address]
    }
}

} // verus!
