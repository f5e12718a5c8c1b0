use vstd::prelude::*;

verus! {

/// One instruction of the machine, with its operands taken apart.
///
/// `x` and `y` number registers, `kk` is an 8-bit immediate, `nnn` a 12-bit
/// address and `n` a 4-bit count.
#[derive(Clone, Copy, Debug, PartialEq, Eq, Structural)]
pub enum Instruction {
    /// `00E0`: clear the screen.
    Cls,
    /// `00EE`: return from a subroutine.
    Ret,
    /// `1nnn`: jump to `nnn`.
    Jp { nnn: u16 },
    /// `2nnn`: call the subroutine at `nnn`.
    Call { nnn: u16 },
    /// `3xkk`: skip the next instruction if `Vx == kk`.
    SeByte { x: usize, kk: u8 },
    /// `4xkk`: skip the next instruction if `Vx != kk`.
    SneByte { x: usize, kk: u8 },
    /// `5xy0`: skip the next instruction if `Vx == Vy`.
    SeReg { x: usize, y: usize },
    /// `6xkk`: set `Vx` to `kk`.
    LdByte { x: usize, kk: u8 },
    /// `7xkk`: add `kk` to `Vx`, wrapping, without touching the flag.
    AddByte { x: usize, kk: u8 },
    /// `8xy0`: set `Vx` to `Vy`.
    LdReg { x: usize, y: usize },
    /// `8xy1`: set `Vx` to `Vx | Vy`.
    Or { x: usize, y: usize },
    /// `8xy2`: set `Vx` to `Vx & Vy`.
    And { x: usize, y: usize },
    /// `8xy3`: set `Vx` to `Vx ^ Vy`.
    Xor { x: usize, y: usize },
    /// `8xy4`: add `Vy` to `Vx`; `VF` is the carry.
    AddReg { x: usize, y: usize },
    /// `8xy5`: subtract `Vy` from `Vx`; `VF` says that nothing was borrowed.
    SubReg { x: usize, y: usize },
    /// `8x_6`: shift `Vx` right by one; `VF` is the bit shifted out.
    Shr { x: usize },
    /// `8xy7`: set `Vx` to `Vy - Vx`; `VF` says that nothing was borrowed.
    Subn { x: usize, y: usize },
    /// `8x_E`: shift `Vx` left by one; `VF` is the bit shifted out.
    Shl { x: usize },
    /// `9xy0`: skip the next instruction if `Vx != Vy`.
    SneReg { x: usize, y: usize },
    /// `Annn`: set the index register to `nnn`.
    LdI { nnn: u16 },
    /// `Bnnn`: jump to `nnn + V0`.
    JpV0 { nnn: u16 },
    /// `Cxkk`: set `Vx` to a random byte masked with `kk`.
    Rnd { x: usize, kk: u8 },
    /// `Dxyn`: draw the `n`-row sprite at the index register at `(Vx, Vy)`.
    Drw { x: usize, y: usize, n: u8 },
    /// `Ex9E`: skip the next instruction if the key numbered `Vx` is down.
    Skp { x: usize },
    /// `ExA1`: skip the next instruction if the key numbered `Vx` is up.
    Sknp { x: usize },
    /// `Fx07`: set `Vx` to the delay timer.
    LdVxDt { x: usize },
    /// `Fx0A`: wait for a key and put its number in `Vx`.
    LdVxK { x: usize },
    /// `Fx15`: set the delay timer to `Vx`.
    LdDtVx { x: usize },
    /// `Fx18`: set the sound timer to `Vx`.
    LdStVx { x: usize },
    /// `Fx1E`: add `Vx` to the index register.
    AddI { x: usize },
    /// `Fx29`: point the index register at the glyph of the digit in `Vx`.
    LdF { x: usize },
    /// `Fx33`: store the three decimal digits of `Vx` at the index register.
    LdB { x: usize },
    /// `Fx55`: store `V0..=Vx` at the index register.
    StoreRegs { x: usize },
    /// `Fx65`: load `V0..=Vx` from the index register.
    LoadRegs { x: usize },
}

/// The highest nibble of `opcode`: the instruction family.
pub open spec fn family(opcode: u16) -> int {
    opcode as int / 4096
}

/// The second nibble of `opcode`.
pub open spec fn field_x(opcode: u16) -> usize {
    (opcode as int / 256 % 16) as usize
}

/// The third nibble of `opcode`.
pub open spec fn field_y(opcode: u16) -> usize {
    (opcode as int / 16 % 16) as usize
}

/// The lowest nibble of `opcode`.
pub open spec fn field_n(opcode: u16) -> u8 {
    (opcode as int % 16) as u8
}

/// The low byte of `opcode`.
pub open spec fn field_kk(opcode: u16) -> u8 {
    (opcode as int % 256) as u8
}

/// The low twelve bits of `opcode`.
pub open spec fn field_nnn(opcode: u16) -> u16 {
    (opcode as int % 4096) as u16
}

/// The register-to-register instruction `8xy_` that the lowest nibble selects.
pub open spec fn decode_alu(x: usize, y: usize, n: u8) -> Option<Instruction> {
    if n == 0x0 {
        Some(Instruction::LdReg { x, y })
    } else if n == 0x1 {
        Some(Instruction::Or { x, y })
    } else if n == 0x2 {
        Some(Instruction::And { x, y })
    } else if n == 0x3 {
        Some(Instruction::Xor { x, y })
    } else if n == 0x4 {
        Some(Instruction::AddReg { x, y })
    } else if n == 0x5 {
        Some(Instruction::SubReg { x, y })
    } else if n == 0x6 {
        Some(Instruction::Shr { x })
    } else if n == 0x7 {
        Some(Instruction::Subn { x, y })
    } else if n == 0xE {
        Some(Instruction::Shl { x })
    } else {
        None
    }
}

/// The instruction `Fx__` that the low byte selects.
pub open spec fn decode_misc(x: usize, kk: u8) -> Option<Instruction> {
    if kk == 0x07 {
        Some(Instruction::LdVxDt { x })
    } else if kk == 0x0A {
        Some(Instruction::LdVxK { x })
    } else if kk == 0x15 {
        Some(Instruction::LdDtVx { x })
    } else if kk == 0x18 {
        Some(Instruction::LdStVx { x })
    } else if kk == 0x1E {
        Some(Instruction::AddI { x })
    } else if kk == 0x29 {
        Some(Instruction::LdF { x })
    } else if kk == 0x33 {
        Some(Instruction::LdB { x })
    } else if kk == 0x55 {
        Some(Instruction::StoreRegs { x })
    } else if kk == 0x65 {
        Some(Instruction::LoadRegs { x })
    } else {
        None
    }
}

/// The instruction that `opcode` encodes, if it encodes one.
pub open spec fn decode_spec(opcode: u16) -> Option<Instruction> {
    let x = field_x(opcode);
    let y = field_y(opcode);
    let n = field_n(opcode);
    let kk = field_kk(opcode);
    let nnn = field_nnn(opcode);
    let f = family(opcode);
    if f == 0x0 {
        if opcode == 0x00E0 {
            Some(Instruction::Cls)
        } else if opcode == 0x00EE {
            Some(Instruction::Ret)
        } else {
            None
        }
    } else if f == 0x1 {
        Some(Instruction::Jp { nnn })
    } else if f == 0x2 {
        Some(Instruction::Call { nnn })
    } else if f == 0x3 {
        Some(Instruction::SeByte { x, kk })
    } else if f == 0x4 {
        Some(Instruction::SneByte { x, kk })
    } else if f == 0x5 {
        if n == 0 {
            Some(Instruction::SeReg { x, y })
        } else {
            None
        }
    } else if f == 0x6 {
        Some(Instruction::LdByte { x, kk })
    } else if f == 0x7 {
        Some(Instruction::AddByte { x, kk })
    } else if f == 0x8 {
        decode_alu(x, y, n)
    } else if f == 0x9 {
        if n == 0 {
            Some(Instruction::SneReg { x, y })
        } else {
            None
        }
    } else if f == 0xA {
        Some(Instruction::LdI { nnn })
    } else if f == 0xB {
        Some(Instruction::JpV0 { nnn })
    } else if f == 0xC {
        Some(Instruction::Rnd { x, kk })
    } else if f == 0xD {
        Some(Instruction::Drw { x, y, n })
    } else if f == 0xE {
        if kk == 0x9E {
            Some(Instruction::Skp { x })
        } else if kk == 0xA1 {
            Some(Instruction::Sknp { x })
        } else {
            None
        }
    } else {
        decode_misc(x, kk)
    }
}

impl Instruction {
    /// Each operand fits the field that encodes it: register numbers and the
    /// row count in four bits, the address in twelve.
    pub open spec fn wf(self) -> bool {
        match self {
            Instruction::Cls | Instruction::Ret => true,
            Instruction::Jp { nnn }
            | Instruction::Call { nnn }
            | Instruction::LdI { nnn }
            | Instruction::JpV0 { nnn } => nnn < 4096,
            Instruction::SeByte { x, .. }
            | Instruction::SneByte { x, .. }
            | Instruction::LdByte { x, .. }
            | Instruction::AddByte { x, .. }
            | Instruction::Rnd { x, .. }
            | Instruction::Shr { x }
            | Instruction::Shl { x }
            | Instruction::Skp { x }
            | Instruction::Sknp { x }
            | Instruction::LdVxDt { x }
            | Instruction::LdVxK { x }
            | Instruction::LdDtVx { x }
            | Instruction::LdStVx { x }
            | Instruction::AddI { x }
            | Instruction::LdF { x }
            | Instruction::LdB { x }
            | Instruction::StoreRegs { x }
            | Instruction::LoadRegs { x } => x < 16,
            Instruction::SeReg { x, y }
            | Instruction::LdReg { x, y }
            | Instruction::Or { x, y }
            | Instruction::And { x, y }
            | Instruction::Xor { x, y }
            | Instruction::AddReg { x, y }
            | Instruction::SubReg { x, y }
            | Instruction::Subn { x, y }
            | Instruction::SneReg { x, y } => x < 16 && y < 16,
            Instruction::Drw { x, y, n } => x < 16 && y < 16 && n < 16,
        }
    }
}

/// Masking and shifting a word takes out the same fields as dividing it.
proof fn lemma_fields(opcode: u16)
    by (bit_vector)
    ensures
        (opcode & 0xF000) >> 12 == opcode / 4096,
        (opcode & 0x0F00) >> 8 == opcode / 256 % 16,
        (opcode & 0x00F0) >> 4 == opcode / 16 % 16,
        opcode & 0x000F == opcode % 16,
        opcode & 0x00FF == opcode % 256,
        opcode & 0x0FFF == opcode % 4096,
{
}

/// Whatever decodes has operands that fit their fields.
pub proof fn lemma_decoded_wf(opcode: u16)
    ensures
        decode_spec(opcode) matches Some(i) ==> i.wf(),
{
}

/// Takes `opcode` apart, or finds that it encodes nothing.
pub fn decode(opcode: u16) -> (r: Option<Instruction>)
    ensures
        r == decode_spec(opcode),
        r matches Some(i) ==> i.wf(),
{
    proof {
        lemma_fields(opcode);
    }
    let family: u16 = (opcode & 0xF000) >> 12;
    let x: usize = ((opcode & 0x0F00) >> 8) as usize;
    let y: usize = ((opcode & 0x00F0) >> 4) as usize;
    let n: u8 = (opcode & 0x000F) as u8;
    let kk: u8 = (opcode & 0x00FF) as u8;
    let nnn: u16 = opcode & 0x0FFF;
    match family {
        0x0 => match opcode {
            0x00E0 => Some(Instruction::Cls),
            0x00EE => Some(Instruction::Ret),
            _ => None,
        },
        0x1 => Some(Instruction::Jp { nnn }),
        0x2 => Some(Instruction::Call { nnn }),
        0x3 => Some(Instruction::SeByte { x, kk }),
        0x4 => Some(Instruction::SneByte { x, kk }),
        0x5 => match n {
            0x0 => Some(Instruction::SeReg { x, y }),
            _ => None,
        },
        0x6 => Some(Instruction::LdByte { x, kk }),
        0x7 => Some(Instruction::AddByte { x, kk }),
        0x8 => match n {
            0x0 => Some(Instruction::LdReg { x, y }),
            0x1 => Some(Instruction::Or { x, y }),
            0x2 => Some(Instruction::And { x, y }),
            0x3 => Some(Instruction::Xor { x, y }),
            0x4 => Some(Instruction::AddReg { x, y }),
            0x5 => Some(Instruction::SubReg { x, y }),
            0x6 => Some(Instruction::Shr { x }),
            0x7 => Some(Instruction::Subn { x, y }),
            0xE => Some(Instruction::Shl { x }),
            _ => None,
        },
        0x9 => match n {
            0x0 => Some(Instruction::SneReg { x, y }),
            _ => None,
        },
        0xA => Some(Instruction::LdI { nnn }),
        0xB => Some(Instruction::JpV0 { nnn }),
        0xC => Some(Instruction::Rnd { x, kk }),
        0xD => Some(Instruction::Drw { x, y, n }),
        0xE => match kk {
            0x9E => Some(Instruction::Skp { x }),
            0xA1 => Some(Instruction::Sknp { x }),
            _ => None,
        },
        _ => match kk {
            0x07 => Some(Instruction::LdVxDt { x }),
            0x0A => Some(Instruction::LdVxK { x }),
            0x15 => Some(Instruction::LdDtVx { x }),
            0x18 => Some(Instruction::LdStVx { x }),
            0x1E => Some(Instruction::AddI { x }),
            0x29 => Some(Instruction::LdF { x }),
            0x33 => Some(Instruction::LdB { x }),
            0x55 => Some(Instruction::StoreRegs { x }),
            0x65 => Some(Instruction::LoadRegs { x }),
            _ => None,
        },
    }
}

} // verus!
