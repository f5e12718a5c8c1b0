use chip8::instruction::{decode, Instruction};

#[test]
fn decodes_the_two_fixed_words() {
    assert_eq!(decode(0x00E0), Some(Instruction::Cls));
    assert_eq!(decode(0x00EE), Some(Instruction::Ret));
}

#[test]
fn decodes_address_instructions() {
    assert_eq!(decode(0x1ABC), Some(Instruction::Jp { nnn: 0xABC }));
    assert_eq!(decode(0x2FFF), Some(Instruction::Call { nnn: 0xFFF }));
    assert_eq!(decode(0xA000), Some(Instruction::LdI { nnn: 0 }));
    assert_eq!(decode(0xB123), Some(Instruction::JpV0 { nnn: 0x123 }));
}

#[test]
fn decodes_register_and_byte_instructions() {
    assert_eq!(decode(0x3A42), Some(Instruction::SeByte { x: 0xA, kk: 0x42 }));
    assert_eq!(decode(0x4F00), Some(Instruction::SneByte { x: 0xF, kk: 0 }));
    assert_eq!(decode(0x60FF), Some(Instruction::LdByte { x: 0, kk: 0xFF }));
    assert_eq!(decode(0x7101), Some(Instruction::AddByte { x: 1, kk: 1 }));
    assert_eq!(decode(0xC30F), Some(Instruction::Rnd { x: 3, kk: 0x0F }));
}

#[test]
fn decodes_register_pair_instructions() {
    assert_eq!(decode(0x5120), Some(Instruction::SeReg { x: 1, y: 2 }));
    assert_eq!(decode(0x9EF0), Some(Instruction::SneReg { x: 0xE, y: 0xF }));
    assert_eq!(decode(0x8AB0), Some(Instruction::LdReg { x: 0xA, y: 0xB }));
    assert_eq!(decode(0x8AB1), Some(Instruction::Or { x: 0xA, y: 0xB }));
    assert_eq!(decode(0x8AB2), Some(Instruction::And { x: 0xA, y: 0xB }));
    assert_eq!(decode(0x8AB3), Some(Instruction::Xor { x: 0xA, y: 0xB }));
    assert_eq!(decode(0x8AB4), Some(Instruction::AddReg { x: 0xA, y: 0xB }));
    assert_eq!(decode(0x8AB5), Some(Instruction::SubReg { x: 0xA, y: 0xB }));
    assert_eq!(decode(0x8AB7), Some(Instruction::Subn { x: 0xA, y: 0xB }));
    assert_eq!(decode(0xD12F), Some(Instruction::Drw { x: 1, y: 2, n: 0xF }));
    assert_eq!(decode(0xD000), Some(Instruction::Drw { x: 0, y: 0, n: 0 }));
}

#[test]
fn shifts_ignore_the_second_register() {
    assert_eq!(decode(0x8A06), Some(Instruction::Shr { x: 0xA }));
    assert_eq!(decode(0x8AB6), Some(Instruction::Shr { x: 0xA }));
    assert_eq!(decode(0x8A0E), Some(Instruction::Shl { x: 0xA }));
    assert_eq!(decode(0x8AFE), Some(Instruction::Shl { x: 0xA }));
}

#[test]
fn decodes_key_and_misc_instructions() {
    assert_eq!(decode(0xE59E), Some(Instruction::Skp { x: 5 }));
    assert_eq!(decode(0xE5A1), Some(Instruction::Sknp { x: 5 }));
    assert_eq!(decode(0xF707), Some(Instruction::LdVxDt { x: 7 }));
    assert_eq!(decode(0xF70A), Some(Instruction::LdVxK { x: 7 }));
    assert_eq!(decode(0xF715), Some(Instruction::LdDtVx { x: 7 }));
    assert_eq!(decode(0xF718), Some(Instruction::LdStVx { x: 7 }));
    assert_eq!(decode(0xF71E), Some(Instruction::AddI { x: 7 }));
    assert_eq!(decode(0xF729), Some(Instruction::LdF { x: 7 }));
    assert_eq!(decode(0xF733), Some(Instruction::LdB { x: 7 }));
    assert_eq!(decode(0xF755), Some(Instruction::StoreRegs { x: 7 }));
    assert_eq!(decode(0xFF65), Some(Instruction::LoadRegs { x: 0xF }));
}

#[test]
fn words_outside_the_table_do_not_decode() {
    assert_eq!(decode(0x0000), None);
    assert_eq!(decode(0x00E1), None);
    assert_eq!(decode(0x00EF), None);
    assert_eq!(decode(0x0123), None);
    assert_eq!(decode(0x5121), None);
    assert_eq!(decode(0x8AB8), None);
    assert_eq!(decode(0x8ABD), None);
    assert_eq!(decode(0x8ABF), None);
    assert_eq!(decode(0x9AB1), None);
    assert_eq!(decode(0xE09F), None);
    assert_eq!(decode(0xE0A0), None);
    assert_eq!(decode(0xF000), None);
    assert_eq!(decode(0xF066), None);
    assert_eq!(decode(0xFFFF), None);
}

#[test]
fn every_word_of_the_open_families_decodes() {
    for family in [0x1u16, 0x2, 0x3, 0x4, 0x6, 0x7, 0xA, 0xB, 0xC, 0xD] {
        for low in 0..0x1000u16 {
            assert!(decode(family << 12 | low).is_some());
        }
    }
}

#[test]
fn the_table_has_its_known_number_of_words() {
    let mut known = 0u32;
    for opcode in 0..=0xFFFFu16 {
        if decode(opcode).is_some() {
            known += 1;
        }
    }
    // 2 fixed words, 10 open families, 2 * 256 for 5xy0 and 9xy0,
    // 9 * 256 for 8xy_, 2 * 16 for Ex__ and 9 * 16 for Fx__.
    assert_eq!(known, 2 + 10 * 4096 + 2 * 256 + 9 * 256 + 2 * 16 + 9 * 16);
}
