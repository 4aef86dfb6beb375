use chip8::{AluOp, Instruction, MiscOp, Opcode};

#[test]
fn nibbles_are_counted_from_the_top() {
    let inst = Instruction(0xABCD);
    assert_eq!(inst.get_quater(0), 0xA);
    assert_eq!(inst.get_quater(1), 0xB);
    assert_eq!(inst.get_quater(2), 0xC);
    assert_eq!(inst.get_quater(3), 0xD);
}

#[test]
fn nibbles_of_extreme_words() {
    for idx in 0..4 {
        assert_eq!(Instruction(0x0000).get_quater(idx), 0x0);
        assert_eq!(Instruction(0xFFFF).get_quater(idx), 0xF);
    }
    assert_eq!(Instruction(0x8000).get_quater(0), 0x8);
    assert_eq!(Instruction(0x0001).get_quater(3), 0x1);
}

#[test]
fn address_field_is_low_twelve_bits() {
    assert_eq!(Instruction(0xABCD).get_addr(), 0xBCD);
    assert_eq!(Instruction(0xFFFF).get_addr(), 0xFFF);
    assert_eq!(Instruction(0xF000).get_addr(), 0x000);
}

#[test]
fn byte_field_is_low_eight_bits() {
    assert_eq!(Instruction(0xABCD).get_byte(), 0xCD);
    assert_eq!(Instruction(0xFF00).get_byte(), 0x00);
    assert_eq!(Instruction(0x00FF).get_byte(), 0xFF);
}

#[test]
fn from_bytes_is_big_endian() {
    assert_eq!(Instruction::from_bytes(0x12, 0x34), Instruction(0x1234));
    assert_eq!(Instruction::from_bytes(0x00, 0xE0), Instruction(0x00E0));
    assert_eq!(Instruction::from_bytes(0xFF, 0xFF), Instruction(0xFFFF));
}

#[test]
fn default_instruction_is_zero() {
    assert_eq!(Instruction::default(), Instruction(0));
}

#[test]
fn decode_control_flow() {
    assert_eq!(Instruction(0x00E0).decode(), Some(Opcode::Clear));
    assert_eq!(Instruction(0x00EE).decode(), Some(Opcode::Return));
    assert_eq!(Instruction(0x1234).decode(), Some(Opcode::Jump { addr: 0x234 }));
    assert_eq!(Instruction(0x2FFF).decode(), Some(Opcode::Call { addr: 0xFFF }));
    assert_eq!(Instruction(0xB123).decode(), Some(Opcode::JumpOffset { addr: 0x123 }));
}

#[test]
fn decode_skips() {
    assert_eq!(Instruction(0x3A42).decode(), Some(Opcode::SkipEq { x: 0xA, nn: 0x42 }));
    assert_eq!(Instruction(0x4B43).decode(), Some(Opcode::SkipNe { x: 0xB, nn: 0x43 }));
    assert_eq!(Instruction(0x5120).decode(), Some(Opcode::SkipRegEq { x: 1, y: 2 }));
    assert_eq!(Instruction(0x9340).decode(), Some(Opcode::SkipRegNe { x: 3, y: 4 }));
    assert_eq!(Instruction(0xE59E).decode(), Some(Opcode::SkipKey { x: 5 }));
    assert_eq!(Instruction(0xE6A1).decode(), Some(Opcode::SkipNoKey { x: 6 }));
}

#[test]
fn decode_loads_and_draw() {
    assert_eq!(Instruction(0x6C7F).decode(), Some(Opcode::Load { x: 0xC, nn: 0x7F }));
    assert_eq!(Instruction(0x7D01).decode(), Some(Opcode::Add { x: 0xD, nn: 0x01 }));
    assert_eq!(Instruction(0xA050).decode(), Some(Opcode::Index { addr: 0x050 }));
    assert_eq!(Instruction(0xC10F).decode(), Some(Opcode::Random { x: 1, nn: 0x0F }));
    assert_eq!(Instruction(0xD125).decode(), Some(Opcode::Draw { x: 1, y: 2, n: 5 }));
}

#[test]
fn decode_register_operations() {
    let ops = [
        (0x8120, AluOp::Move),
        (0x8121, AluOp::Or),
        (0x8122, AluOp::And),
        (0x8123, AluOp::Xor),
        (0x8124, AluOp::Add),
        (0x8125, AluOp::Sub),
        (0x8126, AluOp::ShiftRight),
        (0x8127, AluOp::SubFrom),
        (0x812E, AluOp::ShiftLeft),
    ];
    for (word, alu) in ops {
        assert_eq!(Instruction(word).decode(), Some(Opcode::Alu { alu, x: 1, y: 2 }));
    }
}

#[test]
fn decode_timer_key_and_memory_operations() {
    let ops = [
        (0xF307, MiscOp::ReadDelay),
        (0xF30A, MiscOp::WaitKey),
        (0xF315, MiscOp::SetDelay),
        (0xF318, MiscOp::SetSound),
        (0xF31E, MiscOp::AddIndex),
        (0xF329, MiscOp::Glyph),
        (0xF333, MiscOp::Bcd),
        (0xF355, MiscOp::Store),
        (0xF365, MiscOp::Load),
    ];
    for (word, misc) in ops {
        assert_eq!(Instruction(word).decode(), Some(Opcode::Misc { misc, x: 3 }));
    }
}

#[test]
fn decode_rejects_undefined_words() {
    for word in [
        0x0000u16, 0x0123, 0x00E1, 0x00EF, 0x0FFF, 0x5121, 0x512F, 0x8128, 0x812D, 0x812F,
        0x9121, 0xE000, 0xE19F, 0xE1A0, 0xF000, 0xF108, 0xF1FF, 0xF166,
    ] {
        assert_eq!(Instruction(word).decode(), None, "word {:#06x}", word);
    }
}

#[test]
fn decode_agrees_with_the_fields_for_every_word() {
    for word in 0..=0xFFFFu16 {
        let inst = Instruction(word);
        let top = inst.get_quater(0);
        let x = inst.get_quater(1);
        let y = inst.get_quater(2);
        let n = inst.get_quater(3);
        assert_eq!(word, (top as u16) << 12 | (x as u16) << 8 | (y as u16) << 4 | n as u16);
        assert_eq!(inst.get_addr(), word & 0x0FFF);
        assert_eq!(inst.get_byte() as u16, word & 0x00FF);
        match inst.decode() {
            Some(Opcode::Jump { addr }) => assert_eq!((top, addr), (1, word & 0xFFF)),
            Some(Opcode::Load { x: r, nn }) => assert_eq!((top, r, nn as u16), (6, x, word & 0xFF)),
            Some(Opcode::Draw { x: r, y: s, n: h }) => assert_eq!((top, r, s, h), (0xD, x, y, n)),
            _ => {}
        }
    }
}

#[test]
fn alu_selector_by_nibble() {
    assert_eq!(AluOp::from_nibble(0x4), Some(AluOp::Add));
    assert_eq!(AluOp::from_nibble(0xE), Some(AluOp::ShiftLeft));
    for n in [0x8u8, 0x9, 0xA, 0xB, 0xC, 0xD, 0xF, 0x10, 0xFF] {
        assert_eq!(AluOp::from_nibble(n), None);
    }
}

#[test]
fn misc_selector_by_byte() {
    assert_eq!(MiscOp::from_byte(0x33), Some(MiscOp::Bcd));
    assert_eq!(MiscOp::from_byte(0x0A), Some(MiscOp::WaitKey));
    assert_eq!(MiscOp::from_byte(0x00), None);
    assert_eq!(MiscOp::from_byte(0x34), None);
}
