use rusty16::instruction::Instruction;
use rusty16::opcode::Opcode;

#[test]
fn test_x() {
    let cases = vec![
        (Instruction([0x20, 0x01, 0x02, 0x03]), 0x01),
        (Instruction([0x20, 0x0f, 0x02, 0x03]), 0x0f),
        (Instruction([0x20, 0xf1, 0x02, 0x03]), 0x01),
        (Instruction([0x20, 0xf, 0x02, 0x03]), 0x0f),
    ];

    for case in cases {
        assert_eq!(case.0.x(), case.1);
    }
}

#[test]
fn test_y() {
    let cases = vec![
        (Instruction([0x20, 0x10, 0x02, 0x03]), 0x01),
        (Instruction([0x20, 0xf0, 0x02, 0x03]), 0x0f),
        (Instruction([0x20, 0x1f, 0x02, 0x03]), 0x01),
    ];

    for case in cases {
        assert_eq!(case.0.y(), case.1);
    }
}

#[test]
fn test_z() {
    let cases = vec![
        (Instruction([0x20, 0x10, 0x0a, 0x03]), 0x0a),
        (Instruction([0x20, 0xf0, 0x0b, 0x03]), 0x0b),
        (Instruction([0x20, 0x1f, 0x0c, 0x03]), 0x0c),
    ];

    for case in cases {
        assert_eq!(case.0.z(), case.1);
    }
}

#[test]
fn test_ll() {
    let ll = Instruction([0x00, 0x11, 0x22, 0x33]).ll();
    assert_eq!(ll, 0x22);
}

#[test]
fn test_hh() {
    let hh = Instruction([0x00, 0x11, 0x22, 0x33]).hh();
    assert_eq!(hh, 0x33);
}

#[test]
fn unknown_opcode_decodes_to_none() {
    assert!(Instruction([0xff, 0x01, 0x02, 0x03]).opcode().is_none());
    assert_eq!(Instruction([0x20, 0x01, 0x00, 0xff]).opcode(), Some(Opcode::LDI));
    assert_eq!(Instruction([0x20, 0x01, 0x00, 0xff]).hhll(), 0xff00);
}

#[test]
fn asm_text() {
    assert_eq!(Instruction([0x20, 0x01, 0x00, 0xff]).to_asm_str(), "LDI R1, FF00");
    assert_eq!(Instruction([0x12, 0x00, 0xad, 0xde]).to_asm_str(), "JZ DEAD");
    assert_eq!(Instruction([0x12, 0x0e, 0xad, 0xde]).to_asm_str(), "JLE DEAD");
    assert_eq!(Instruction([0x42, 0x21, 0x03, 0x00]).to_asm_str(), "ADD R1, R2, R3");
    assert_eq!(Instruction([0xb1, 0x05, 0x0c, 0x00]).to_asm_str(), "SHR R5, C");
    assert_eq!(Instruction([0x05, 0x10, 0x2a, 0x00]).to_asm_str(), "DRW R0, R1, 002A");
    assert_eq!(Instruction([0x03, 0x00, 0x0b, 0x00]).to_asm_str(), "BGC 0B");
    assert_eq!(Instruction([0x15, 0x00, 0x00, 0x00]).to_asm_str(), "RET");
    assert_eq!(Instruction([0xff, 0x00, 0x00, 0x00]).to_asm_str(), "??");
}
