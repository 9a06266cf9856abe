//! The closed table of instruction tags, keyed by the first byte of an instruction.
use vstd::prelude::*;

verus! {

/// Every implemented instruction.
#[allow(non_camel_case_types)]
#[derive(Debug, Clone, Copy, PartialEq, Eq, Structural)]
pub enum Opcode {
    // 0x: Misc, video and sound
    NOP,
    CLS,
    VBLNK,
    BGC,
    SPR,
    DRW_XY_HHLL,
    DRW_XYZ,
    RND,
    SND0,
    SND1,
    SND2,
    SND3,
    SNP,
    SNG,

    // 1x: Jumps and calls
    JMP,
    JX,
    JME,
    CALL_HHLL,
    RET,
    CALL,

    // 2x: Loads
    LDI,
    LDM_HHLL,
    LDM_R,
    MOV,

    // 3x: Stores
    STM,
    STM_XY,

    // 4x: Addition
    ADDI,
    ADD_XY,
    ADD_XYZ,

    // 5x: Subtraction
    SUBI,
    SUB_XY,
    SUB_XYZ,
    CMPI,
    CMP,

    // 6x: Bitwise AND
    ANDI,
    AND_XY,
    TSTI,
    TST,

    // 7x: Bitwise OR
    OR_XY,
    OR_XYZ,

    // 8x: Bitwise XOR
    XOR_XY,
    XOR_XYZ,

    // 9x: Multiplication
    MULI,
    MUL_XY,
    MUL_XYZ,

    // Ax: Division
    DIVI,
    DIV_XY,

    // Bx: Shifts
    SHL,
    SHR,
    SAR,
    SHL_XY,

    // Cx: Stack
    PUSH,
    POP,
    PUSHF,
}

/// The instruction tag of an opcode byte, if the byte names one.
pub open spec fn opcode_of(b: u8) -> Option<Opcode> {
    match b {
        0x00 => Some(Opcode::NOP),
        0x01 => Some(Opcode::CLS),
        0x02 => Some(Opcode::VBLNK),
        0x03 => Some(Opcode::BGC),
        0x04 => Some(Opcode::SPR),
        0x05 => Some(Opcode::DRW_XY_HHLL),
        0x06 => Some(Opcode::DRW_XYZ),
        0x07 => Some(Opcode::RND),
        0x09 => Some(Opcode::SND0),
        0x0a => Some(Opcode::SND1),
        0x0b => Some(Opcode::SND2),
        0x0c => Some(Opcode::SND3),
        0x0d => Some(Opcode::SNP),
        0x0e => Some(Opcode::SNG),
        0x10 => Some(Opcode::JMP),
        0x12 => Some(Opcode::JX),
        0x13 => Some(Opcode::JME),
        0x14 => Some(Opcode::CALL_HHLL),
        0x15 => Some(Opcode::RET),
        0x16 => Some(Opcode::CALL),
        0x20 => Some(Opcode::LDI),
        0x22 => Some(Opcode::LDM_HHLL),
        0x23 => Some(Opcode::LDM_R),
        0x24 => Some(Opcode::MOV),
        0x30 => Some(Opcode::STM),
        0x31 => Some(Opcode::STM_XY),
        0x40 => Some(Opcode::ADDI),
        0x41 => Some(Opcode::ADD_XY),
        0x42 => Some(Opcode::ADD_XYZ),
        0x50 => Some(Opcode::SUBI),
        0x51 => Some(Opcode::SUB_XY),
        0x52 => Some(Opcode::SUB_XYZ),
        0x53 => Some(Opcode::CMPI),
        0x54 => Some(Opcode::CMP),
        0x60 => Some(Opcode::ANDI),
        0x61 => Some(Opcode::AND_XY),
        0x63 => Some(Opcode::TSTI),
        0x64 => Some(Opcode::TST),
        0x71 => Some(Opcode::OR_XY),
        0x72 => Some(Opcode::OR_XYZ),
        0x81 => Some(Opcode::XOR_XY),
        0x82 => Some(Opcode::XOR_XYZ),
        0x90 => Some(Opcode::MULI),
        0x91 => Some(Opcode::MUL_XY),
        0x92 => Some(Opcode::MUL_XYZ),
        0xa0 => Some(Opcode::DIVI),
        0xa1 => Some(Opcode::DIV_XY),
        0xb0 => Some(Opcode::SHL),
        0xb1 => Some(Opcode::SHR),
        0xb2 => Some(Opcode::SAR),
        0xb3 => Some(Opcode::SHL_XY),
        0xc0 => Some(Opcode::PUSH),
        0xc1 => Some(Opcode::POP),
        0xc4 => Some(Opcode::PUSHF),
        _ => None,
    }
}

impl Opcode {
    /// Decodes an opcode byte.
    pub fn from_u8(b: u8) -> (r: Option<Opcode>)
        ensures
            r == opcode_of(b),
    {
        match b {
            0x00 => Some(Opcode::NOP),
            0x01 => Some(Opcode::CLS),
            0x02 => Some(Opcode::VBLNK),
            0x03 => Some(Opcode::BGC),
            0x04 => Some(Opcode::SPR),
            0x05 => Some(Opcode::DRW_XY_HHLL),
            0x06 => Some(Opcode::DRW_XYZ),
            0x07 => Some(Opcode::RND),
            0x09 => Some(Opcode::SND0),
            0x0a => Some(Opcode::SND1),
            0x0b => Some(Opcode::SND2),
            0x0c => Some(Opcode::SND3),
            0x0d => Some(Opcode::SNP),
            0x0e => Some(Opcode::SNG),
            0x10 => Some(Opcode::JMP),
            0x12 => Some(Opcode::JX),
            0x13 => Some(Opcode::JME),
            0x14 => Some(Opcode::CALL_HHLL),
            0x15 => Some(Opcode::RET),
            0x16 => Some(Opcode::CALL),
            0x20 => Some(Opcode::LDI),
            0x22 => Some(Opcode::LDM_HHLL),
            0x23 => Some(Opcode::LDM_R),
            0x24 => Some(Opcode::MOV),
            0x30 => Some(Opcode::STM),
            0x31 => Some(Opcode::STM_XY),
            0x40 => Some(Opcode::ADDI),
            0x41 => Some(Opcode::ADD_XY),
            0x42 => Some(Opcode::ADD_XYZ),
            0x50 => Some(Opcode::SUBI),
            0x51 => Some(Opcode::SUB_XY),
            0x52 => Some(Opcode::SUB_XYZ),
            0x53 => Some(Opcode::CMPI),
            0x54 => Some(Opcode::CMP),
            0x60 => Some(Opcode::ANDI),
            0x61 => Some(Opcode::AND_XY),
            0x63 => Some(Opcode::TSTI),
            0x64 => Some(Opcode::TST),
            0x71 => Some(Opcode::OR_XY),
            0x72 => Some(Opcode::OR_XYZ),
            0x81 => Some(Opcode::XOR_XY),
            0x82 => Some(Opcode::XOR_XYZ),
            0x90 => Some(Opcode::MULI),
            0x91 => Some(Opcode::MUL_XY),
            0x92 => Some(Opcode::MUL_XYZ),
            0xa0 => Some(Opcode::DIVI),
            0xa1 => Some(Opcode::DIV_XY),
            0xb0 => Some(Opcode::SHL),
            0xb1 => Some(Opcode::SHR),
            0xb2 => Some(Opcode::SAR),
            0xb3 => Some(Opcode::SHL_XY),
            0xc0 => Some(Opcode::PUSH),
            0xc1 => Some(Opcode::POP),
            0xc4 => Some(Opcode::PUSHF),
            _ => None,
        }
    }
}

} // verus!
