//! A four-byte instruction word and its fields.
use vstd::prelude::*;
use vstd::string::StringExecFns;
use crate::memory::le16;
use crate::opcode::{Opcode, opcode_of};

verus! {

/// The hexadecimal digit of `n` (below 16).
pub open spec fn hex_digit(n: u8) -> &'static str {
    match n {
        0 => "0",
        1 => "1",
        2 => "2",
        3 => "3",
        4 => "4",
        5 => "5",
        6 => "6",
        7 => "7",
        8 => "8",
        9 => "9",
        10 => "A",
        11 => "B",
        12 => "C",
        13 => "D",
        14 => "E",
        _ => "F",
    }
}

/// A byte as two hexadecimal digits.
pub open spec fn hex2(b: u8) -> Seq<char> {
    hex_digit(b / 16)@ + hex_digit(b % 16)@
}

/// A register operand, `R` and its index in hexadecimal.
pub open spec fn reg_text(n: u8) -> Seq<char> {
    "R"@ + hex_digit(n)@
}

/// The mnemonic of conditional jump `x`.
pub open spec fn jump_mnemonic(x: u8) -> &'static str {
    match x {
        0 => "JZ",
        1 => "JNZ",
        2 => "JN",
        3 => "JNN",
        4 => "JP",
        5 => "JO",
        6 => "JNO",
        7 => "JA",
        8 => "JAE",
        9 => "JB",
        10 => "JBE",
        11 => "JG",
        12 => "JGE",
        13 => "JL",
        14 => "JLE",
        _ => "RES",
    }
}

/// `M NN` with a byte operand.
pub open spec fn fmt_b(m: Seq<char>, b: u8) -> Seq<char> {
    m + " "@ + hex2(b)
}

/// `M HHLL`.
pub open spec fn fmt_i(m: Seq<char>, ll: u8, hh: u8) -> Seq<char> {
    m + " "@ + hex2(hh) + hex2(ll)
}

/// `M Rx`.
pub open spec fn fmt_r(m: Seq<char>, x: u8) -> Seq<char> {
    m + " "@ + reg_text(x)
}

/// `M Rx, HHLL`.
pub open spec fn fmt_ri(m: Seq<char>, x: u8, ll: u8, hh: u8) -> Seq<char> {
    m + " "@ + reg_text(x) + ", "@ + hex2(hh) + hex2(ll)
}

/// `M Rx, Ry`.
pub open spec fn fmt_rr(m: Seq<char>, x: u8, y: u8) -> Seq<char> {
    m + " "@ + reg_text(x) + ", "@ + reg_text(y)
}

/// `M Rx, Ry, Rz`.
pub open spec fn fmt_rrr(m: Seq<char>, x: u8, y: u8, z: u8) -> Seq<char> {
    m + " "@ + reg_text(x) + ", "@ + reg_text(y) + ", "@ + reg_text(z)
}

/// `M Rx, N` with a one-digit count.
pub open spec fn fmt_rn(m: Seq<char>, x: u8, n: u8) -> Seq<char> {
    m + " "@ + reg_text(x) + ", "@ + hex_digit(n)@
}

/// `M Rx, Ry, HHLL`.
pub open spec fn fmt_rri(m: Seq<char>, x: u8, y: u8, ll: u8, hh: u8) -> Seq<char> {
    m + " "@ + reg_text(x) + ", "@ + reg_text(y) + ", "@ + hex2(hh) + hex2(ll)
}

/// The assembly text of an instruction, `??` for an unknown opcode.
pub open spec fn asm_text(op: Option<Opcode>, x: u8, y: u8, z: u8, ll: u8, hh: u8) -> Seq<char> {
    match op {
        Some(Opcode::NOP) => "NOP"@,
        Some(Opcode::CLS) => "CLS"@,
        Some(Opcode::VBLNK) => "VBLNK"@,
        Some(Opcode::BGC) => fmt_b("BGC"@, z),
        Some(Opcode::SPR) => fmt_i("SPR"@, ll, hh),
        Some(Opcode::DRW_XY_HHLL) => fmt_rri("DRW"@, x, y, ll, hh),
        Some(Opcode::DRW_XYZ) => fmt_rrr("DRW"@, x, y, z),
        Some(Opcode::RND) => fmt_ri("RND"@, x, ll, hh),
        Some(Opcode::SND0) => "SND0"@,
        Some(Opcode::SND1) => fmt_i("SND1"@, ll, hh),
        Some(Opcode::SND2) => fmt_i("SND2"@, ll, hh),
        Some(Opcode::SND3) => fmt_i("SND3"@, ll, hh),
        Some(Opcode::SNP) => fmt_ri("SNP"@, x, ll, hh),
        Some(Opcode::SNG) => fmt_i("SNG"@, ll, hh),
        Some(Opcode::JMP) => fmt_i("JMP"@, ll, hh),
        Some(Opcode::JX) => fmt_i(jump_mnemonic(x)@, ll, hh),
        Some(Opcode::JME) => fmt_rri("JME"@, x, y, ll, hh),
        Some(Opcode::CALL_HHLL) => fmt_i("CALL"@, ll, hh),
        Some(Opcode::RET) => "RET"@,
        Some(Opcode::CALL) => fmt_r("CALL"@, x),
        Some(Opcode::LDI) => fmt_ri("LDI"@, x, ll, hh),
        Some(Opcode::LDM_HHLL) => fmt_ri("LDM"@, x, ll, hh),
        Some(Opcode::LDM_R) => fmt_rr("LDM"@, x, y),
        Some(Opcode::MOV) => fmt_rr("MOV"@, x, y),
        Some(Opcode::STM) => fmt_ri("STM"@, x, ll, hh),
        Some(Opcode::STM_XY) => fmt_rr("STM"@, x, y),
        Some(Opcode::ADDI) => fmt_ri("ADDI"@, x, ll, hh),
        Some(Opcode::ADD_XY) => fmt_rr("ADD"@, x, y),
        Some(Opcode::ADD_XYZ) => fmt_rrr("ADD"@, x, y, z),
        Some(Opcode::SUBI) => fmt_ri("SUBI"@, x, ll, hh),
        Some(Opcode::SUB_XY) => fmt_rr("SUB"@, x, y),
        Some(Opcode::SUB_XYZ) => fmt_rrr("SUB"@, x, y, z),
        Some(Opcode::CMPI) => fmt_ri("CMPI"@, x, ll, hh),
        Some(Opcode::CMP) => fmt_rr("CMP"@, x, y),
        Some(Opcode::ANDI) => fmt_ri("ANDI"@, x, ll, hh),
        Some(Opcode::AND_XY) => fmt_rr("AND"@, x, y),
        Some(Opcode::TSTI) => fmt_ri("TSTI"@, x, ll, hh),
        Some(Opcode::TST) => fmt_rr("TST"@, x, y),
        Some(Opcode::OR_XY) => fmt_rr("OR"@, x, y),
        Some(Opcode::OR_XYZ) => fmt_rrr("OR"@, x, y, z),
        Some(Opcode::XOR_XY) => fmt_rr("XOR"@, x, y),
        Some(Opcode::XOR_XYZ) => fmt_rrr("XOR"@, x, y, z),
        Some(Opcode::MULI) => fmt_ri("MULI"@, x, ll, hh),
        Some(Opcode::MUL_XY) => fmt_rr("MUL"@, x, y),
        Some(Opcode::MUL_XYZ) => fmt_rrr("MUL"@, x, y, z),
        Some(Opcode::DIVI) => fmt_ri("DIVI"@, x, ll, hh),
        Some(Opcode::DIV_XY) => fmt_rr("DIV"@, x, y),
        Some(Opcode::SHL) => fmt_rn("SHL"@, x, z),
        Some(Opcode::SHR) => fmt_rn("SHR"@, x, z),
        Some(Opcode::SAR) => fmt_rn("SAR"@, x, z),
        Some(Opcode::SHL_XY) => fmt_rr("SHL"@, x, y),
        Some(Opcode::PUSH) => fmt_r("PUSH"@, x),
        Some(Opcode::POP) => fmt_r("POP"@, x),
        Some(Opcode::PUSHF) => "PUSHF"@,
        None => "??"@,
    }
}

fn hex_str(n: u8) -> (r: &'static str)
    ensures
        r@ == hex_digit(n)@,
{
    match n {
            0 => "0",
            1 => "1",
            2 => "2",
            3 => "3",
            4 => "4",
            5 => "5",
            6 => "6",
            7 => "7",
            8 => "8",
            9 => "9",
            10 => "A",
            11 => "B",
            12 => "C",
            13 => "D",
            14 => "E",
            _ => "F",
    }
}

fn jump_str(x: u8) -> (r: &'static str)
    ensures
        r@ == jump_mnemonic(x)@,
{
    match x {
            0 => "JZ",
            1 => "JNZ",
            2 => "JN",
            3 => "JNN",
            4 => "JP",
            5 => "JO",
            6 => "JNO",
            7 => "JA",
            8 => "JAE",
            9 => "JB",
            10 => "JBE",
            11 => "JG",
            12 => "JGE",
            13 => "JL",
            14 => "JLE",
            _ => "RES",
    }
}

fn push_hex2(s: &mut String, b: u8)
    ensures
        final(s)@ == old(s)@ + hex2(b),
{
    s.append(hex_str(b / 16));
    s.append(hex_str(b % 16));
    assert(final(s)@ =~= old(s)@ + hex2(b));
}

fn push_reg(s: &mut String, n: u8)
    ensures
        final(s)@ == old(s)@ + reg_text(n),
{
    s.append("R");
    s.append(hex_str(n));
    assert(final(s)@ =~= old(s)@ + reg_text(n));
}

fn text_b(m: &str, b: u8) -> (r: String)
    ensures
        r@ == fmt_b(m@, b),
{
    let mut s = String::from_str(m);
    s.append(" ");
    push_hex2(&mut s, b);
    s
}

fn text_i(m: &str, ll: u8, hh: u8) -> (r: String)
    ensures
        r@ == fmt_i(m@, ll, hh),
{
    let mut s = String::from_str(m);
    s.append(" ");
    push_hex2(&mut s, hh);
    push_hex2(&mut s, ll);
    s
}

fn text_r(m: &str, x: u8) -> (r: String)
    ensures
        r@ == fmt_r(m@, x),
{
    let mut s = String::from_str(m);
    s.append(" ");
    push_reg(&mut s, x);
    s
}

fn text_ri(m: &str, x: u8, ll: u8, hh: u8) -> (r: String)
    ensures
        r@ == fmt_ri(m@, x, ll, hh),
{
    let mut s = String::from_str(m);
    s.append(" ");
    push_reg(&mut s, x);
    s.append(", ");
    push_hex2(&mut s, hh);
    push_hex2(&mut s, ll);
    s
}

fn text_rr(m: &str, x: u8, y: u8) -> (r: String)
    ensures
        r@ == fmt_rr(m@, x, y),
{
    let mut s = String::from_str(m);
    s.append(" ");
    push_reg(&mut s, x);
    s.append(", ");
    push_reg(&mut s, y);
    s
}

fn text_rrr(m: &str, x: u8, y: u8, z: u8) -> (r: String)
    ensures
        r@ == fmt_rrr(m@, x, y, z),
{
    let mut s = String::from_str(m);
    s.append(" ");
    push_reg(&mut s, x);
    s.append(", ");
    push_reg(&mut s, y);
    s.append(", ");
    push_reg(&mut s, z);
    s
}

fn text_rn(m: &str, x: u8, n: u8) -> (r: String)
    ensures
        r@ == fmt_rn(m@, x, n),
{
    let mut s = String::from_str(m);
    s.append(" ");
    push_reg(&mut s, x);
    s.append(", ");
    s.append(hex_str(n));
    s
}

fn text_rri(m: &str, x: u8, y: u8, ll: u8, hh: u8) -> (r: String)
    ensures
        r@ == fmt_rri(m@, x, y, ll, hh),
{
    let mut s = String::from_str(m);
    s.append(" ");
    push_reg(&mut s, x);
    s.append(", ");
    push_reg(&mut s, y);
    s.append(", ");
    push_hex2(&mut s, hh);
    push_hex2(&mut s, ll);
    s
}

/// Bytes: opcode; Y (high nibble) and X (low nibble); LL, whose low nibble is Z; HH.
#[derive(Debug, Clone, Copy)]
pub struct Instruction(pub [u8; 4]);

impl Instruction {
    pub fn opcode(&self) -> (r: Option<Opcode>)
        ensures
            r == opcode_of(self.0[0]),
    {
        Opcode::from_u8(self.0[0])
    }

    /// Register index X.
    pub fn x(&self) -> (r: u8)
        ensures
            r == self.0[1] % 16,
    {
        let b = self.0[1];
        assert(b & 0x0f == b % 16) by (bit_vector);
        b & 0x0f
    }

    /// Register index Y.
    pub fn y(&self) -> (r: u8)
        ensures
            r == self.0[1] / 16,
    {
        let b = self.0[1];
        assert((b & 0xf0) >> 4 == b / 16) by (bit_vector);
        (b & 0xf0) >> 4
    }

    /// Register index Z.
    pub fn z(&self) -> (r: u8)
        ensures
            r == self.0[2] % 16,
    {
        let b = self.0[2];
        assert(b & 0x0f == b % 16) by (bit_vector);
        b & 0x0f
    }

    /// Low byte of the immediate.
    pub fn ll(&self) -> (r: u8)
        ensures
            r == self.0[2],
    {
        self.0[2]
    }

    /// High byte of the immediate.
    pub fn hh(&self) -> (r: u8)
        ensures
            r == self.0[3],
    {
        self.0[3]
    }

    /// The instruction in assembly syntax, operands in hexadecimal; `??` for an unknown
    /// opcode.
    pub fn to_asm_str(&self) -> (r: String)
        ensures
            r@ == asm_text(
                opcode_of(self.0[0]),
                self.0[1] % 16,
                self.0[1] / 16,
                self.0[2] % 16,
                self.0[2],
                self.0[3],
            ),
    {
        let x = self.x();
        let y = self.y();
        let z = self.z();
        let ll = self.ll();
        let hh = self.hh();
        match self.opcode() {
            Some(Opcode::NOP) => String::from_str("NOP"),
            Some(Opcode::CLS) => String::from_str("CLS"),
            Some(Opcode::VBLNK) => String::from_str("VBLNK"),
            Some(Opcode::BGC) => text_b("BGC", z),
            Some(Opcode::SPR) => text_i("SPR", ll, hh),
            Some(Opcode::DRW_XY_HHLL) => text_rri("DRW", x, y, ll, hh),
            Some(Opcode::DRW_XYZ) => text_rrr("DRW", x, y, z),
            Some(Opcode::RND) => text_ri("RND", x, ll, hh),
            Some(Opcode::SND0) => String::from_str("SND0"),
            Some(Opcode::SND1) => text_i("SND1", ll, hh),
            Some(Opcode::SND2) => text_i("SND2", ll, hh),
            Some(Opcode::SND3) => text_i("SND3", ll, hh),
            Some(Opcode::SNP) => text_ri("SNP", x, ll, hh),
            Some(Opcode::SNG) => text_i("SNG", ll, hh),
            Some(Opcode::JMP) => text_i("JMP", ll, hh),
            Some(Opcode::JX) => text_i(jump_str(x), ll, hh),
            Some(Opcode::JME) => text_rri("JME", x, y, ll, hh),
            Some(Opcode::CALL_HHLL) => text_i("CALL", ll, hh),
            Some(Opcode::RET) => String::from_str("RET"),
            Some(Opcode::CALL) => text_r("CALL", x),
            Some(Opcode::LDI) => text_ri("LDI", x, ll, hh),
            Some(Opcode::LDM_HHLL) => text_ri("LDM", x, ll, hh),
            Some(Opcode::LDM_R) => text_rr("LDM", x, y),
            Some(Opcode::MOV) => text_rr("MOV", x, y),
            Some(Opcode::STM) => text_ri("STM", x, ll, hh),
            Some(Opcode::STM_XY) => text_rr("STM", x, y),
            Some(Opcode::ADDI) => text_ri("ADDI", x, ll, hh),
            Some(Opcode::ADD_XY) => text_rr("ADD", x, y),
            Some(Opcode::ADD_XYZ) => text_rrr("ADD", x, y, z),
            Some(Opcode::SUBI) => text_ri("SUBI", x, ll, hh),
            Some(Opcode::SUB_XY) => text_rr("SUB", x, y),
            Some(Opcode::SUB_XYZ) => text_rrr("SUB", x, y, z),
            Some(Opcode::CMPI) => text_ri("CMPI", x, ll, hh),
            Some(Opcode::CMP) => text_rr("CMP", x, y),
            Some(Opcode::ANDI) => text_ri("ANDI", x, ll, hh),
            Some(Opcode::AND_XY) => text_rr("AND", x, y),
            Some(Opcode::TSTI) => text_ri("TSTI", x, ll, hh),
            Some(Opcode::TST) => text_rr("TST", x, y),
            Some(Opcode::OR_XY) => text_rr("OR", x, y),
            Some(Opcode::OR_XYZ) => text_rrr("OR", x, y, z),
            Some(Opcode::XOR_XY) => text_rr("XOR", x, y),
            Some(Opcode::XOR_XYZ) => text_rrr("XOR", x, y, z),
            Some(Opcode::MULI) => text_ri("MULI", x, ll, hh),
            Some(Opcode::MUL_XY) => text_rr("MUL", x, y),
            Some(Opcode::MUL_XYZ) => text_rrr("MUL", x, y, z),
            Some(Opcode::DIVI) => text_ri("DIVI", x, ll, hh),
            Some(Opcode::DIV_XY) => text_rr("DIV", x, y),
            Some(Opcode::SHL) => text_rn("SHL", x, z),
            Some(Opcode::SHR) => text_rn("SHR", x, z),
            Some(Opcode::SAR) => text_rn("SAR", x, z),
            Some(Opcode::SHL_XY) => text_rr("SHL", x, y),
            Some(Opcode::PUSH) => text_r("PUSH", x),
            Some(Opcode::POP) => text_r("POP", x),
            Some(Opcode::PUSHF) => String::from_str("PUSHF"),
            None => String::from_str("??"),
        }
    }

    /// The 16-bit immediate `HHLL`.
    pub fn hhll(&self) -> (r: u16)
        ensures
            r == le16(self.0[2], self.0[3]),
    {
        self.0[2] as u16 + (self.0[3] as u16) * 256
    }
}

} // verus!
