//! The CPU: register file, program counter, stack pointer, flags, and the execution of
//! one instruction against the address space and the framebuffer.
use vstd::prelude::*;
use crate::flags::{
    CpuFlags,
    FLAG_C,
    FLAG_N,
    FLAG_O,
    FLAG_Z,
    has,
    put,
    lemma_nz,
    lemma_nzc,
    lemma_nzco,
};
use crate::instruction::Instruction;
use crate::opcode::{Opcode, opcode_of};
use crate::memory::{Memory, MEMORY_SIZE, le16, put_word, word_at};
use crate::screen::{Screen, ScreenState, blit, sprite_in_memory};

verus! {

pub const INSTRUCTION_SIZE: usize = 4;

pub const STACK_ENTRY_SIZE: usize = 2;

/// Where the stack starts.
pub const INITIAL_SP: u16 = 0xfdf0;

/// The 16-bit pattern of a signed register value.
pub open spec fn bits(a: i16) -> u16 {
    (if a < 0 {
        a + 0x10000
    } else {
        a as int
    }) as u16
}

/// The signed value of a 16-bit pattern.
pub open spec fn signed(v: u16) -> i16 {
    (if v >= 0x8000 {
        v - 0x10000
    } else {
        v as int
    }) as i16
}

/// The signed value of the low 16 bits of `v`.
pub open spec fn wrap(v: int) -> i16 {
    signed((v % 0x10000) as u16)
}

/// The immediate `HHLL` read as a signed value.
pub open spec fn imm(ll: u8, hh: u8) -> i16 {
    signed(le16(ll, hh))
}

pub open spec fn next_pc(pc: u16) -> u16 {
    ((pc + INSTRUCTION_SIZE) % 0x10000) as u16
}

pub open spec fn sp_up(sp: u16) -> u16 {
    ((sp + STACK_ENTRY_SIZE) % 0x10000) as u16
}

pub open spec fn sp_down(sp: u16) -> u16 {
    ((sp + 0x10000 - STACK_ENTRY_SIZE) % 0x10000) as u16
}

/// N from the sign of `v`, Z from whether it is zero.
pub open spec fn nz_flags(f: u8, v: i16) -> u8 {
    put(put(f, FLAG_N, v < 0), FLAG_Z, v == 0)
}

pub open spec fn add_value(a: i16, b: i16) -> i16 {
    wrap(bits(a) + bits(b))
}

/// C: the unsigned sum needs a 17th bit; O: both operands have one sign and the
/// result the other.
pub open spec fn add_flags(f: u8, a: i16, b: i16) -> u8 {
    let v = add_value(a, b);
    put(
        put(nz_flags(f, v), FLAG_C, bits(a) + bits(b) > 0xffff),
        FLAG_O,
        (a < 0) == (b < 0) && (v < 0) != (a < 0),
    )
}

pub open spec fn sub_value(a: i16, b: i16) -> i16 {
    wrap(bits(a) - bits(b) + 0x10000)
}

/// C: unsigned borrow; O: the operands differ in sign and the result has the sign of `b`.
pub open spec fn sub_flags(f: u8, a: i16, b: i16) -> u8 {
    let v = sub_value(a, b);
    put(
        put(nz_flags(f, v), FLAG_C, bits(a) < bits(b)),
        FLAG_O,
        (a < 0) != (b < 0) && (v < 0) == (b < 0),
    )
}

pub open spec fn and_value(a: i16, b: i16) -> i16 {
    signed(bits(a) & bits(b))
}

pub open spec fn or_value(a: i16, b: i16) -> i16 {
    signed(bits(a) | bits(b))
}

pub open spec fn xor_value(a: i16, b: i16) -> i16 {
    signed(bits(a) ^ bits(b))
}

pub open spec fn mul_value(a: i16, b: i16) -> i16 {
    wrap(bits(a) * bits(b))
}

/// C: the unsigned product does not fit in 16 bits.
pub open spec fn mul_flags(f: u8, a: i16, b: i16) -> u8 {
    put(nz_flags(f, mul_value(a, b)), FLAG_C, bits(a) * bits(b) > 0xffff)
}

pub open spec fn magnitude(a: i16) -> int {
    if a < 0 {
        -a
    } else {
        a as int
    }
}

/// Signed division, truncating toward zero (`-32768 / -1` wraps to `-32768`).
pub open spec fn div_value(a: i16, b: i16) -> i16 {
    let q = magnitude(a) / magnitude(b);
    wrap(
        if (a < 0) != (b < 0) {
            -q
        } else {
            q
        },
    )
}

/// C: the division leaves a remainder.
pub open spec fn div_flags(f: u8, a: i16, b: i16) -> u8 {
    put(nz_flags(f, div_value(a, b)), FLAG_C, magnitude(a) % magnitude(b) != 0)
}

/// Logical shift left by `n`.
pub open spec fn shl_value(a: i16, n: u8) -> i16 {
    signed(bits(a) << n)
}

/// Logical shift right by `n`.
pub open spec fn shr_value(a: i16, n: u8) -> i16 {
    signed(bits(a) >> n)
}

/// Arithmetic shift right by `n`.
pub open spec fn sar_value(a: i16, n: u8) -> i16 {
    a >> n
}

/// Bit `i` of the pattern of `a`.
pub open spec fn bit(a: i16, i: int) -> bool {
    (bits(a) >> (i as u16)) & 1 == 1
}

/// C after a shift by `n`: the last bit shifted out, or unchanged when nothing is.
pub open spec fn shift_flags(f: u8, v: i16, n: u8, out: bool) -> u8 {
    if n == 0 {
        nz_flags(f, v)
    } else {
        put(nz_flags(f, v), FLAG_C, out)
    }
}

/// The CPU as plain values.
pub struct CpuState {
    pub pc: u16,
    pub sp: u16,
    pub r: Seq<i16>,
    pub flags: u8,
}

impl CpuState {
    /// On to the next instruction.
    pub open spec fn advance(self) -> CpuState {
        CpuState { pc: next_pc(self.pc), ..self }
    }

    pub open spec fn with_reg(self, x: int, v: i16) -> CpuState {
        CpuState { r: self.r.update(x, v), ..self }
    }

    pub open spec fn with_flags(self, f: u8) -> CpuState {
        CpuState { flags: f, ..self }
    }

    /// An arithmetic or logic instruction: `v` into register `d`, new flags `f`, next
    /// instruction.
    pub open spec fn alu(self, d: int, v: i16, f: u8) -> CpuState {
        self.with_reg(d, v).with_flags(f).advance()
    }
}

/// Each arithmetic or logic instruction as a change of the CPU state, the result going
/// to register `d`.
pub open spec fn add_into(c: CpuState, d: int, a: i16, b: i16) -> CpuState {
    c.alu(d, add_value(a, b), add_flags(c.flags, a, b))
}

pub open spec fn sub_into(c: CpuState, d: int, a: i16, b: i16) -> CpuState {
    c.alu(d, sub_value(a, b), sub_flags(c.flags, a, b))
}

/// A compare: the flags of a subtraction, the result dropped.
pub open spec fn cmp_into(c: CpuState, a: i16, b: i16) -> CpuState {
    c.with_flags(sub_flags(c.flags, a, b)).advance()
}

pub open spec fn and_into(c: CpuState, d: int, a: i16, b: i16) -> CpuState {
    c.alu(d, and_value(a, b), nz_flags(c.flags, and_value(a, b)))
}

/// A test: the flags of an AND, the result dropped.
pub open spec fn tst_into(c: CpuState, a: i16, b: i16) -> CpuState {
    c.with_flags(nz_flags(c.flags, and_value(a, b))).advance()
}

pub open spec fn or_into(c: CpuState, d: int, a: i16, b: i16) -> CpuState {
    c.alu(d, or_value(a, b), nz_flags(c.flags, or_value(a, b)))
}

pub open spec fn xor_into(c: CpuState, d: int, a: i16, b: i16) -> CpuState {
    c.alu(d, xor_value(a, b), nz_flags(c.flags, xor_value(a, b)))
}

pub open spec fn mul_into(c: CpuState, d: int, a: i16, b: i16) -> CpuState {
    c.alu(d, mul_value(a, b), mul_flags(c.flags, a, b))
}

pub open spec fn div_into(c: CpuState, d: int, a: i16, b: i16) -> CpuState {
    c.alu(d, div_value(a, b), div_flags(c.flags, a, b))
}

pub open spec fn shl_into(c: CpuState, d: int, a: i16, n: u8) -> CpuState {
    c.alu(d, shl_value(a, n), shift_flags(c.flags, shl_value(a, n), n, bit(a, 16 - n)))
}

pub open spec fn shr_into(c: CpuState, d: int, a: i16, n: u8) -> CpuState {
    c.alu(d, shr_value(a, n), shift_flags(c.flags, shr_value(a, n), n, bit(a, n - 1)))
}

pub open spec fn sar_into(c: CpuState, d: int, a: i16, n: u8) -> CpuState {
    c.alu(d, sar_value(a, n), shift_flags(c.flags, sar_value(a, n), n, bit(a, n - 1)))
}

/// The jump conditions selected by X; 15 is reserved.
pub open spec fn condition(cond: u8, f: u8) -> Option<bool> {
    let n = has(f, FLAG_N);
    let o = has(f, FLAG_O);
    let z = has(f, FLAG_Z);
    let c = has(f, FLAG_C);
    match cond {
        0 => Some(z),
        1 => Some(!z),
        2 => Some(n),
        3 => Some(!n),
        4 => Some(!n && !z),
        5 => Some(o),
        6 => Some(!o),
        7 => Some(!c && !z),
        8 => Some(!c),
        9 => Some(c),
        10 => Some(c || z),
        11 => Some(n == o && !z),
        12 => Some(n == o),
        13 => Some(n != o),
        14 => Some(n != o || z),
        _ => None,
    }
}

/// The value `RND` stores: the random `v` brought into `[0, max]`.
pub open spec fn random_value(v: u16, max: u16) -> i16 {
    signed(((v as int) % (max + 1)) as u16)
}

/// A fatal fault of the guest program; the instruction that raised it has no effect.
#[derive(Debug, Clone, Copy, PartialEq, Eq, Structural)]
pub enum CpuError {
    /// The byte at PC names no instruction.
    IllegalOpcode { opcode: u8, pc: u16 },
    /// A conditional jump with the reserved condition.
    IllegalJumpCondition { cond: u8, pc: u16 },
    /// A shift by 16 or more.
    ShiftOutOfRange { amount: u16, pc: u16 },
    DivByZero { pc: u16 },
    /// A read or write past the end of the address space.
    MemoryOutOfBounds { pc: u16 },
}

/// CPU, address space and framebuffer together, as plain values.
pub struct MachineState {
    pub cpu: CpuState,
    pub mem: Seq<u8>,
    pub screen: ScreenState,
}

pub open spec fn machine(cpu: CpuState, mem: Seq<u8>, screen: ScreenState) -> MachineState {
    MachineState { cpu, mem, screen }
}

pub open spec fn with_cpu(s: MachineState, cpu: CpuState) -> MachineState {
    MachineState { cpu, ..s }
}

/// What one decoded instruction does: tag `op`, register fields `x`, `y`, `z`, immediate
/// bytes `ll`, `hh`; `rnd` is the random value that `RND` takes.
pub open spec fn exec_spec(
    s: MachineState,
    op: Opcode,
    x: u8,
    y: u8,
    z: u8,
    ll: u8,
    hh: u8,
    rnd: u16,
) -> Result<MachineState, CpuError> {
    let c = s.cpu;
    let m = s.mem;
    let scr = s.screen;
    let pc = c.pc;
    let rx = c.r[x as int];
    let ry = c.r[y as int];
    let rz = c.r[z as int];
    let a = le16(ll, hh);
    let i = imm(ll, hh);
    let out_of_bounds = Err(CpuError::MemoryOutOfBounds { pc });
    let sp2 = sp_down(c.sp);
    match op {
        Opcode::NOP | Opcode::SND0 | Opcode::SND1 | Opcode::SND2 | Opcode::SND3 | Opcode::SNP
        | Opcode::SNG => Ok(with_cpu(s, c.advance())),
        Opcode::CLS => Ok(
            MachineState {
                cpu: c.advance(),
                screen: ScreenState {
                    buffer: Seq::new(76800, |k: int| scr.bg),
                    dirty: true,
                    ..scr
                },
                ..s
            },
        ),
        Opcode::VBLNK => if scr.vblank {
            Ok(MachineState { cpu: c.advance(), screen: ScreenState { vblank: false, ..scr }, ..s })
        } else {
            Ok(s)
        },
        Opcode::BGC => Ok(
            MachineState { cpu: c.advance(), screen: ScreenState { bg: z % 16, ..scr }, ..s },
        ),
        Opcode::SPR => Ok(
            MachineState {
                cpu: c.advance(),
                screen: ScreenState { spritew: ll, spriteh: hh, ..scr },
                ..s
            },
        ),
        Opcode::DRW_XY_HHLL => if sprite_in_memory(a, scr.spritew, scr.spriteh) {
            Ok(
                MachineState {
                    cpu: c.advance(),
                    screen: ScreenState {
                        buffer: blit(scr.buffer, m, rx, ry, a, scr.spritew, scr.spriteh),
                        dirty: true,
                        ..scr
                    },
                    ..s
                },
            )
        } else {
            out_of_bounds
        },
        Opcode::DRW_XYZ => if sprite_in_memory(bits(rz), scr.spritew, scr.spriteh) {
            Ok(
                MachineState {
                    cpu: c.advance(),
                    screen: ScreenState {
                        buffer: blit(scr.buffer, m, rx, ry, bits(rz), scr.spritew, scr.spriteh),
                        dirty: true,
                        ..scr
                    },
                    ..s
                },
            )
        } else {
            out_of_bounds
        },
        Opcode::RND => Ok(with_cpu(s, c.with_reg(x as int, random_value(rnd, a)).advance())),
        Opcode::JMP => Ok(with_cpu(s, CpuState { pc: a, ..c })),
        Opcode::JX => match condition(x, c.flags) {
            None => Err(CpuError::IllegalJumpCondition { cond: x, pc }),
            Some(true) => Ok(with_cpu(s, CpuState { pc: a, ..c })),
            Some(false) => Ok(with_cpu(s, c.advance())),
        },
        Opcode::JME => if rx == ry {
            Ok(with_cpu(s, CpuState { pc: a, ..c }))
        } else {
            Ok(with_cpu(s, c.advance()))
        },
        Opcode::CALL_HHLL => if c.sp + 1 < MEMORY_SIZE {
            Ok(
                MachineState {
                    cpu: CpuState { pc: a, sp: sp_up(c.sp), ..c },
                    mem: put_word(m, c.sp as int, pc),
                    ..s
                },
            )
        } else {
            out_of_bounds
        },
        Opcode::CALL => if c.sp + 1 < MEMORY_SIZE {
            Ok(
                MachineState {
                    cpu: CpuState { pc: bits(rx), sp: sp_up(c.sp), ..c },
                    mem: put_word(m, c.sp as int, pc),
                    ..s
                },
            )
        } else {
            out_of_bounds
        },
        Opcode::RET => if sp2 + 1 < MEMORY_SIZE {
            Ok(with_cpu(s, CpuState { sp: sp2, pc: next_pc(word_at(m, sp2 as int)), ..c }))
        } else {
            out_of_bounds
        },
        Opcode::LDI => Ok(with_cpu(s, c.with_reg(x as int, i).advance())),
        Opcode::LDM_HHLL => if a + 1 < MEMORY_SIZE {
            Ok(with_cpu(s, c.with_reg(x as int, signed(word_at(m, a as int))).advance()))
        } else {
            out_of_bounds
        },
        Opcode::LDM_R => if bits(ry) + 1 < MEMORY_SIZE {
            Ok(with_cpu(s, c.with_reg(x as int, signed(word_at(m, bits(ry) as int))).advance()))
        } else {
            out_of_bounds
        },
        Opcode::MOV => Ok(with_cpu(s, c.with_reg(x as int, ry).advance())),
        Opcode::STM => if a + 1 < MEMORY_SIZE {
            Ok(MachineState { cpu: c.advance(), mem: put_word(m, a as int, bits(rx)), ..s })
        } else {
            out_of_bounds
        },
        Opcode::STM_XY => if bits(ry) + 1 < MEMORY_SIZE {
            Ok(MachineState { cpu: c.advance(), mem: put_word(m, bits(ry) as int, bits(rx)), ..s })
        } else {
            out_of_bounds
        },
        Opcode::ADDI => Ok(with_cpu(s, add_into(c, x as int, rx, i))),
        Opcode::ADD_XY => Ok(with_cpu(s, add_into(c, x as int, rx, ry))),
        Opcode::ADD_XYZ => Ok(with_cpu(s, add_into(c, z as int, rx, ry))),
        Opcode::SUBI => Ok(with_cpu(s, sub_into(c, x as int, rx, i))),
        Opcode::SUB_XY => Ok(with_cpu(s, sub_into(c, x as int, rx, ry))),
        Opcode::SUB_XYZ => Ok(with_cpu(s, sub_into(c, z as int, rx, ry))),
        Opcode::CMPI => Ok(with_cpu(s, cmp_into(c, rx, i))),
        Opcode::CMP => Ok(with_cpu(s, cmp_into(c, rx, ry))),
        Opcode::ANDI => Ok(with_cpu(s, and_into(c, x as int, rx, i))),
        Opcode::AND_XY => Ok(with_cpu(s, and_into(c, x as int, rx, ry))),
        Opcode::TSTI => Ok(with_cpu(s, tst_into(c, rx, i))),
        Opcode::TST => Ok(with_cpu(s, tst_into(c, rx, ry))),
        Opcode::OR_XY => Ok(with_cpu(s, or_into(c, x as int, rx, ry))),
        Opcode::OR_XYZ => Ok(with_cpu(s, or_into(c, z as int, rx, ry))),
        Opcode::XOR_XY => Ok(with_cpu(s, xor_into(c, x as int, rx, ry))),
        Opcode::XOR_XYZ => Ok(with_cpu(s, xor_into(c, z as int, rx, ry))),
        Opcode::MULI => Ok(with_cpu(s, mul_into(c, x as int, rx, i))),
        Opcode::MUL_XY => Ok(with_cpu(s, mul_into(c, x as int, rx, ry))),
        Opcode::MUL_XYZ => Ok(with_cpu(s, mul_into(c, z as int, rx, ry))),
        Opcode::DIVI => if i == 0 {
            Err(CpuError::DivByZero { pc })
        } else {
            Ok(with_cpu(s, div_into(c, x as int, rx, i)))
        },
        Opcode::DIV_XY => if ry == 0 {
            Err(CpuError::DivByZero { pc })
        } else {
            Ok(with_cpu(s, div_into(c, x as int, rx, ry)))
        },
        Opcode::SHL => Ok(with_cpu(s, shl_into(c, x as int, rx, z))),
        Opcode::SHR => Ok(with_cpu(s, shr_into(c, x as int, rx, z))),
        Opcode::SAR => Ok(with_cpu(s, sar_into(c, x as int, rx, z))),
        Opcode::SHL_XY => if bits(ry) < 16 {
            Ok(with_cpu(s, shl_into(c, x as int, rx, bits(ry) as u8)))
        } else {
            Err(CpuError::ShiftOutOfRange { amount: bits(ry), pc })
        },
        Opcode::PUSH => if c.sp + 1 < MEMORY_SIZE {
            Ok(
                MachineState {
                    cpu: CpuState { sp: sp_up(c.sp), ..c }.advance(),
                    mem: put_word(m, c.sp as int, bits(rx)),
                    ..s
                },
            )
        } else {
            out_of_bounds
        },
        Opcode::PUSHF => if c.sp + 1 < MEMORY_SIZE {
            Ok(
                MachineState {
                    cpu: CpuState { sp: sp_up(c.sp), ..c }.advance(),
                    mem: put_word(m, c.sp as int, c.flags as u16),
                    ..s
                },
            )
        } else {
            out_of_bounds
        },
        Opcode::POP => if sp2 + 1 < MEMORY_SIZE {
            Ok(
                with_cpu(
                    s,
                    CpuState { sp: sp2, ..c }.with_reg(x as int, signed(word_at(m, sp2 as int))).advance(),
                ),
            )
        } else {
            out_of_bounds
        },
    }
}

/// What executing the instruction at PC does: a fetch past the end of memory or an
/// unknown opcode byte is a fault, else the decoded instruction runs.
pub open spec fn step_spec(s: MachineState, rnd: u16) -> Result<MachineState, CpuError> {
    let pc = s.cpu.pc;
    if pc + INSTRUCTION_SIZE > MEMORY_SIZE {
        Err(CpuError::MemoryOutOfBounds { pc })
    } else {
        match opcode_of(s.mem[pc as int]) {
            None => Err(CpuError::IllegalOpcode { opcode: s.mem[pc as int], pc }),
            Some(op) => exec_spec(
                s,
                op,
                s.mem[pc + 1] % 16,
                s.mem[pc + 1] / 16,
                s.mem[pc + 2] % 16,
                s.mem[pc + 2],
                s.mem[pc + 3],
                rnd,
            ),
        }
    }
}

/// Pushing the flags and popping them into R0 gives R0 the flag byte, with a zero high
/// byte, and leaves SP where it was.
pub proof fn lemma_pushf_pop(s: MachineState, s1: MachineState, rnd: u16)
    requires
        s.mem.len() == MEMORY_SIZE,
        s.cpu.r.len() == 16,
        exec_spec(s, Opcode::PUSHF, 0, 0, 0, 0, 0, rnd) == Ok::<MachineState, CpuError>(s1),
    ensures
        exec_spec(s1, Opcode::POP, 0, 0, 0, 0, 0, rnd) matches Ok(s2) && bits(s2.cpu.r[0])
            == s.cpu.flags as u16 && s2.cpu.r[0] == s.cpu.flags as i16 && s2.cpu.sp == s.cpu.sp,
{
    let f = s.cpu.flags as u16;
    assert(f % 256 == s.cpu.flags && f / 256 == 0);
    assert(word_at(s1.mem, s.cpu.sp as int) == f);
}

/// A word stored to an address and loaded back from it is the stored register's value.
pub proof fn lemma_stm_ldm(s: MachineState, s1: MachineState, x: u8, y: u8, ll: u8, hh: u8, rnd: u16)
    requires
        s.mem.len() == MEMORY_SIZE,
        s.cpu.r.len() == 16,
        x < 16,
        y < 16,
        exec_spec(s, Opcode::STM, x, 0, 0, ll, hh, rnd) == Ok::<MachineState, CpuError>(s1),
    ensures
        exec_spec(s1, Opcode::LDM_HHLL, y, 0, 0, ll, hh, rnd) matches Ok(s2) && s2.cpu.r[y as int]
            == s.cpu.r[x as int],
{
    let v = bits(s.cpu.r[x as int]);
    assert(((v % 256) as u8) + 256 * ((v / 256) as u8) == v);
    assert(word_at(s1.mem, le16(ll, hh) as int) == v);
}

/// `RET` after `CALL`, with whatever ran between them leaving SP and the two stack bytes
/// that the call wrote as they were, goes on at the instruction after the call and puts
/// SP back where it was.
pub proof fn lemma_call_ret(
    s: MachineState,
    s1: MachineState,
    mid: MachineState,
    ll: u8,
    hh: u8,
    rnd: u16,
)
    requires
        s.mem.len() == MEMORY_SIZE,
        exec_spec(s, Opcode::CALL_HHLL, 0, 0, 0, ll, hh, rnd) == Ok::<MachineState, CpuError>(s1),
        mid.mem.len() == MEMORY_SIZE,
        mid.cpu.sp == s1.cpu.sp,
        mid.mem[s.cpu.sp as int] == s1.mem[s.cpu.sp as int],
        mid.mem[s.cpu.sp + 1] == s1.mem[s.cpu.sp + 1],
    ensures
        exec_spec(mid, Opcode::RET, 0, 0, 0, 0, 0, rnd) matches Ok(s2) && s2.cpu.pc == next_pc(
            s.cpu.pc,
        ) && s2.cpu.sp == s.cpu.sp,
{
    let pc = s.cpu.pc;
    assert(((pc % 256) as u8) + 256 * ((pc / 256) as u8) == pc);
    assert(sp_down(s1.cpu.sp) == s.cpu.sp);
    assert(word_at(mid.mem, s.cpu.sp as int) == pc);
}

/// The unsigned pattern of `a`.
fn to_bits(a: i16) -> (r: u16)
    ensures
        r == bits(a),
{
    if a < 0 {
        (a as i32 + 0x10000) as u16
    } else {
        a as u16
    }
}

/// The signed value of the pattern `v`.
fn to_signed(v: u16) -> (r: i16)
    ensures
        r == signed(v),
{
    if v >= 0x8000 {
        (v as i32 - 0x10000) as i16
    } else {
        v as i16
    }
}

/// The immediate `HHLL` as a signed value.
fn imm16(ll: u8, hh: u8) -> (r: i16)
    ensures
        r == imm(ll, hh),
{
    to_signed(ll as u16 + (hh as u16) * 256)
}

/// Program counter, stack pointer, sixteen signed registers and the status register.
pub struct Cpu {
    pub pc: u16,
    pub sp: u16,
    pub r: [i16; 16],
    pub flags: CpuFlags,
}

impl View for Cpu {
    type V = CpuState;

    open spec fn view(&self) -> CpuState {
        CpuState { pc: self.pc, sp: self.sp, r: self.r@, flags: self.flags.0 }
    }
}

/// The state after reset: PC 0, SP at the stack base, registers and flags zero.
pub open spec fn reset_state() -> CpuState {
    CpuState { pc: 0, sp: INITIAL_SP, r: Seq::new(16, |i: int| 0i16), flags: 0 }
}

impl Default for Cpu {
    fn default() -> (r: Cpu)
        ensures
            r@ == reset_state(),
    {
        let r = Cpu { pc: 0, sp: INITIAL_SP, r: [0i16; 16], flags: CpuFlags(0) };
        assert(r@.r =~= Seq::new(16, |i: int| 0i16));
        r
    }
}

impl Cpu {
    pub fn new() -> (r: Cpu)
        ensures
            r@ == reset_state(),
    {
        Cpu::default()
    }

    /// PC 0, SP at the stack base, registers and flags zero.
    pub fn reset(&mut self)
        ensures
            final(self)@ == reset_state(),
    {
        *self = Cpu::default();
    }

    pub fn set_pc(&mut self, pc: u16)
        ensures
            final(self)@ == (CpuState { pc, ..old(self)@ }),
    {
        self.pc = pc;
    }

    pub fn inc_pc(&mut self)
        ensures
            final(self)@ == old(self)@.advance(),
    {
        self.pc = ((self.pc as u32 + INSTRUCTION_SIZE as u32) % 0x10000) as u16;
    }

    pub fn inc_sp(&mut self)
        ensures
            final(self)@ == (CpuState { sp: sp_up(old(self).sp), ..old(self)@ }),
    {
        self.sp = ((self.sp as u32 + STACK_ENTRY_SIZE as u32) % 0x10000) as u16;
    }

    pub fn dec_sp(&mut self)
        ensures
            final(self)@ == (CpuState { sp: sp_down(old(self).sp), ..old(self)@ }),
    {
        self.sp = ((self.sp as u32 + 0x10000 - STACK_ENTRY_SIZE as u32) % 0x10000) as u16;
    }

    /// Writes register `x`.
    fn set_reg(&mut self, x: u8, v: i16)
        requires
            x < 16,
        ensures
            final(self)@ == old(self)@.with_reg(x as int, v),
    {
        self.r[x as usize] = v;
    }

    /// N and Z from `v`.
    fn check_nz(&mut self, v: i16)
        ensures
            final(self)@ == old(self)@.with_flags(nz_flags(old(self).flags.0, v)),
    {
        self.flags.check_n(v);
        self.flags.check_z(v);
    }

    /// Adds and sets N, Z, C and O.
    pub fn add_op(&mut self, a: i16, b: i16) -> (r: i16)
        ensures
            r == add_value(a, b),
            final(self)@ == old(self)@.with_flags(add_flags(old(self).flags.0, a, b)),
            has(final(self).flags.0, FLAG_Z) == ((a + b) % 0x10000 == 0),
            has(final(self).flags.0, FLAG_N) == (bits(r) >= 0x8000),
            has(final(self).flags.0, FLAG_C) == (bits(a) + bits(b) > 0xffff),
            has(final(self).flags.0, FLAG_O) == ((a < 0) == (b < 0) && (r < 0) != (a < 0)),
    {
        let sum: u32 = to_bits(a) as u32 + to_bits(b) as u32;
        let v = to_signed((sum % 0x10000) as u16);
        self.check_nz(v);
        self.flags.put_c(sum > 0xffff);
        self.flags.put_o((a < 0) == (b < 0) && (v < 0) != (a < 0));
        proof {
            lemma_nzco(
                old(self).flags.0,
                v < 0,
                v == 0,
                sum > 0xffff,
                (a < 0) == (b < 0) && (v < 0) != (a < 0),
            );
        }
        v
    }

    /// Subtracts and sets N, Z, C and O.
    pub fn sub_op(&mut self, a: i16, b: i16) -> (r: i16)
        ensures
            r == sub_value(a, b),
            final(self)@ == old(self)@.with_flags(sub_flags(old(self).flags.0, a, b)),
            has(final(self).flags.0, FLAG_Z) == ((a - b) % 0x10000 == 0),
            has(final(self).flags.0, FLAG_N) == (bits(r) >= 0x8000),
            has(final(self).flags.0, FLAG_C) == (bits(a) < bits(b)),
            has(final(self).flags.0, FLAG_O) == ((a < 0) != (b < 0) && (r < 0) == (b < 0)),
    {
        let diff: u32 = to_bits(a) as u32 + 0x10000 - to_bits(b) as u32;
        let v = to_signed((diff % 0x10000) as u16);
        let borrow = to_bits(a) < to_bits(b);
        self.check_nz(v);
        self.flags.put_c(borrow);
        self.flags.put_o((a < 0) != (b < 0) && (v < 0) == (b < 0));
        proof {
            lemma_nzco(
                old(self).flags.0,
                v < 0,
                v == 0,
                borrow,
                (a < 0) != (b < 0) && (v < 0) == (b < 0),
            );
        }
        v
    }

    /// Bitwise AND; sets N and Z.
    pub fn and_op(&mut self, a: i16, b: i16) -> (r: i16)
        ensures
            r == and_value(a, b),
            final(self)@ == old(self)@.with_flags(nz_flags(old(self).flags.0, r)),
            has(final(self).flags.0, FLAG_N) == (r < 0),
            has(final(self).flags.0, FLAG_Z) == (r == 0),
            has(final(self).flags.0, FLAG_C) == has(old(self).flags.0, FLAG_C),
            has(final(self).flags.0, FLAG_O) == has(old(self).flags.0, FLAG_O),
    {
        let v = to_signed(to_bits(a) & to_bits(b));
        self.check_nz(v);
        proof {
            lemma_nz(old(self).flags.0, v < 0, v == 0);
        }
        v
    }

    /// Bitwise OR; sets N and Z.
    pub fn or_op(&mut self, a: i16, b: i16) -> (r: i16)
        ensures
            r == or_value(a, b),
            final(self)@ == old(self)@.with_flags(nz_flags(old(self).flags.0, r)),
            has(final(self).flags.0, FLAG_N) == (r < 0),
            has(final(self).flags.0, FLAG_Z) == (r == 0),
            has(final(self).flags.0, FLAG_C) == has(old(self).flags.0, FLAG_C),
            has(final(self).flags.0, FLAG_O) == has(old(self).flags.0, FLAG_O),
    {
        let v = to_signed(to_bits(a) | to_bits(b));
        self.check_nz(v);
        proof {
            lemma_nz(old(self).flags.0, v < 0, v == 0);
        }
        v
    }

    /// Bitwise XOR; sets N and Z.
    pub fn xor_op(&mut self, a: i16, b: i16) -> (r: i16)
        ensures
            r == xor_value(a, b),
            final(self)@ == old(self)@.with_flags(nz_flags(old(self).flags.0, r)),
            has(final(self).flags.0, FLAG_N) == (r < 0),
            has(final(self).flags.0, FLAG_Z) == (r == 0),
            has(final(self).flags.0, FLAG_C) == has(old(self).flags.0, FLAG_C),
            has(final(self).flags.0, FLAG_O) == has(old(self).flags.0, FLAG_O),
    {
        let v = to_signed(to_bits(a) ^ to_bits(b));
        self.check_nz(v);
        proof {
            lemma_nz(old(self).flags.0, v < 0, v == 0);
        }
        v
    }

    /// Unsigned multiplication keeping the low 16 bits; sets N, Z and C.
    pub fn mul_op(&mut self, a: i16, b: i16) -> (r: i16)
        ensures
            r == mul_value(a, b),
            final(self)@ == old(self)@.with_flags(mul_flags(old(self).flags.0, a, b)),
            has(final(self).flags.0, FLAG_N) == (r < 0),
            has(final(self).flags.0, FLAG_Z) == (r == 0),
            has(final(self).flags.0, FLAG_C) == (bits(a) * bits(b) > 0xffff),
            has(final(self).flags.0, FLAG_O) == has(old(self).flags.0, FLAG_O),
    {
        let ua = to_bits(a) as u32;
        let ub = to_bits(b) as u32;
        assert(ua * ub <= 0xffff * 0xffff) by (nonlinear_arith)
            requires
                ua <= 0xffff,
                ub <= 0xffff,
        ;
        let p: u32 = ua * ub;
        let v = to_signed((p % 0x10000) as u16);
        self.check_nz(v);
        self.flags.put_c(p > 0xffff);
        proof {
            lemma_nzc(old(self).flags.0, v < 0, v == 0, p > 0xffff);
        }
        v
    }

    /// Signed division truncating toward zero; sets N, Z, and C when a remainder is left.
    pub fn div_op(&mut self, a: i16, b: i16) -> (r: i16)
        requires
            b != 0,
        ensures
            r == div_value(a, b),
            final(self)@ == old(self)@.with_flags(div_flags(old(self).flags.0, a, b)),
            has(final(self).flags.0, FLAG_N) == (r < 0),
            has(final(self).flags.0, FLAG_Z) == (r == 0),
            has(final(self).flags.0, FLAG_C) == (magnitude(a) % magnitude(b) != 0),
            has(final(self).flags.0, FLAG_O) == has(old(self).flags.0, FLAG_O),
    {
        let ma: u32 = if a < 0 {
            (-(a as i32)) as u32
        } else {
            a as u32
        };
        let mb: u32 = if b < 0 {
            (-(b as i32)) as u32
        } else {
            b as u32
        };
        let q: u32 = ma / mb;
        let rem: u32 = ma % mb;
        assert(q <= ma) by (nonlinear_arith)
            requires
                q == ma / mb,
                mb >= 1,
        ;
        let sq: i32 = if (a < 0) != (b < 0) {
            -(q as i32)
        } else {
            q as i32
        };
        let v: i16 = if sq == 0x8000 {
            -0x8000
        } else {
            sq as i16
        };
        self.check_nz(v);
        self.flags.put_c(rem != 0);
        proof {
            lemma_nzc(old(self).flags.0, v < 0, v == 0, rem != 0);
        }
        v
    }

    /// Logical shift left by `n`; N and Z from the result, C the last bit shifted out.
    pub fn shl_op(&mut self, x: i16, n: u8) -> (r: i16)
        requires
            n < 16,
        ensures
            r == shl_value(x, n),
            final(self)@ == old(self)@.with_flags(
                shift_flags(old(self).flags.0, r, n, bit(x, 16 - n)),
            ),
    {
        let ux = to_bits(x);
        let v = to_signed(ux << n);
        self.check_nz(v);
        if n > 0 {
            self.flags.put_c((ux >> (16 - n) as u16) & 1 == 1);
        }
        v
    }

    /// Logical shift right by `n`; N and Z from the result, C the last bit shifted out.
    pub fn shr_op(&mut self, x: i16, n: u8) -> (r: i16)
        requires
            n < 16,
        ensures
            r == shr_value(x, n),
            final(self)@ == old(self)@.with_flags(
                shift_flags(old(self).flags.0, r, n, bit(x, n - 1)),
            ),
    {
        let ux = to_bits(x);
        let v = to_signed(ux >> n);
        self.check_nz(v);
        if n > 0 {
            self.flags.put_c((ux >> (n - 1) as u16) & 1 == 1);
        }
        v
    }

    /// Arithmetic shift right by `n`; N and Z from the result, C the last bit shifted out.
    pub fn sar_op(&mut self, x: i16, n: u8) -> (r: i16)
        requires
            n < 16,
        ensures
            r == sar_value(x, n),
            final(self)@ == old(self)@.with_flags(
                shift_flags(old(self).flags.0, r, n, bit(x, n - 1)),
            ),
    {
        let ux = to_bits(x);
        let v = x >> n;
        self.check_nz(v);
        if n > 0 {
            self.flags.put_c((ux >> (n - 1) as u16) & 1 == 1);
        }
        v
    }
}

impl Cpu {
    /// `ADDI Rx, HHLL`.
    pub fn addi(&mut self, x: u8, ll: u8, hh: u8)
        requires
            x < 16,
        ensures
            final(self)@ == add_into(old(self)@, x as int, old(self).r[x as int], imm(ll, hh)),
    {
        let b = imm16(ll, hh);
        let v = self.add_op(self.r[x as usize], b);
        self.set_reg(x, v);
        self.inc_pc();
    }

    /// `ADD Rx, Ry`: the result to X.
    pub fn add_xy(&mut self, x: u8, y: u8)
        requires
            x < 16,
            y < 16,
        ensures
            final(self)@ == add_into(old(self)@, x as int, old(self).r[x as int], old(self).r[y as int]),
    {
        let v = self.add_op(self.r[x as usize], self.r[y as usize]);
        self.set_reg(x, v);
        self.inc_pc();
    }

    /// `ADD Rx, Ry, Rz`: the result to Z.
    pub fn add_xyz(&mut self, x: u8, y: u8, z: u8)
        requires
            x < 16,
            y < 16,
            z < 16,
        ensures
            final(self)@ == add_into(old(self)@, z as int, old(self).r[x as int], old(self).r[y as int]),
    {
        let v = self.add_op(self.r[x as usize], self.r[y as usize]);
        self.set_reg(z, v);
        self.inc_pc();
    }

    /// `SUBI Rx, HHLL`.
    pub fn subi(&mut self, x: u8, ll: u8, hh: u8)
        requires
            x < 16,
        ensures
            final(self)@ == sub_into(old(self)@, x as int, old(self).r[x as int], imm(ll, hh)),
    {
        let b = imm16(ll, hh);
        let v = self.sub_op(self.r[x as usize], b);
        self.set_reg(x, v);
        self.inc_pc();
    }

    /// `SUB Rx, Ry`: the result to X.
    pub fn sub_xy(&mut self, x: u8, y: u8)
        requires
            x < 16,
            y < 16,
        ensures
            final(self)@ == sub_into(old(self)@, x as int, old(self).r[x as int], old(self).r[y as int]),
    {
        let v = self.sub_op(self.r[x as usize], self.r[y as usize]);
        self.set_reg(x, v);
        self.inc_pc();
    }

    /// `SUB Rx, Ry, Rz`: the result to Z.
    pub fn sub_xyz(&mut self, x: u8, y: u8, z: u8)
        requires
            x < 16,
            y < 16,
            z < 16,
        ensures
            final(self)@ == sub_into(old(self)@, z as int, old(self).r[x as int], old(self).r[y as int]),
    {
        let v = self.sub_op(self.r[x as usize], self.r[y as usize]);
        self.set_reg(z, v);
        self.inc_pc();
    }

    /// `CMPI Rx, HHLL`: flags of `Rx - HHLL`.
    pub fn cmpi(&mut self, x: u8, ll: u8, hh: u8)
        requires
            x < 16,
        ensures
            final(self)@ == cmp_into(old(self)@, old(self).r[x as int], imm(ll, hh)),
    {
        let b = imm16(ll, hh);
        self.sub_op(self.r[x as usize], b);
        self.inc_pc();
    }

    /// `CMP Rx, Ry`: flags of `Rx - Ry`.
    pub fn cmp(&mut self, x: u8, y: u8)
        requires
            x < 16,
            y < 16,
        ensures
            final(self)@ == cmp_into(old(self)@, old(self).r[x as int], old(self).r[y as int]),
    {
        self.sub_op(self.r[x as usize], self.r[y as usize]);
        self.inc_pc();
    }

    /// `ANDI Rx, HHLL`.
    pub fn andi(&mut self, x: u8, ll: u8, hh: u8)
        requires
            x < 16,
        ensures
            final(self)@ == and_into(old(self)@, x as int, old(self).r[x as int], imm(ll, hh)),
    {
        let b = imm16(ll, hh);
        let v = self.and_op(self.r[x as usize], b);
        self.set_reg(x, v);
        self.inc_pc();
    }

    /// `AND Rx, Ry`: the result to X.
    pub fn and_xy(&mut self, x: u8, y: u8)
        requires
            x < 16,
            y < 16,
        ensures
            final(self)@ == and_into(old(self)@, x as int, old(self).r[x as int], old(self).r[y as int]),
    {
        let v = self.and_op(self.r[x as usize], self.r[y as usize]);
        self.set_reg(x, v);
        self.inc_pc();
    }

    /// `TSTI Rx, HHLL`: flags of `Rx & HHLL`.
    pub fn tsti(&mut self, x: u8, ll: u8, hh: u8)
        requires
            x < 16,
        ensures
            final(self)@ == tst_into(old(self)@, old(self).r[x as int], imm(ll, hh)),
    {
        let b = imm16(ll, hh);
        self.and_op(self.r[x as usize], b);
        self.inc_pc();
    }

    /// `TST Rx, Ry`: flags of `Rx & Ry`.
    pub fn tst(&mut self, x: u8, y: u8)
        requires
            x < 16,
            y < 16,
        ensures
            final(self)@ == tst_into(old(self)@, old(self).r[x as int], old(self).r[y as int]),
    {
        self.and_op(self.r[x as usize], self.r[y as usize]);
        self.inc_pc();
    }

    /// `OR Rx, Ry`: the result to X.
    pub fn or_xy(&mut self, x: u8, y: u8)
        requires
            x < 16,
            y < 16,
        ensures
            final(self)@ == or_into(old(self)@, x as int, old(self).r[x as int], old(self).r[y as int]),
    {
        let v = self.or_op(self.r[x as usize], self.r[y as usize]);
        self.set_reg(x, v);
        self.inc_pc();
    }

    /// `OR Rx, Ry, Rz`: the result to Z.
    pub fn or_xyz(&mut self, x: u8, y: u8, z: u8)
        requires
            x < 16,
            y < 16,
            z < 16,
        ensures
            final(self)@ == or_into(old(self)@, z as int, old(self).r[x as int], old(self).r[y as int]),
    {
        let v = self.or_op(self.r[x as usize], self.r[y as usize]);
        self.set_reg(z, v);
        self.inc_pc();
    }

    /// `XOR Rx, Ry`: the result to X.
    pub fn xor_xy(&mut self, x: u8, y: u8)
        requires
            x < 16,
            y < 16,
        ensures
            final(self)@ == xor_into(old(self)@, x as int, old(self).r[x as int], old(self).r[y as int]),
    {
        let v = self.xor_op(self.r[x as usize], self.r[y as usize]);
        self.set_reg(x, v);
        self.inc_pc();
    }

    /// `XOR Rx, Ry, Rz`: the result to Z.
    pub fn xor_xyz(&mut self, x: u8, y: u8, z: u8)
        requires
            x < 16,
            y < 16,
            z < 16,
        ensures
            final(self)@ == xor_into(old(self)@, z as int, old(self).r[x as int], old(self).r[y as int]),
    {
        let v = self.xor_op(self.r[x as usize], self.r[y as usize]);
        self.set_reg(z, v);
        self.inc_pc();
    }

    /// `MULI Rx, HHLL`.
    pub fn muli(&mut self, x: u8, ll: u8, hh: u8)
        requires
            x < 16,
        ensures
            final(self)@ == mul_into(old(self)@, x as int, old(self).r[x as int], imm(ll, hh)),
    {
        let b = imm16(ll, hh);
        let v = self.mul_op(self.r[x as usize], b);
        self.set_reg(x, v);
        self.inc_pc();
    }

    /// `MUL Rx, Ry`: the result to X.
    pub fn mul_xy(&mut self, x: u8, y: u8)
        requires
            x < 16,
            y < 16,
        ensures
            final(self)@ == mul_into(old(self)@, x as int, old(self).r[x as int], old(self).r[y as int]),
    {
        let v = self.mul_op(self.r[x as usize], self.r[y as usize]);
        self.set_reg(x, v);
        self.inc_pc();
    }

    /// `MUL Rx, Ry, Rz`: the result to Z.
    pub fn mul_xyz(&mut self, x: u8, y: u8, z: u8)
        requires
            x < 16,
            y < 16,
            z < 16,
        ensures
            final(self)@ == mul_into(old(self)@, z as int, old(self).r[x as int], old(self).r[y as int]),
    {
        let v = self.mul_op(self.r[x as usize], self.r[y as usize]);
        self.set_reg(z, v);
        self.inc_pc();
    }

    /// `DIVI Rx, HHLL`; HHLL is not zero.
    pub fn divi(&mut self, x: u8, ll: u8, hh: u8)
        requires
            x < 16,
            imm(ll, hh) != 0,
        ensures
            final(self)@ == div_into(old(self)@, x as int, old(self).r[x as int], imm(ll, hh)),
    {
        let b = imm16(ll, hh);
        let v = self.div_op(self.r[x as usize], b);
        self.set_reg(x, v);
        self.inc_pc();
    }

    /// `DIV Rx, Ry`; Ry is not zero.
    pub fn div_xy(&mut self, x: u8, y: u8)
        requires
            x < 16,
            y < 16,
            old(self).r[y as int] != 0,
        ensures
            final(self)@ == div_into(old(self)@, x as int, old(self).r[x as int], old(self).r[y as int]),
    {
        let v = self.div_op(self.r[x as usize], self.r[y as usize]);
        self.set_reg(x, v);
        self.inc_pc();
    }

    /// `SHL Rx, N`.
    pub fn shl(&mut self, x: u8, n: u8)
        requires
            x < 16,
            n < 16,
        ensures
            final(self)@ == shl_into(old(self)@, x as int, old(self).r[x as int], n),
    {
        let v = self.shl_op(self.r[x as usize], n);
        self.set_reg(x, v);
        self.inc_pc();
    }

    /// `SHR Rx, N`.
    pub fn shr(&mut self, x: u8, n: u8)
        requires
            x < 16,
            n < 16,
        ensures
            final(self)@ == shr_into(old(self)@, x as int, old(self).r[x as int], n),
    {
        let v = self.shr_op(self.r[x as usize], n);
        self.set_reg(x, v);
        self.inc_pc();
    }

    /// `SAR Rx, N`.
    pub fn sar(&mut self, x: u8, n: u8)
        requires
            x < 16,
            n < 16,
        ensures
            final(self)@ == sar_into(old(self)@, x as int, old(self).r[x as int], n),
    {
        let v = self.sar_op(self.r[x as usize], n);
        self.set_reg(x, v);
        self.inc_pc();
    }

    /// `SHL Rx, Ry`: shifts by the value of Ry, below 16.
    pub fn shl_xy(&mut self, x: u8, y: u8)
        requires
            x < 16,
            y < 16,
            0 <= old(self).r[y as int] < 16,
        ensures
            final(self)@ == shl_into(old(self)@, x as int, old(self).r[x as int], old(self).r[y as int] as u8),
    {
        let n = self.r[y as usize] as u8;
        let v = self.shl_op(self.r[x as usize], n);
        self.set_reg(x, v);
        self.inc_pc();
    }
}

impl Cpu {
    /// The four instruction bytes at PC.
    pub fn read_instruction(&self, mem: &Memory) -> (r: Instruction)
        requires
            self.pc + INSTRUCTION_SIZE <= MEMORY_SIZE,
        ensures
            r.0@ == mem@.subrange(self.pc as int, self.pc + INSTRUCTION_SIZE),
    {
        proof {
            Memory::lemma_len(mem);
        }
        let pc = self.pc as usize;
        let r = Instruction([mem.read(pc), mem.read(pc + 1), mem.read(pc + 2), mem.read(pc + 3)]);
        assert(r.0@ =~= mem@.subrange(self.pc as int, self.pc + INSTRUCTION_SIZE));
        r
    }

    /// Whether jump condition `cond` holds on the flags; `None` for the reserved one.
    pub fn condition_holds(&self, cond: u8) -> (r: Option<bool>)
        ensures
            r == condition(cond, self.flags.0),
    {
        let n = self.flags.n();
        let o = self.flags.o();
        let z = self.flags.z();
        let c = self.flags.c();
        match cond {
            0 => Some(z),
            1 => Some(!z),
            2 => Some(n),
            3 => Some(!n),
            4 => Some(!n && !z),
            5 => Some(o),
            6 => Some(!o),
            7 => Some(!c && !z),
            8 => Some(!c),
            9 => Some(c),
            10 => Some(c || z),
            11 => Some(n == o && !z),
            12 => Some(n == o),
            13 => Some(n != o),
            14 => Some(n != o || z),
            _ => None,
        }
    }

    /// `LDI Rx, HHLL`.
    pub fn ldi(&mut self, reg: usize, ll: u8, hh: u8)
        requires
            reg < 16,
        ensures
            final(self)@ == old(self)@.with_reg(reg as int, imm(ll, hh)).advance(),
            bits(final(self).r[reg as int]) == hh * 256 + ll,
            forall|i: int| 0 <= i < 16 && i != reg ==> final(self).r[i] == old(self).r[i],
    {
        let v = imm16(ll, hh);
        self.r[reg] = v;
        self.inc_pc();
    }

    /// `JMP HHLL`.
    pub fn jmp(&mut self, ll: u8, hh: u8)
        ensures
            final(self)@ == (CpuState { pc: le16(ll, hh), ..old(self)@ }),
    {
        self.pc = ll as u16 + (hh as u16) * 256;
    }

    /// `Jx HHLL`: jumps when condition `x` holds, else goes on.
    pub fn jx(&mut self, x: u8, ll: u8, hh: u8)
        requires
            x < 15,
        ensures
            final(self)@ == if condition(x, old(self).flags.0) == Some(true) {
                CpuState { pc: le16(ll, hh), ..old(self)@ }
            } else {
                old(self)@.advance()
            },
    {
        if self.condition_holds(x) == Some(true) {
            self.jmp(ll, hh);
        } else {
            self.inc_pc();
        }
    }

    /// `JME Rx, Ry, HHLL`: jumps when the two registers are equal, else goes on.
    pub fn jme(&mut self, x: u8, y: u8, ll: u8, hh: u8)
        requires
            x < 16,
            y < 16,
        ensures
            final(self)@ == if old(self).r[x as int] == old(self).r[y as int] {
                CpuState { pc: le16(ll, hh), ..old(self)@ }
            } else {
                old(self)@.advance()
            },
    {
        if self.r[x as usize] == self.r[y as usize] {
            self.jmp(ll, hh);
        } else {
            self.inc_pc();
        }
    }

    /// Pushes PC (the address of the call itself) and jumps to `target`.
    fn call_to(&mut self, target: u16, mem: &mut Memory)
        requires
            old(self).sp + 1 < MEMORY_SIZE,
        ensures
            final(mem)@ == put_word(old(mem)@, old(self).sp as int, old(self).pc),
            final(mem).header() == old(mem).header(),
            final(self)@ == (CpuState { pc: target, sp: sp_up(old(self).sp), ..old(self)@ }),
    {
        mem.write_word(self.sp as usize, self.pc);
        self.inc_sp();
        self.pc = target;
    }

    /// `CALL HHLL`.
    pub fn call_hhll(&mut self, ll: u8, hh: u8, mem: &mut Memory)
        requires
            old(self).sp + 1 < MEMORY_SIZE,
        ensures
            final(mem)@ == put_word(old(mem)@, old(self).sp as int, old(self).pc),
            final(mem).header() == old(mem).header(),
            final(self)@ == (CpuState {
                pc: le16(ll, hh),
                sp: sp_up(old(self).sp),
                ..old(self)@
            }),
    {
        self.call_to(ll as u16 + (hh as u16) * 256, mem);
    }

    /// `CALL Rx`.
    pub fn call_r(&mut self, x: u8, mem: &mut Memory)
        requires
            x < 16,
            old(self).sp + 1 < MEMORY_SIZE,
        ensures
            final(mem)@ == put_word(old(mem)@, old(self).sp as int, old(self).pc),
            final(mem).header() == old(mem).header(),
            final(self)@ == (CpuState {
                pc: bits(old(self).r[x as int]),
                sp: sp_up(old(self).sp),
                ..old(self)@
            }),
    {
        let target = to_bits(self.r[x as usize]);
        self.call_to(target, mem);
    }

    /// `RET`: pops the address of the call and goes on after it.
    pub fn ret(&mut self, mem: &Memory)
        requires
            sp_down(old(self).sp) + 1 < MEMORY_SIZE,
        ensures
            final(self)@ == (CpuState {
                sp: sp_down(old(self).sp),
                pc: next_pc(word_at(mem@, sp_down(old(self).sp) as int)),
                ..old(self)@
            }),
    {
        self.dec_sp();
        self.pc = mem.read_word(self.sp as usize);
        self.inc_pc();
    }

    /// `MOV Rx, Ry`.
    pub fn mov(&mut self, x: u8, y: u8)
        requires
            x < 16,
            y < 16,
        ensures
            final(self)@ == old(self)@.with_reg(x as int, old(self).r[y as int]).advance(),
    {
        let v = self.r[y as usize];
        self.set_reg(x, v);
        self.inc_pc();
    }

    /// `LDM Rx, Ry`: the word at the unsigned value of Ry.
    pub fn ldm_r(&mut self, x: u8, y: u8, mem: &Memory)
        requires
            x < 16,
            y < 16,
            bits(old(self).r[y as int]) + 1 < MEMORY_SIZE,
        ensures
            final(self)@ == old(self)@.with_reg(
                x as int,
                signed(word_at(mem@, bits(old(self).r[y as int]) as int)),
            ).advance(),
    {
        let src = to_bits(self.r[y as usize]) as usize;
        let v = to_signed(mem.read_word(src));
        self.set_reg(x, v);
        self.inc_pc();
    }

    /// `LDM Rx, HHLL`.
    pub fn ldm_hhll(&mut self, x: u8, ll: u8, hh: u8, mem: &Memory)
        requires
            x < 16,
            le16(ll, hh) + 1 < MEMORY_SIZE,
        ensures
            final(self)@ == old(self)@.with_reg(
                x as int,
                signed(word_at(mem@, le16(ll, hh) as int)),
            ).advance(),
    {
        let src = (ll as u16 + (hh as u16) * 256) as usize;
        let v = to_signed(mem.read_word(src));
        self.set_reg(x, v);
        self.inc_pc();
    }

    /// Stores the word `val` at `dst`, low byte first.
    pub fn stm_op(&self, val: u16, dst: usize, mem: &mut Memory)
        requires
            dst + 1 < MEMORY_SIZE,
        ensures
            final(mem)@ == put_word(old(mem)@, dst as int, val),
            final(mem).header() == old(mem).header(),
    {
        mem.write_word(dst, val);
    }

    /// `STM Rx, HHLL`.
    pub fn stm(&mut self, x: u8, ll: u8, hh: u8, mem: &mut Memory)
        requires
            x < 16,
            le16(ll, hh) + 1 < MEMORY_SIZE,
        ensures
            final(mem)@ == put_word(old(mem)@, le16(ll, hh) as int, bits(old(self).r[x as int])),
            final(mem).header() == old(mem).header(),
            final(self)@ == old(self)@.advance(),
    {
        let val = to_bits(self.r[x as usize]);
        self.stm_op(val, (ll as u16 + (hh as u16) * 256) as usize, mem);
        self.inc_pc();
    }

    /// `STM Rx, Ry`: to the unsigned value of Ry.
    pub fn stm_xy(&mut self, x: u8, y: u8, mem: &mut Memory)
        requires
            x < 16,
            y < 16,
            bits(old(self).r[y as int]) + 1 < MEMORY_SIZE,
        ensures
            final(mem)@ == put_word(
                old(mem)@,
                bits(old(self).r[y as int]) as int,
                bits(old(self).r[x as int]),
            ),
            final(mem).header() == old(mem).header(),
            final(self)@ == old(self)@.advance(),
    {
        let val = to_bits(self.r[x as usize]);
        let dst = to_bits(self.r[y as usize]) as usize;
        self.stm_op(val, dst, mem);
        self.inc_pc();
    }

    /// `PUSHF`: the flag byte, then a zero byte.
    pub fn pushf(&mut self, mem: &mut Memory)
        requires
            old(self).sp + 1 < MEMORY_SIZE,
        ensures
            final(mem)@ == put_word(old(mem)@, old(self).sp as int, old(self).flags.0 as u16),
            final(mem).header() == old(mem).header(),
            final(self)@ == (CpuState { sp: sp_up(old(self).sp), ..old(self)@ }).advance(),
    {
        mem.write_word(self.sp as usize, self.flags.0 as u16);
        self.inc_sp();
        self.inc_pc();
    }

    /// `PUSH Rx`.
    pub fn push(&mut self, x: u8, mem: &mut Memory)
        requires
            x < 16,
            old(self).sp + 1 < MEMORY_SIZE,
        ensures
            final(mem)@ == put_word(old(mem)@, old(self).sp as int, bits(old(self).r[x as int])),
            final(mem).header() == old(mem).header(),
            final(self)@ == (CpuState { sp: sp_up(old(self).sp), ..old(self)@ }).advance(),
    {
        let val = to_bits(self.r[x as usize]);
        mem.write_word(self.sp as usize, val);
        self.inc_sp();
        self.inc_pc();
    }

    /// `POP Rx`.
    pub fn pop(&mut self, x: u8, mem: &Memory)
        requires
            x < 16,
            sp_down(old(self).sp) + 1 < MEMORY_SIZE,
        ensures
            final(self)@ == (CpuState { sp: sp_down(old(self).sp), ..old(self)@ }).with_reg(
                x as int,
                signed(word_at(mem@, sp_down(old(self).sp) as int)),
            ).advance(),
    {
        self.dec_sp();
        let v = to_signed(mem.read_word(self.sp as usize));
        self.set_reg(x, v);
        self.inc_pc();
    }

    /// `RND Rx, HHLL`: the random `v` brought into `[0, HHLL]`.
    pub fn rnd(&mut self, x: u8, ll: u8, hh: u8, v: u16)
        requires
            x < 16,
        ensures
            final(self)@ == old(self)@.with_reg(x as int, random_value(v, le16(ll, hh))).advance(),
    {
        let max: u32 = ll as u32 + (hh as u32) * 256;
        let val = to_signed((v as u32 % (max + 1)) as u16);
        self.set_reg(x, val);
        self.inc_pc();
    }

    /// `VBLNK`: goes on once vblank is up, lowering it; waits otherwise.
    pub fn vblnk(&mut self, screen: &mut Screen)
        ensures
            old(screen)@.vblank ==> final(self)@ == old(self)@.advance() && final(screen)@
                == (ScreenState { vblank: false, ..old(screen)@ }),
            !old(screen)@.vblank ==> final(self)@ == old(self)@ && final(screen)@ == old(screen)@,
    {
        if screen.vblank() {
            screen.clear_vblank();
            self.inc_pc();
        }
    }

    /// Blits the current sprite from `src` at the position held in X and Y.
    fn draw(&mut self, x: u8, y: u8, src: u16, mem: &Memory, screen: &mut Screen)
        requires
            x < 16,
            y < 16,
            old(screen).wf(),
            sprite_in_memory(src, old(screen)@.spritew, old(screen)@.spriteh),
        ensures
            final(screen).wf(),
            final(screen)@ == (ScreenState {
                buffer: blit(
                    old(screen)@.buffer,
                    mem@,
                    old(self).r[x as int],
                    old(self).r[y as int],
                    src,
                    old(screen)@.spritew,
                    old(screen)@.spriteh,
                ),
                dirty: true,
                ..old(screen)@
            }),
            final(self)@ == old(self)@.advance(),
    {
        screen.drw(self.r[x as usize], self.r[y as usize], src, mem);
        self.inc_pc();
    }

    /// `DRW Rx, Ry, HHLL`.
    pub fn drw(&mut self, x: u8, y: u8, ll: u8, hh: u8, mem: &Memory, screen: &mut Screen)
        requires
            x < 16,
            y < 16,
            old(screen).wf(),
            sprite_in_memory(le16(ll, hh), old(screen)@.spritew, old(screen)@.spriteh),
        ensures
            final(screen).wf(),
            final(screen)@ == (ScreenState {
                buffer: blit(
                    old(screen)@.buffer,
                    mem@,
                    old(self).r[x as int],
                    old(self).r[y as int],
                    le16(ll, hh),
                    old(screen)@.spritew,
                    old(screen)@.spriteh,
                ),
                dirty: true,
                ..old(screen)@
            }),
            final(self)@ == old(self)@.advance(),
    {
        self.draw(x, y, ll as u16 + (hh as u16) * 256, mem, screen);
    }

    /// `DRW Rx, Ry, Rz`: the sprite at the unsigned value of Rz.
    pub fn drw_xyz(&mut self, x: u8, y: u8, z: u8, mem: &Memory, screen: &mut Screen)
        requires
            x < 16,
            y < 16,
            z < 16,
            old(screen).wf(),
            sprite_in_memory(bits(old(self).r[z as int]), old(screen)@.spritew, old(screen)@.spriteh),
        ensures
            final(screen).wf(),
            final(screen)@ == (ScreenState {
                buffer: blit(
                    old(screen)@.buffer,
                    mem@,
                    old(self).r[x as int],
                    old(self).r[y as int],
                    bits(old(self).r[z as int]),
                    old(screen)@.spritew,
                    old(screen)@.spriteh,
                ),
                dirty: true,
                ..old(screen)@
            }),
            final(self)@ == old(self)@.advance(),
    {
        let src = to_bits(self.r[z as usize]);
        self.draw(x, y, src, mem, screen);
    }
}

impl Cpu {
    /// Runs one decoded instruction.
    #[verifier::rlimit(100)]
    fn execute(
        &mut self,
        op: Opcode,
        x: u8,
        y: u8,
        z: u8,
        ll: u8,
        hh: u8,
        mem: &mut Memory,
        screen: &mut Screen,
        rnd: u16,
    ) -> (r: Result<(), CpuError>)
        requires
            x < 16,
            y < 16,
            z < 16,
            old(screen).wf(),
        ensures
            final(screen).wf(),
            final(mem).header() == old(mem).header(),
            match exec_spec(machine(old(self)@, old(mem)@, old(screen)@), op, x, y, z, ll, hh, rnd) {
                Ok(next) => r is Ok && machine(final(self)@, final(mem)@, final(screen)@) == next,
                Err(e) => r == Err::<(), CpuError>(e) && final(self)@ == old(self)@ && final(mem)@
                    == old(mem)@ && final(screen)@ == old(screen)@,
            },
    {
        proof {
            Memory::lemma_len(mem);
        }
        let pc = self.pc;
        match op {
            Opcode::NOP | Opcode::SND0 | Opcode::SND1 | Opcode::SND2 | Opcode::SND3 | Opcode::SNP
            | Opcode::SNG => self.inc_pc(),
            Opcode::CLS => {
                screen.cls();
                self.inc_pc();
            },
            Opcode::VBLNK => self.vblnk(screen),
            Opcode::BGC => {
                screen.bgc(z);
                self.inc_pc();
            },
            Opcode::SPR => {
                screen.spr(ll, hh);
                self.inc_pc();
            },
            Opcode::DRW_XY_HHLL => {
                if !screen.sprite_fits(ll as u16 + (hh as u16) * 256) {
                    return Err(CpuError::MemoryOutOfBounds { pc: self.pc });
                }
                self.drw(x, y, ll, hh, mem, screen);
            },
            Opcode::DRW_XYZ => {
                if !screen.sprite_fits(to_bits(self.r[z as usize])) {
                    return Err(CpuError::MemoryOutOfBounds { pc: self.pc });
                }
                self.drw_xyz(x, y, z, mem, screen);
            },
            Opcode::RND => self.rnd(x, ll, hh, rnd),
            Opcode::JMP => self.jmp(ll, hh),
            Opcode::JX => {
                if x == 15 {
                    return Err(CpuError::IllegalJumpCondition { cond: x, pc });
                }
                self.jx(x, ll, hh);
            },
            Opcode::JME => self.jme(x, y, ll, hh),
            Opcode::CALL_HHLL => {
                if self.sp as usize + 1 >= MEMORY_SIZE {
                    return Err(CpuError::MemoryOutOfBounds { pc: self.pc });
                }
                self.call_hhll(ll, hh, mem);
            },
            Opcode::CALL => {
                if self.sp as usize + 1 >= MEMORY_SIZE {
                    return Err(CpuError::MemoryOutOfBounds { pc: self.pc });
                }
                self.call_r(x, mem);
            },
            Opcode::RET => {
                if self.sp == 1 {
                    return Err(CpuError::MemoryOutOfBounds { pc: self.pc });
                }
                self.ret(mem);
            },
            Opcode::LDI => self.ldi(x as usize, ll, hh),
            Opcode::LDM_HHLL => {
                if ll as usize + (hh as usize) * 256 + 1 >= MEMORY_SIZE {
                    return Err(CpuError::MemoryOutOfBounds { pc: self.pc });
                }
                self.ldm_hhll(x, ll, hh, mem);
            },
            Opcode::LDM_R => {
                if to_bits(self.r[y as usize]) as usize + 1 >= MEMORY_SIZE {
                    return Err(CpuError::MemoryOutOfBounds { pc: self.pc });
                }
                self.ldm_r(x, y, mem);
            },
            Opcode::MOV => self.mov(x, y),
            Opcode::STM => {
                if ll as usize + (hh as usize) * 256 + 1 >= MEMORY_SIZE {
                    return Err(CpuError::MemoryOutOfBounds { pc: self.pc });
                }
                self.stm(x, ll, hh, mem);
            },
            Opcode::STM_XY => {
                if to_bits(self.r[y as usize]) as usize + 1 >= MEMORY_SIZE {
                    return Err(CpuError::MemoryOutOfBounds { pc: self.pc });
                }
                self.stm_xy(x, y, mem);
            },
            Opcode::ADDI => self.addi(x, ll, hh),
            Opcode::ADD_XY => self.add_xy(x, y),
            Opcode::ADD_XYZ => self.add_xyz(x, y, z),
            Opcode::SUBI => self.subi(x, ll, hh),
            Opcode::SUB_XY => self.sub_xy(x, y),
            Opcode::SUB_XYZ => self.sub_xyz(x, y, z),
            Opcode::CMPI => self.cmpi(x, ll, hh),
            Opcode::CMP => self.cmp(x, y),
            Opcode::ANDI => self.andi(x, ll, hh),
            Opcode::AND_XY => self.and_xy(x, y),
            Opcode::TSTI => self.tsti(x, ll, hh),
            Opcode::TST => self.tst(x, y),
            Opcode::OR_XY => self.or_xy(x, y),
            Opcode::OR_XYZ => self.or_xyz(x, y, z),
            Opcode::XOR_XY => self.xor_xy(x, y),
            Opcode::XOR_XYZ => self.xor_xyz(x, y, z),
            Opcode::MULI => self.muli(x, ll, hh),
            Opcode::MUL_XY => self.mul_xy(x, y),
            Opcode::MUL_XYZ => self.mul_xyz(x, y, z),
            Opcode::DIVI => {
                if ll == 0 && hh == 0 {
                    return Err(CpuError::DivByZero { pc });
                }
                self.divi(x, ll, hh);
            },
            Opcode::DIV_XY => {
                if self.r[y as usize] == 0 {
                    return Err(CpuError::DivByZero { pc });
                }
                self.div_xy(x, y);
            },
            Opcode::SHL => self.shl(x, z),
            Opcode::SHR => self.shr(x, z),
            Opcode::SAR => self.sar(x, z),
            Opcode::SHL_XY => {
                let amount = to_bits(self.r[y as usize]);
                if amount >= 16 {
                    return Err(CpuError::ShiftOutOfRange { amount, pc });
                }
                self.shl_xy(x, y);
            },
            Opcode::PUSH => {
                if self.sp as usize + 1 >= MEMORY_SIZE {
                    return Err(CpuError::MemoryOutOfBounds { pc: self.pc });
                }
                self.push(x, mem);
            },
            Opcode::PUSHF => {
                if self.sp as usize + 1 >= MEMORY_SIZE {
                    return Err(CpuError::MemoryOutOfBounds { pc: self.pc });
                }
                self.pushf(mem);
            },
            Opcode::POP => {
                if self.sp == 1 {
                    return Err(CpuError::MemoryOutOfBounds { pc: self.pc });
                }
                self.pop(x, mem);
            },
        }
        Ok(())
    }

    /// Fetches, decodes and executes the instruction at PC. A fault leaves CPU, memory and
    /// screen as they were and is returned.
    pub fn exec_instruction(&mut self, mem: &mut Memory, screen: &mut Screen, rnd: u16) -> (r:
        Result<(), CpuError>)
        requires
            old(screen).wf(),
        ensures
            final(screen).wf(),
            final(mem).header() == old(mem).header(),
            match step_spec(machine(old(self)@, old(mem)@, old(screen)@), rnd) {
                Ok(next) => r is Ok && machine(final(self)@, final(mem)@, final(screen)@) == next,
                Err(e) => r == Err::<(), CpuError>(e) && final(self)@ == old(self)@ && final(mem)@
                    == old(mem)@ && final(screen)@ == old(screen)@,
            },
    {
        proof {
            Memory::lemma_len(mem);
        }
        let pc = self.pc;
        if pc as usize + INSTRUCTION_SIZE > MEMORY_SIZE {
            return Err(CpuError::MemoryOutOfBounds { pc });
        }
        let ins = self.read_instruction(mem);
        match ins.opcode() {
            None => Err(CpuError::IllegalOpcode { opcode: ins.0[0], pc }),
            Some(op) => {
                let x = ins.x();
                let y = ins.y();
                let z = ins.z();
                let ll = ins.ll();
                let hh = ins.hh();
                self.execute(op, x, y, z, ll, hh, mem, screen, rnd)
            },
        }
    }
}

} // verus!
