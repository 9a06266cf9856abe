use rusty16::cpu::{Cpu, INSTRUCTION_SIZE, STACK_ENTRY_SIZE};
use rusty16::memory::Memory;

#[test]
fn test_inc_pc() {
    let mut cpu = Cpu::default();
    cpu.set_pc(0);
    cpu.inc_pc();
    assert_eq!(cpu.pc, INSTRUCTION_SIZE as u16);
}

#[test]
fn test_inc_sp() {
    let mut cpu = Cpu::default();
    cpu.inc_sp();
    assert_eq!(cpu.sp, 0xfdf0 + STACK_ENTRY_SIZE as u16);
}

#[test]
fn test_dec_sp() {
    let mut cpu = Cpu::default();
    cpu.sp = STACK_ENTRY_SIZE as u16;
    cpu.dec_sp();
    assert_eq!(cpu.sp, 0);
}

#[test]
fn test_ldi() {
    let mut cpu = Cpu::default();

    let cases = vec![((1, 0x00, 0xff), -256), ((1, 0xff, 0x00), 255)];

    for case in cases {
        cpu.ldi(case.0 .0, case.0 .1, case.0 .2);
        assert_eq!(cpu.r[case.0 .0], case.1);
    }
}

#[test]
fn test_stm() {
    let mut cpu = Cpu::default();
    let mut mem = Memory::default();

    cpu.r[0] = -8531;
    cpu.stm(0, 0xaa, 0xaa, &mut mem);
    assert_eq!(mem.read(0xaaaa), 0xad);
    assert_eq!(mem.read(0xaaab), 0xde);
}

#[test]
fn test_call_hhll() {
    let mut cpu = Cpu::default();
    cpu.pc = 0xffee;

    let mut mem = Memory::default();
    cpu.call_hhll(0xad, 0xde, &mut mem);

    assert_eq!(cpu.pc, 0xdead);
    assert_eq!(cpu.sp, (0xfdf0 + STACK_ENTRY_SIZE) as u16);
    assert_eq!(mem.read(0xfdf0), 0xee);
    assert_eq!(mem.read(0xfdf1), 0xff);
}

#[test]
fn test_call_ret() {
    let mut cpu = Cpu::default();
    cpu.pc = 0xffee;

    let mut mem = Memory::default();
    cpu.call_hhll(0xad, 0xde, &mut mem);
    assert_eq!(cpu.pc, 0xdead);

    cpu.ret(&mem);
    assert_eq!(cpu.pc, 0xffee + INSTRUCTION_SIZE as u16);
}

#[test]
fn test_jmp() {
    let mut cpu = Cpu::default();

    cpu.pc = 0xffee;
    cpu.jmp(0xad, 0xde);

    assert_eq!(cpu.pc, 0xdead);
}

#[test]
fn test_jn() {
    let mut cpu = Cpu::default();

    cpu.pc = 0xffee;
    cpu.jx(0, 0xad, 0xde);
    assert_eq!(cpu.pc, 0xffee + INSTRUCTION_SIZE as u16);

    cpu.flags.set_z();
    cpu.jx(0, 0xad, 0xde);
    assert_eq!(cpu.pc, 0xdead);
}

#[test]
fn test_ldm_r() {
    let mut cpu = Cpu::default();
    let mut mem = Memory::default();

    cpu.r[0] = 5;
    cpu.r[1] = -6;
    mem.write(0xfffa, 0xad);
    mem.write(0xfffb, 0xde);

    cpu.ldm_r(0, 1, &mem);
    assert_eq!(cpu.r[0], -8531);
}

#[test]
fn test_mov() {
    let mut cpu = Cpu::default();
    cpu.r[0] = 0;
    cpu.r[13] = 42;

    cpu.mov(0, 13);
    assert_eq!(cpu.r[0], 42);
}

#[test]
fn test_ldm_hhll() {
    let mut cpu = Cpu::default();
    let mut mem = Memory::default();

    mem.write(0xfffa, 0xad);
    mem.write(0xfffb, 0xde);
    cpu.ldm_hhll(0, 0xfa, 0xff, &mem);
    assert_eq!(cpu.r[0], -8531);
}

#[test]
fn test_tsti() {
    let mut cpu = Cpu::default();

    cpu.r[0] = 42;
    cpu.tsti(0, 0x00, 0x00);
    assert_eq!(cpu.r[0], 42);
    assert!(cpu.flags.z());
}

#[test]
fn test_andi() {
    let mut cpu = Cpu::default();

    cpu.r[0] = 0x0ead;
    cpu.andi(0, 0xff, 0x00);
    assert_eq!(cpu.r[0], 0xad);

    cpu.r[0] = -8531;
    cpu.andi(0, 0x0, 0x0);
    assert_eq!(cpu.r[0], 0);
    assert!(cpu.flags.z());
    assert!(!cpu.flags.n());

    cpu.r[0] = -8531;
    cpu.andi(0, 0x00, 0xde);
    assert!(!cpu.flags.z());
    assert!(cpu.flags.n());
}

#[test]
fn test_subi() {
    let mut cpu = Cpu::default();

    cpu.r[0] = 42;
    cpu.subi(0, 0x01, 0x00);
    assert_eq!(cpu.r[0], 41);
    assert!(!cpu.flags.z());
    assert!(!cpu.flags.n());
    assert!(!cpu.flags.c());
    assert!(!cpu.flags.o());

    cpu.subi(0, 0x29, 0x00);
    assert_eq!(cpu.r[0], 0);
    assert!(cpu.flags.z());
    assert!(!cpu.flags.n());
    assert!(!cpu.flags.c());
    assert!(!cpu.flags.o());

    cpu.subi(0, 0x01, 0x00);
    assert_eq!(cpu.r[0], -1);
    assert!(!cpu.flags.z());
    assert!(cpu.flags.n());
    assert!(cpu.flags.c());
    assert!(!cpu.flags.o());

    cpu.r[0] = -42;
    cpu.subi(0, 0xff, 0x7f);
    assert!(!cpu.flags.z());
    assert!(!cpu.flags.n());
    assert!(!cpu.flags.c());
    assert!(cpu.flags.o());

    cpu.r[0] = 10000;
    cpu.subi(0, 0xff, 0x8f);
    assert!(!cpu.flags.z());
    assert!(cpu.flags.n());
    assert!(cpu.flags.c());
    assert!(cpu.flags.o());
}

#[test]
fn test_addi() {
    let mut cpu = Cpu::default();

    cpu.r[0] = 42;
    cpu.addi(0, 0x01, 0x00);
    assert_eq!(cpu.r[0], 43);
    assert!(!cpu.flags.z());
    assert!(!cpu.flags.n());
    assert!(!cpu.flags.c());
    assert!(!cpu.flags.o());

    cpu.r[0] = -41;
    cpu.addi(0, 0x29, 0x00);
    assert_eq!(cpu.r[0], 0);
    assert!(cpu.flags.z());
    assert!(!cpu.flags.n());
    assert!(cpu.flags.c());
    assert!(!cpu.flags.o());

    cpu.r[0] = -41;
    cpu.addi(0, 0x01, 0x00);
    assert_eq!(cpu.r[0], -40);
    assert!(!cpu.flags.z());
    assert!(cpu.flags.n());
    assert!(!cpu.flags.c());
    assert!(!cpu.flags.o());

    cpu.r[0] = 32767;
    cpu.addi(0, 0xff, 0x00);
    assert!(!cpu.flags.z());
    assert!(cpu.flags.n());
    assert!(!cpu.flags.c());
    assert!(cpu.flags.o());
}

#[test]
fn test_muli() {
    let mut cpu = Cpu::default();

    cpu.r[0] = 2;
    cpu.muli(0, 0x02, 0x00);
    assert_eq!(cpu.r[0], 4);
    assert!(!cpu.flags.z());
    assert!(!cpu.flags.n());
    assert!(!cpu.flags.c());

    cpu.muli(0, 0xfe, 0xff);
    assert_eq!(cpu.r[0], -8);
    assert!(!cpu.flags.z());
    assert!(cpu.flags.n());
    assert!(cpu.flags.c());

    cpu.muli(0, 0x00, 0x00);
    assert_eq!(cpu.r[0], 0);
    assert!(cpu.flags.z());
    assert!(!cpu.flags.n());
    assert!(!cpu.flags.c());
}

#[test]
fn test_mul_xyz() {
    let mut cpu = Cpu::default();

    cpu.r[0] = 2;
    cpu.r[1] = 2;
    cpu.mul_xyz(0, 1, 2);
    assert_eq!(cpu.r[2], 4);
}

#[test]
fn test_div_xy() {
    let mut cpu = Cpu::default();
    cpu.r[0] = 6;
    cpu.r[1] = 2;

    cpu.div_xy(0, 1);
    assert_eq!(cpu.r[0], 3);
    assert!(!cpu.flags.c());
    assert!(!cpu.flags.z());
    assert!(!cpu.flags.n());

    cpu.r[0] = 5;
    cpu.r[1] = 3;
    cpu.div_xy(0, 1);
    assert_eq!(cpu.r[0], 1);
    assert!(cpu.flags.c());
    assert!(!cpu.flags.z());
    assert!(!cpu.flags.n());

    cpu.r[0] = -5;
    cpu.r[1] = 3;
    cpu.div_xy(0, 1);
    assert_eq!(cpu.r[0], -1);
    assert!(cpu.flags.c());
    assert!(!cpu.flags.z());
    assert!(cpu.flags.n());
}

#[test]
fn test_xor_xy() {
    let mut cpu = Cpu::default();
    cpu.r[0] = 0xa;
    cpu.r[1] = 0xf;

    cpu.xor_xy(0, 1);
    assert_eq!(cpu.r[0], 0x5);
    assert!(!cpu.flags.z());
    assert!(!cpu.flags.n());

    cpu.r[0] = 0xa;
    cpu.r[1] = 0xa;

    cpu.xor_xy(0, 1);
    assert_eq!(cpu.r[0], 0);
    assert!(cpu.flags.z());
    assert!(!cpu.flags.n());

    cpu.r[0] = 0xa;
    cpu.r[1] = -10;

    cpu.xor_xy(0, 1);
    assert_eq!(cpu.r[0], -4);
    assert!(!cpu.flags.z());
    assert!(cpu.flags.n());
}

#[test]
fn test_pushf() {
    let mut cpu = Cpu::default();
    let mut mem = Memory::default();

    cpu.flags.set_c();
    cpu.flags.set_o();
    cpu.flags.set_z();
    cpu.flags.set_n();

    let old_sp = cpu.sp;
    cpu.pushf(&mut mem);

    assert_eq!(cpu.sp, old_sp + STACK_ENTRY_SIZE as u16);
    assert_eq!(mem.read(old_sp as usize), 0b11000110);
}

#[test]
fn test_pop() {
    let mut cpu = Cpu::default();
    let mut mem = Memory::default();
    mem.write(cpu.sp as usize, 0xad);
    mem.write(cpu.sp as usize + 1, 0xde);
    cpu.sp += STACK_ENTRY_SIZE as u16;

    cpu.pop(0, &mem);
    assert_eq!(cpu.r[0], -8531);
}

#[test]
fn test_shr() {
    let mut cpu = Cpu::default();
    cpu.r[0] = 4;

    cpu.shr(0, 2);
    assert_eq!(cpu.r[0], 1);
    assert!(!cpu.flags.n());
    assert!(!cpu.flags.z());

    cpu.shr(0, 1);
    assert_eq!(cpu.r[0], 0);
    assert!(!cpu.flags.n());
    assert!(cpu.flags.z());
}

#[test]
fn test_shl() {
    let mut cpu = Cpu::default();
    cpu.r[0] = 1;

    cpu.shl(0, 2);
    assert_eq!(cpu.r[0], 4);
    assert!(!cpu.flags.n());
    assert!(!cpu.flags.z());

    cpu.shl(0, 13);
    assert_eq!(cpu.r[0], -32768);
    assert!(cpu.flags.n());
    assert!(!cpu.flags.z());

    cpu.shl(0, 1);
    assert_eq!(cpu.r[0], 0);
    assert!(!cpu.flags.n());
    assert!(cpu.flags.z());
}

// `0xa | 0xf` is `0xf`: OR is bitwise.
#[test]
fn test_or_xy() {
    let mut cpu = Cpu::default();
    cpu.r[0] = 0xa;
    cpu.r[1] = 0xf;

    cpu.or_xy(0, 1);
    assert_eq!(cpu.r[0], 0xf);
    assert!(!cpu.flags.z());
    assert!(!cpu.flags.n());

    cpu.r[0] = 0xa;
    cpu.r[1] = 0xa;

    cpu.or_xy(0, 1);
    assert_eq!(cpu.r[0], 0xa);
    assert!(!cpu.flags.z());
    assert!(!cpu.flags.n());
}
