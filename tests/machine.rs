use rusty16::cpu::{Cpu, CpuError};
use rusty16::memory::{Memory, MemoryError};
use rusty16::screen::{Screen, SCREEN_HEIGHT, SCREEN_WIDTH};
use rusty16::Rusty16;

fn place(mem: &mut Memory, at: usize, bytes: &[u8]) {
    for (i, b) in bytes.iter().enumerate() {
        mem.write(at + i, *b);
    }
}

fn run(cpu: &mut Cpu, mem: &mut Memory, screen: &mut Screen) {
    cpu.exec_instruction(mem, screen, 0).unwrap();
}

#[test]
fn ldi_negative_immediate() {
    let (mut cpu, mut mem, mut screen) = (Cpu::default(), Memory::default(), Screen::new());
    place(&mut mem, 0, &[0x20, 0x01, 0x00, 0xff]);
    run(&mut cpu, &mut mem, &mut screen);
    assert_eq!(cpu.r[1], -256);
    assert_eq!(cpu.pc, 4);
    for i in 0..16 {
        if i != 1 {
            assert_eq!(cpu.r[i], 0);
        }
    }
}

#[test]
fn call_ret_round_trip() {
    let (mut cpu, mut mem, mut screen) = (Cpu::default(), Memory::default(), Screen::new());
    cpu.pc = 0xffee;
    assert_eq!(cpu.sp, 0xfdf0);
    place(&mut mem, 0xffee, &[0x14, 0x00, 0xad, 0xde]);
    place(&mut mem, 0xdead, &[0x15, 0x00, 0x00, 0x00]);
    run(&mut cpu, &mut mem, &mut screen);
    assert_eq!(cpu.pc, 0xdead);
    assert_eq!(cpu.sp, 0xfdf2);
    assert_eq!(mem.read(0xfdf0), 0xee);
    assert_eq!(mem.read(0xfdf1), 0xff);
    run(&mut cpu, &mut mem, &mut screen);
    assert_eq!(cpu.pc, 0xfff2);
    assert_eq!(cpu.sp, 0xfdf0);
}

#[test]
fn call_then_other_work_then_ret() {
    let (mut cpu, mut mem, mut screen) = (Cpu::default(), Memory::default(), Screen::new());
    cpu.pc = 0x0100;
    place(&mut mem, 0x0100, &[0x14, 0x00, 0x00, 0x02]);
    place(&mut mem, 0x0200, &[0x20, 0x03, 0x07, 0x00]);
    place(&mut mem, 0x0204, &[0x40, 0x03, 0x01, 0x00]);
    place(&mut mem, 0x0208, &[0x15, 0x00, 0x00, 0x00]);
    for _ in 0..4 {
        run(&mut cpu, &mut mem, &mut screen);
    }
    assert_eq!(cpu.pc, 0x0104);
    assert_eq!(cpu.sp, 0xfdf0);
    assert_eq!(cpu.r[3], 8);
}

#[test]
fn conditional_branch() {
    let (mut cpu, mut mem, mut screen) = (Cpu::default(), Memory::default(), Screen::new());
    place(&mut mem, 0, &[0x63, 0x00, 0x00, 0x00, 0x12, 0x00, 0xad, 0xde]);
    cpu.r[0] = 0;
    run(&mut cpu, &mut mem, &mut screen);
    assert!(cpu.flags.z());
    run(&mut cpu, &mut mem, &mut screen);
    assert_eq!(cpu.pc, 0xdead);

    // `1 & 0000` is still zero, so the branch is taken again.
    let mut cpu = Cpu::default();
    cpu.r[0] = 1;
    run(&mut cpu, &mut mem, &mut screen);
    assert!(cpu.flags.z());
    run(&mut cpu, &mut mem, &mut screen);
    assert_eq!(cpu.pc, 0xdead);

    // A test that leaves Z clear falls through: PC advances by 8.
    place(&mut mem, 0, &[0x63, 0x00, 0x01, 0x00]);
    let mut cpu = Cpu::default();
    cpu.r[0] = 1;
    run(&mut cpu, &mut mem, &mut screen);
    assert!(!cpu.flags.z());
    run(&mut cpu, &mut mem, &mut screen);
    assert_eq!(cpu.pc, 8);
}

#[test]
fn arithmetic_overflow() {
    let (mut cpu, mut mem, mut screen) = (Cpu::default(), Memory::default(), Screen::new());
    cpu.r[0] = 32767;
    place(&mut mem, 0, &[0x40, 0x00, 0xff, 0x00]);
    run(&mut cpu, &mut mem, &mut screen);
    assert_eq!(cpu.r[0], -32514);
    assert!(cpu.flags.n());
    assert!(cpu.flags.o());
    assert!(!cpu.flags.c());
}

#[test]
fn add_flags_at_the_extremes() {
    let mut cpu = Cpu::default();
    assert_eq!(cpu.add_op(-32768, -32768), 0);
    assert!(cpu.flags.z() && cpu.flags.c() && cpu.flags.o() && !cpu.flags.n());
    assert_eq!(cpu.add_op(-1, 1), 0);
    assert!(cpu.flags.z() && cpu.flags.c() && !cpu.flags.o());
    assert_eq!(cpu.sub_op(0, -32768), -32768);
    assert!(cpu.flags.n() && cpu.flags.c() && cpu.flags.o());
    assert_eq!(cpu.sub_op(-32768, 1), 32767);
    assert!(!cpu.flags.c() && cpu.flags.o());
}

#[test]
fn sprite_blit() {
    let (mut cpu, mut mem, mut screen) = (Cpu::default(), Memory::default(), Screen::new());
    // SPR with one byte (two pixels) per row and three rows, then DRW R0, R1, 002A.
    place(&mut mem, 0, &[0x04, 0x00, 0x01, 0x03, 0x05, 0x10, 0x2a, 0x00]);
    place(&mut mem, 0x2a, &[0xba, 0xdc, 0xfe]);
    cpu.r[0] = 3;
    cpu.r[1] = 4;
    run(&mut cpu, &mut mem, &mut screen);
    run(&mut cpu, &mut mem, &mut screen);
    let expected = [(3, 4, 0xb), (4, 4, 0xa), (3, 5, 0xd), (4, 5, 0xc), (3, 6, 0xf), (4, 6, 0xe)];
    for y in 0..SCREEN_HEIGHT {
        for x in 0..SCREEN_WIDTH {
            let want = expected
                .iter()
                .find(|(ex, ey, _)| *ex == x && *ey == y)
                .map(|e| e.2)
                .unwrap_or(0);
            assert_eq!(screen.pixel(x, y), want);
        }
    }
}

#[test]
fn cls_after_blits() {
    let (mut cpu, mut mem, mut screen) = (Cpu::default(), Memory::default(), Screen::new());
    // BGC 5; SPR 0202; DRW R0, R0, 0100; DRW R1, R1, 0100; CLS
    place(
        &mut mem,
        0,
        &[
            0x03, 0x00, 0x05, 0x00, 0x04, 0x00, 0x02, 0x02, 0x05, 0x00, 0x00, 0x01, 0x05, 0x11,
            0x00, 0x01, 0x01, 0x00, 0x00, 0x00,
        ],
    );
    place(&mut mem, 0x100, &[0x12, 0x34, 0x56, 0x78]);
    cpu.r[1] = 50;
    for _ in 0..5 {
        run(&mut cpu, &mut mem, &mut screen);
    }
    for y in 0..SCREEN_HEIGHT {
        for x in 0..SCREEN_WIDTH {
            assert_eq!(screen.pixel(x, y), 5);
        }
    }
}

#[test]
fn pushf_then_pop_gives_flag_byte() {
    let (mut cpu, mut mem, mut screen) = (Cpu::default(), Memory::default(), Screen::new());
    cpu.flags.0 = 0b1100_0010;
    cpu.r[0] = -1;
    place(&mut mem, 0, &[0xc4, 0x00, 0x00, 0x00, 0xc1, 0x00, 0x00, 0x00]);
    run(&mut cpu, &mut mem, &mut screen);
    run(&mut cpu, &mut mem, &mut screen);
    assert_eq!(cpu.r[0], 0b1100_0010);
    assert_eq!(cpu.sp, 0xfdf0);
}

#[test]
fn stm_then_ldm_round_trip() {
    let (mut cpu, mut mem, mut screen) = (Cpu::default(), Memory::default(), Screen::new());
    cpu.r[2] = -12345;
    // STM R2, 4000; LDM R7, 4000
    place(&mut mem, 0, &[0x30, 0x02, 0x00, 0x40, 0x22, 0x07, 0x00, 0x40]);
    run(&mut cpu, &mut mem, &mut screen);
    run(&mut cpu, &mut mem, &mut screen);
    assert_eq!(cpu.r[7], -12345);
}

#[test]
fn vblnk_waits_for_the_frame() {
    let (mut cpu, mut mem, mut screen) = (Cpu::default(), Memory::default(), Screen::new());
    place(&mut mem, 0, &[0x02, 0x00, 0x00, 0x00]);
    run(&mut cpu, &mut mem, &mut screen);
    assert_eq!(cpu.pc, 0);
    screen.set_vblank();
    run(&mut cpu, &mut mem, &mut screen);
    assert_eq!(cpu.pc, 4);
    assert!(!screen.vblank());
}

#[test]
fn rnd_stays_within_its_bound() {
    let (mut cpu, mut mem, mut screen) = (Cpu::default(), Memory::default(), Screen::new());
    place(&mut mem, 0, &[0x07, 0x04, 0x09, 0x00]);
    cpu.exec_instruction(&mut mem, &mut screen, 1234).unwrap();
    assert_eq!(cpu.r[4], (1234 % 10) as i16);
}

#[test]
fn faults_leave_the_machine_alone() {
    let (mut cpu, mut mem, mut screen) = (Cpu::default(), Memory::default(), Screen::new());
    place(&mut mem, 0, &[0xff, 0x00, 0x00, 0x00]);
    assert_eq!(
        cpu.exec_instruction(&mut mem, &mut screen, 0),
        Err(CpuError::IllegalOpcode { opcode: 0xff, pc: 0 })
    );
    assert_eq!(cpu.pc, 0);

    place(&mut mem, 0, &[0x12, 0x0f, 0x00, 0x00]);
    assert_eq!(
        cpu.exec_instruction(&mut mem, &mut screen, 0),
        Err(CpuError::IllegalJumpCondition { cond: 0xf, pc: 0 })
    );

    cpu.r[1] = 16;
    place(&mut mem, 0, &[0xb3, 0x10, 0x00, 0x00]);
    assert_eq!(
        cpu.exec_instruction(&mut mem, &mut screen, 0),
        Err(CpuError::ShiftOutOfRange { amount: 16, pc: 0 })
    );
    assert_eq!(cpu.r[0], 0);

    cpu.r[1] = 0;
    place(&mut mem, 0, &[0xa1, 0x10, 0x00, 0x00]);
    assert_eq!(cpu.exec_instruction(&mut mem, &mut screen, 0), Err(CpuError::DivByZero { pc: 0 }));
    place(&mut mem, 0, &[0xa0, 0x00, 0x00, 0x00]);
    assert_eq!(cpu.exec_instruction(&mut mem, &mut screen, 0), Err(CpuError::DivByZero { pc: 0 }));

    place(&mut mem, 0, &[0x22, 0x00, 0xff, 0xff]);
    assert_eq!(
        cpu.exec_instruction(&mut mem, &mut screen, 0),
        Err(CpuError::MemoryOutOfBounds { pc: 0 })
    );

    cpu.pc = 0xfffd;
    assert_eq!(
        cpu.exec_instruction(&mut mem, &mut screen, 0),
        Err(CpuError::MemoryOutOfBounds { pc: 0xfffd })
    );
    assert_eq!(cpu.pc, 0xfffd);
}

fn rom(image: &[u8], pc: u16) -> Vec<u8> {
    let mut v = vec![b'C', b'H', b'1', b'6', 0, 0x11, 0, 0, 0, 0];
    v.push((pc & 0xff) as u8);
    v.push((pc >> 8) as u8);
    v.extend_from_slice(&[0, 0, 0, 0]);
    v.extend_from_slice(image);
    v
}

#[test]
fn load_rom_checks_header_and_size() {
    let mut mem = Memory::default();
    assert_eq!(mem.load_rom(b"CH16"), Err(MemoryError::RomInvalid));
    let mut bad = rom(&[1, 2, 3], 0);
    bad[3] = b'7';
    assert_eq!(mem.load_rom(&bad), Err(MemoryError::RomInvalid));
    assert_eq!(mem.read(0), 0);
    let big = rom(&vec![0u8; 65537], 0);
    assert_eq!(mem.load_rom(&big), Err(MemoryError::RomTooLarge));
    let full = rom(&vec![7u8; 65536], 0);
    assert_eq!(mem.load_rom(&full), Ok(()));
    assert_eq!(mem.read(65535), 7);
}

#[test]
fn load_rom_copies_image_and_reads_initial_pc() {
    let mut mem = Memory::default();
    mem.write(5, 0x99);
    assert_eq!(mem.load_rom(&rom(&[1, 2, 3], 0x1234)), Ok(()));
    assert_eq!(mem.read(0), 1);
    assert_eq!(mem.read(2), 3);
    assert_eq!(mem.read(5), 0x99);
    assert_eq!(mem.initial_pc(), 0x1234);
}

#[test]
fn machine_boots_and_runs_a_frame() {
    let mut machine = Rusty16::new();
    // at 0008: LDI R0, 0005; ADDI R0, 0001; VBLNK; JMP 0008
    let mut image = vec![0u8; 8];
    image.extend_from_slice(&[
        0x20, 0x00, 0x05, 0x00, 0x40, 0x00, 0x01, 0x00, 0x02, 0x00, 0x00, 0x00, 0x10, 0x00,
        0x08, 0x00,
    ]);
    assert_eq!(machine.load(&rom(&image, 0x0008)), Ok(()));
    assert_eq!(machine.cpu().pc, 0x0008);
    assert_eq!(machine.run_frame(100), Ok(()));
    assert_eq!(machine.cpu().r[0], 6);
    assert_eq!(machine.cpu().pc, 0x0010);
    assert!(machine.end_frame());
    assert_eq!(machine.run_frame(3), Ok(()));
    assert_eq!(machine.cpu().pc, 0x000c);
    assert!(!machine.end_frame());
}

#[test]
fn machine_stops_at_a_fault() {
    let mut machine = Rusty16::new();
    assert_eq!(machine.load(&rom(&[0x00, 0, 0, 0, 0xee, 0, 0, 0], 0)), Ok(()));
    assert_eq!(machine.run_frame(10), Err(CpuError::IllegalOpcode { opcode: 0xee, pc: 4 }));
    assert_eq!(machine.cpu().pc, 4);
    assert_eq!(machine.load(b"nope"), Err(MemoryError::RomInvalid));
}
