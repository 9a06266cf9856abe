use rusty16::flags::CpuFlags;

#[test]
fn test_check_n() {
    let mut flags = CpuFlags::default();

    flags.check_n(-2);
    assert!(flags.n());

    flags.check_n(0);
    assert!(!flags.n());
}

#[test]
fn test_check_z() {
    let mut flags = CpuFlags::default();

    flags.check_z(2);
    assert!(!flags.z());

    flags.check_z(0);
    assert!(flags.z());
}

#[test]
fn flag_bits_are_independent() {
    let mut flags = CpuFlags::default();
    flags.set_n();
    flags.set_c();
    assert_eq!(flags.0, 0b1000_0010);
    flags.clear_n();
    assert_eq!(flags.0, 0b0000_0010);
    flags.set_o();
    flags.set_z();
    assert_eq!(flags.0, 0b0100_0110);
    assert!(flags.o() && flags.z() && flags.c() && !flags.n());
}
