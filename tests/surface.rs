use rusty16::surface::Color;

#[test]
fn palette_values() {
    assert_eq!(Color::from_u8(0x3).rgb(), 0xbf3932);
    assert_eq!(Color::from_u8(0xf).rgb(), 0xffffff);
    assert_eq!(Color::from_u8(0x1).argb(), 0xff00_0000);
    assert_eq!(Color::from_u8(0xd).argb(), 0xff68_abcc);
    assert_eq!(Color::Transparent.argb(), 0);
    assert_eq!(Color::from_u8(0x10), Color::Unknown);
    assert_eq!(Color::Unknown.argb(), 0);
}

#[test]
fn palette_tuples_and_indices() {
    assert_eq!(Color::Red.to_tuple(), (0xbf, 0x39, 0x32, 0xff));
    assert_eq!(Color::Transparent.to_tuple(), (0, 0, 0, 0));
    assert_eq!(Color::Unknown.to_tuple(), (0, 0, 0, 0));
    assert_eq!(Color::from_u8(0x20).to_tuple().3, 0);
    for i in 0..16u8 {
        assert_eq!(Color::from_u8(i).index(), i);
    }
    assert_eq!(Color::Unknown.index(), 0);
}
