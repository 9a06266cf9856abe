use rusty16::memory::Memory;
use rusty16::screen::{Screen, SCREEN_HEIGHT, SCREEN_WIDTH};

#[test]
fn test_cls() {
    let mut screen = Screen::new();
    screen.bgc(1);
    screen.cls();
    for y in 0..SCREEN_HEIGHT {
        for x in 0..SCREEN_WIDTH {
            assert_eq!(screen.pixel(x, y), 1);
        }
    }
    screen.bgc(0);

    screen.cls();

    for y in 0..SCREEN_HEIGHT {
        for x in 0..SCREEN_WIDTH {
            assert_eq!(screen.pixel(x, y), 0);
        }
    }
}

#[test]
fn test_drw() {
    let mut screen = Screen::new();
    screen.spr(1, 3);

    let mut mem = Memory::default();
    mem.write(42, 0xba);
    mem.write(43, 0xdc);
    mem.write(44, 0xfe);

    screen.drw(3, 4, 42, &mem);

    assert_eq!(screen.pixel(3, 4), 0x0b);
    assert_eq!(screen.pixel(4, 4), 0x0a);
    assert_eq!(screen.pixel(3, 5), 0x0d);
    assert_eq!(screen.pixel(4, 5), 0x0c);
    assert_eq!(screen.pixel(3, 6), 0x0f);
    assert_eq!(screen.pixel(4, 6), 0x0e);
}

#[test]
fn drw_clips_at_every_edge() {
    let mut mem = Memory::default();
    for i in 0..16 {
        mem.write(i, 0x11);
    }
    let mut screen = Screen::new();
    screen.spr(4, 4);
    screen.drw(-3, -2, 0, &mem);
    screen.drw(316, 237, 0, &mem);
    let mut lit = 0;
    for y in 0..SCREEN_HEIGHT {
        for x in 0..SCREEN_WIDTH {
            if screen.pixel(x, y) != 0 {
                lit += 1;
            }
        }
    }
    // 5 x 2 pixels survive at the top left, 4 x 3 at the bottom right.
    assert_eq!(lit, 10 + 12);
    assert_eq!(screen.pixel(0, 0), 1);
    assert_eq!(screen.pixel(4, 1), 1);
    assert_eq!(screen.pixel(5, 0), 0);
    assert_eq!(screen.pixel(319, 239), 1);
    // nothing wrapped onto the start of the next row
    assert_eq!(screen.pixel(0, 238), 0);
}

#[test]
fn drw_zero_nibble_is_transparent() {
    let mut mem = Memory::default();
    mem.write(0, 0x30);
    mem.write(1, 0x04);
    let mut screen = Screen::new();
    screen.bgc(7);
    screen.cls();
    screen.spr(2, 1);
    screen.drw(10, 10, 0, &mem);
    assert_eq!(screen.pixel(10, 10), 3);
    assert_eq!(screen.pixel(11, 10), 7);
    assert_eq!(screen.pixel(12, 10), 7);
    assert_eq!(screen.pixel(13, 10), 4);
}

#[test]
fn cls_after_blits_fills_with_background() {
    let mut mem = Memory::default();
    mem.write(0, 0xff);
    let mut screen = Screen::new();
    screen.spr(1, 1);
    screen.drw(0, 0, 0, &mem);
    screen.drw(100, 100, 0, &mem);
    screen.bgc(0x2c);
    assert_eq!(screen.bg(), 0xc);
    screen.cls();
    for y in 0..SCREEN_HEIGHT {
        for x in 0..SCREEN_WIDTH {
            assert_eq!(screen.pixel(x, y), 0xc);
        }
    }
}

#[test]
fn update_frame_reports_drawing_and_raises_vblank() {
    let mem = Memory::default();
    let mut screen = Screen::new();
    assert!(!screen.update_frame());
    assert!(screen.vblank());
    screen.clear_vblank();
    screen.drw(0, 0, 0, &mem);
    assert!(screen.update_frame());
    assert!(!screen.update_frame());
}
