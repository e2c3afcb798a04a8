use lib_chip8::display::Display;
use lib_chip8::error::Chip8Error;
use lib_chip8::keyboard::Keyboard;
use lib_chip8::memory::Memory;
use lib_chip8::parser;
use lib_chip8::stack::Stack;
use lib_chip8::timers::{Timer, Timers};

#[test]
fn test_parser_nnn() {
    assert_eq!(0x234, parser::nnn(0x1234));
}

#[test]
fn test_parser_n() {
    assert_eq!(0x4, parser::n(0x1234));
}

#[test]
fn test_parser_x() {
    assert_eq!(0x2, parser::x(0x1234));
}

#[test]
fn test_parser_y() {
    assert_eq!(0x3, parser::y(0x1234));
}

#[test]
fn test_parser_kk() {
    assert_eq!(0x34, parser::kk(0x1234));
}

#[test]
fn test_stack_push() {
    let mut s = Stack::new();
    s.push(5).unwrap();
    assert_eq!(1, s.sp);
    assert_eq!(5, s.data[0]);
}

#[test]
fn test_stack_pop() {
    let mut s = Stack::new();
    s.push(1).unwrap();
    s.push(2).unwrap();
    let value = s.pop().unwrap();
    assert_eq!(1, s.sp);
    assert_eq!(2, value);
}

#[test]
fn test_stack_depth_limit() {
    let mut s = Stack::new();
    for addr in 0..16 {
        assert!(s.push(0x200 + addr).is_ok());
    }
    assert_eq!(16, s.sp);
    assert_eq!(Err(Chip8Error::StackOverflow), s.push(0x999));
    assert_eq!(16, s.sp);
}

#[test]
fn test_stack_pop_empty_reports_underflow() {
    let mut s = Stack::new();
    assert_eq!(Err(Chip8Error::StackUnderflow), s.pop());
    s.push(0x300).unwrap();
    assert_eq!(Ok(0x300), s.pop());
    assert_eq!(Err(Chip8Error::StackUnderflow), s.pop());
}

#[test]
fn test_timer_setting() {
    let mut t = Timers::new();
    t.set(Timer::Sound, 10);
    t.set(Timer::Delay, 20);
    assert_eq!(t.get(Timer::Sound), 10);
    assert_eq!(t.get(Timer::Delay), 20);
}

#[test]
fn test_timer_ticking() {
    let mut t = Timers::new();

    t.set(Timer::Sound, 10);
    t.set(Timer::Delay, 20);

    t.tick();
    assert_eq!(t.get(Timer::Sound), 9);
    assert_eq!(t.get(Timer::Delay), 19);
}

#[test]
fn test_timer_undeflowing() {
    let mut t = Timers::new();
    t.tick();
    assert_eq!(t.get(Timer::Sound), 0);
    assert_eq!(t.get(Timer::Delay), 0);
}

#[test]
fn test_timer_reaches_zero_after_exactly_its_value() {
    let mut t = Timers::new();
    t.set(Timer::Delay, 5);
    for remaining in (0..5).rev() {
        t.tick();
        assert_eq!(t.get(Timer::Delay), remaining);
    }
    assert_eq!(t.get(Timer::Delay), 0);
    t.tick();
    assert_eq!(t.get(Timer::Delay), 0);
}

#[test]
fn test_keyboard_latch() {
    let mut k = Keyboard::new();
    assert!(!k.is_pressed(0x4));
    k.set_key(0x4, true);
    assert!(k.is_pressed(0x4));
    k.set_key(0x4, false);
    assert!(!k.is_pressed(0x4));
}

#[test]
fn test_keyboard_ignores_out_of_range_codes() {
    let mut k = Keyboard::new();
    k.set_key(0x42, true);
    assert!(!k.is_pressed(0x42));
    assert_eq!(None, k.get_pressed_key());
}

#[test]
fn test_keyboard_reports_lowest_pressed_key() {
    let mut k = Keyboard::new();
    assert_eq!(None, k.get_pressed_key());
    k.set_key(0xb, true);
    k.set_key(0x3, true);
    assert_eq!(Some(0x3), k.get_pressed_key());
}

#[test]
fn test_memory_roundtrip() {
    let mut m = Memory::new();
    m.set(0x300, 0xab);
    assert_eq!(0xab, m.get(0x300));
    assert_eq!(&[0, 0xab, 0], m.get_slice(0x2ff, 3));
}

#[test]
fn test_memory_holds_fontset() {
    let m = Memory::new();
    assert_eq!(0, m.get_sprite_address(0));
    assert_eq!(50, m.get_sprite_address(0xa));
    assert_eq!(&[0x20, 0x60, 0x20, 0x20, 0x70], m.get_sprite(1));
    assert_eq!(0, m.get(0x50));
}

#[test]
fn test_memory_load_rom_fills_from_program_start() {
    let mut m = Memory::new();
    let rom = [0x12, 0x34, 0x56];
    assert!(m.load_rom(&rom).is_ok());
    assert_eq!(0x12, m.get(0x200));
    assert_eq!(0x34, m.get(0x201));
    assert_eq!(0x56, m.get(0x202));
    assert_eq!(0, m.get(0x203));
}

#[test]
fn test_memory_load_rom_capacity_boundary() {
    let mut m = Memory::new();
    let full = vec![0xcd; 3584];
    assert!(m.load_rom(&full).is_ok());
    assert_eq!(0xcd, m.get(0xfff));

    let oversize = vec![0x77; 3585];
    assert_eq!(Err(Chip8Error::RomTooLarge), m.load_rom(&oversize));
    // the refused image must not have touched a single byte
    assert_eq!(0xcd, m.get(0x200));
    assert_eq!(0xcd, m.get(0xfff));
}

#[test]
fn test_display_draw_twice_toggles_back_off() {
    let mut d = Display::new();
    let sprite = [0xff, 0x81];
    assert!(!d.display_sprite(10, 5, &sprite));
    assert!(d.display_sprite(10, 5, &sprite));
    assert!(d.dump().iter().all(|p| !p));
}

#[test]
fn test_display_wraps_each_axis_independently() {
    let mut d = Display::new();
    assert!(!d.display_sprite(60, 31, &[0xff]));
    let dump = d.dump();
    let row = 31 * 64;
    for x in 60..64 {
        assert!(dump[row + x]);
    }
    for x in 0..4 {
        assert!(dump[row + x]);
    }
    assert!(!dump[row + 4]);
    assert!(!dump[0]);
}

#[test]
fn test_display_clear() {
    let mut d = Display::new();
    d.display_sprite(0, 0, &[0xff]);
    assert!(d.dump().iter().any(|p| *p));
    d.clear();
    assert_eq!(2048, d.dump().len());
    assert!(d.dump().iter().all(|p| !p));
}

#[test]
fn test_display_collision_only_where_pixels_overlap() {
    let mut d = Display::new();
    assert!(!d.display_sprite(0, 0, &[0b1000_0000]));
    // disjoint columns: no collision
    assert!(!d.display_sprite(1, 0, &[0b1000_0000]));
    // overlaps the first pixel again: collision
    assert!(d.display_sprite(0, 0, &[0b1000_0000]));
}

#[test]
fn test_display_resolution_query() {
    let d = Display::new();
    assert_eq!((64, 32), d.resolution());
}
