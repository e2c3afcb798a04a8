use lib_chip8::error::Chip8Error;
use lib_chip8::quirks::Quirks;
use lib_chip8::Chip8;

fn machine_with(rom: &[u8]) -> Chip8 {
    let mut c = Chip8::new();
    c.load_rom(rom).unwrap();
    c
}

#[test]
fn test_load_value_sets_register_and_advances() {
    let mut c = Chip8::new();
    for x in 0u8..16 {
        let pc_before = c.cpu.pc.get();
        c.execute(0x6000 | (x as u16) << 8 | 0x42).unwrap();
        assert_eq!(0x42, c.cpu.v.get(x));
        assert_eq!(pc_before + 2, c.cpu.pc.get());
    }
}

#[test]
fn test_add_value_wraps_and_leaves_flag_alone() {
    let mut c = Chip8::new();
    c.execute(0x60fa).unwrap(); // V0 := 250
    c.execute(0x6f07).unwrap(); // VF := 7, to see that 7xkk leaves it
    c.execute(0x700a).unwrap(); // V0 += 10
    assert_eq!((250 + 10) % 256, c.cpu.v.get(0) as u32);
    assert_eq!(7, c.cpu.v.get(0xf));
}

#[test]
fn test_add_register_reports_carry_in_flag() {
    let mut c = Chip8::new();
    c.execute(0x60c8).unwrap(); // V0 := 200
    c.execute(0x6164).unwrap(); // V1 := 100
    c.execute(0x8014).unwrap(); // V0 += V1
    assert_eq!((200 + 100) % 256, c.cpu.v.get(0) as u32);
    assert_eq!(1, c.cpu.v.get(0xf));

    c.execute(0x6001).unwrap(); // V0 := 1
    c.execute(0x6102).unwrap(); // V1 := 2
    c.execute(0x8014).unwrap(); // V0 += V1
    assert_eq!(3, c.cpu.v.get(0));
    assert_eq!(0, c.cpu.v.get(0xf));
}

#[test]
fn test_subtract_register_reports_borrow_in_flag() {
    let mut c = Chip8::new();
    c.execute(0x6005).unwrap(); // V0 := 5
    c.execute(0x6103).unwrap(); // V1 := 3
    c.execute(0x8015).unwrap(); // V0 -= V1
    assert_eq!(2, c.cpu.v.get(0));
    assert_eq!(1, c.cpu.v.get(0xf));

    c.execute(0x6003).unwrap(); // V0 := 3
    c.execute(0x6105).unwrap(); // V1 := 5
    c.execute(0x8015).unwrap(); // V0 -= V1
    assert_eq!(254, c.cpu.v.get(0));
    assert_eq!(0, c.cpu.v.get(0xf));
}

#[test]
fn test_bitwise_ops_reset_flag() {
    let mut c = Chip8::new();
    c.execute(0x6f09).unwrap(); // VF := 9
    c.execute(0x60f0).unwrap(); // V0 := 0xF0
    c.execute(0x610f).unwrap(); // V1 := 0x0F
    c.execute(0x8011).unwrap(); // V0 |= V1
    assert_eq!(0xff, c.cpu.v.get(0));
    assert_eq!(0, c.cpu.v.get(0xf));
}

#[test]
fn test_shifts_read_source_register() {
    let mut c = Chip8::new();
    c.execute(0x6185).unwrap(); // V1 := 0b1000_0101
    c.execute(0x8016).unwrap(); // V0 := V1 >> 1
    assert_eq!(0b0100_0010, c.cpu.v.get(0));
    assert_eq!(1, c.cpu.v.get(0xf));

    c.execute(0x801e).unwrap(); // V0 := V1 << 1
    assert_eq!(0b0000_1010, c.cpu.v.get(0));
    assert_eq!(1, c.cpu.v.get(0xf));
}

#[test]
fn test_skip_instructions() {
    let mut c = Chip8::new();
    c.execute(0x6007).unwrap(); // V0 := 7
    let pc = c.cpu.pc.get();
    c.execute(0x3007).unwrap(); // skip: V0 == 7
    assert_eq!(pc + 4, c.cpu.pc.get());
    let pc = c.cpu.pc.get();
    c.execute(0x3008).unwrap(); // no skip: V0 != 8
    assert_eq!(pc + 2, c.cpu.pc.get());
    let pc = c.cpu.pc.get();
    c.execute(0x4008).unwrap(); // skip: V0 != 8
    assert_eq!(pc + 4, c.cpu.pc.get());
}

#[test]
fn test_call_and_return() {
    let mut c = Chip8::new();
    let pc = c.cpu.pc.get();
    c.execute(0x2400).unwrap(); // call 0x400
    assert_eq!(0x400, c.cpu.pc.get());
    assert_eq!(1, c.stack.sp);
    c.execute(0x00ee).unwrap(); // return
    assert_eq!(pc + 2, c.cpu.pc.get());
    assert_eq!(0, c.stack.sp);
}

#[test]
fn test_call_depth_limit_is_fatal() {
    let mut c = Chip8::new();
    for _ in 0..16 {
        c.execute(0x2400).unwrap();
    }
    assert_eq!(Err(Chip8Error::StackOverflow), c.execute(0x2400));
}

#[test]
fn test_return_on_empty_stack_is_fatal() {
    let mut c = Chip8::new();
    assert_eq!(Err(Chip8Error::StackUnderflow), c.execute(0x00ee));
}

#[test]
fn test_unknown_opcode_is_fatal() {
    let mut c = Chip8::new();
    assert_eq!(Err(Chip8Error::UnknownOpcode(0x5ab1)), c.execute(0x5ab1));
    assert_eq!(Err(Chip8Error::UnknownOpcode(0xf0ff)), c.execute(0xf0ff));
    assert_eq!(Err(Chip8Error::UnknownOpcode(0x00e1)), c.execute(0x00e1));
}

#[test]
fn test_jump_instructions() {
    let mut c = Chip8::new();
    c.execute(0x1abc).unwrap();
    assert_eq!(0xabc, c.cpu.pc.get());
    c.execute(0x6005).unwrap(); // V0 := 5
    c.execute(0xb300).unwrap(); // jump to 0x300 + V0
    assert_eq!(0x305, c.cpu.pc.get());
}

#[test]
fn test_index_register_instructions() {
    let mut c = Chip8::new();
    c.execute(0xa123).unwrap(); // I := 0x123
    assert_eq!(0x123, c.cpu.i.get());
    c.execute(0x6405).unwrap(); // V4 := 5
    c.execute(0xf41e).unwrap(); // I += V4
    assert_eq!(0x128, c.cpu.i.get());
}

#[test]
fn test_sprite_location_of_digit() {
    let mut c = Chip8::new();
    c.execute(0x600a).unwrap(); // V0 := 0xA
    c.execute(0xf029).unwrap(); // I := sprite address of V0
    assert_eq!(50, c.cpu.i.get());

    c.execute(0x6010).unwrap(); // V0 := 0x10: not a digit
    assert_eq!(Err(Chip8Error::InvalidSpriteDigit(0x10)), c.execute(0xf029));
}

#[test]
fn test_bcd_digits_stored_at_index() {
    let mut c = Chip8::new();
    c.execute(0x60ea).unwrap(); // V0 := 234
    c.execute(0xa300).unwrap(); // I := 0x300
    c.execute(0xf033).unwrap();
    assert_eq!(2, c.memory.get(0x300));
    assert_eq!(3, c.memory.get(0x301));
    assert_eq!(4, c.memory.get(0x302));
}

#[test]
fn test_bcd_near_end_of_memory_is_fatal() {
    let mut c = Chip8::new();
    c.execute(0xaffe).unwrap(); // I := 0xFFE: only two bytes remain
    assert_eq!(Err(Chip8Error::AddressOutOfBounds), c.execute(0xf033));
}

#[test]
fn test_store_and_load_registers() {
    let mut c = Chip8::new();
    c.execute(0x6011).unwrap(); // V0 := 0x11
    c.execute(0x6122).unwrap(); // V1 := 0x22
    c.execute(0x6233).unwrap(); // V2 := 0x33
    c.execute(0xa300).unwrap(); // I := 0x300
    c.execute(0xf255).unwrap(); // store V0..=V2
    assert_eq!(0x11, c.memory.get(0x300));
    assert_eq!(0x22, c.memory.get(0x301));
    assert_eq!(0x33, c.memory.get(0x302));
    assert_eq!(0x303, c.cpu.i.get()); // I moved past the range

    c.execute(0x6000).unwrap();
    c.execute(0x6100).unwrap();
    c.execute(0x6200).unwrap();
    c.execute(0xa300).unwrap();
    c.execute(0xf265).unwrap(); // load V0..=V2 back
    assert_eq!(0x11, c.cpu.v.get(0));
    assert_eq!(0x22, c.cpu.v.get(1));
    assert_eq!(0x33, c.cpu.v.get(2));
    assert_eq!(0x303, c.cpu.i.get());
}

#[test]
fn test_store_registers_past_end_of_memory_is_fatal() {
    let mut c = Chip8::new();
    c.execute(0xafff).unwrap(); // I := 0xFFF
    assert_eq!(Err(Chip8Error::AddressOutOfBounds), c.execute(0xf155));
}

#[test]
fn test_random_masks_register() {
    let mut c = Chip8::new();
    c.execute(0xc00f).unwrap(); // V0 := random & 0x0F
    assert_eq!(0, c.cpu.v.get(0) & 0xf0);
    c.execute(0xc100).unwrap(); // V1 := random & 0
    assert_eq!(0, c.cpu.v.get(1));
}

#[test]
fn test_draw_collision_round_trip() {
    let mut c = Chip8::new();
    c.execute(0x600a).unwrap(); // V0 := 0xA, to point I at a sprite
    c.execute(0xf029).unwrap(); // I := sprite address of 0xA
    c.execute(0x6000).unwrap(); // V0 := 0
    c.execute(0xd015).unwrap(); // draw the 5-row digit sprite at (0, 0)
    assert_eq!(0, c.cpu.v.get(0xf)); // blank display: no collision
    assert!(c.display.dump().iter().any(|p| *p));
    c.execute(0xd015).unwrap(); // same sprite, same place
    assert_eq!(1, c.cpu.v.get(0xf)); // everything toggles back off
    assert!(c.display.dump().iter().all(|p| !p));
}

#[test]
fn test_draw_past_end_of_memory_is_fatal() {
    let mut c = Chip8::new();
    c.execute(0xafff).unwrap(); // I := 0xFFF
    assert_eq!(Err(Chip8Error::AddressOutOfBounds), c.execute(0xd002));
}

#[test]
fn test_key_skip_instructions() {
    let mut c = Chip8::new();
    c.execute(0x6007).unwrap(); // V0 := 7
    let pc = c.cpu.pc.get();
    c.execute(0xe09e).unwrap(); // key 7 not held: no skip
    assert_eq!(pc + 2, c.cpu.pc.get());
    c.keyboard.set_key(7, true);
    let pc = c.cpu.pc.get();
    c.execute(0xe09e).unwrap(); // key 7 held: skip
    assert_eq!(pc + 4, c.cpu.pc.get());
    let pc = c.cpu.pc.get();
    c.execute(0xe0a1).unwrap(); // key 7 held: no skip
    assert_eq!(pc + 2, c.cpu.pc.get());
}

#[test]
fn test_wait_for_key_polls_without_advancing() {
    let mut c = machine_with(&[0xf2, 0x0a]);
    c.tick().unwrap();
    assert_eq!(0x200, c.cpu.pc.get()); // no key: same instruction again
    c.tick().unwrap();
    assert_eq!(0x200, c.cpu.pc.get());
    c.keyboard.set_key(0x9, true);
    c.tick().unwrap();
    assert_eq!(0x202, c.cpu.pc.get());
    assert_eq!(0x9, c.cpu.v.get(2));
}

#[test]
fn test_timer_instructions() {
    let mut c = Chip8::new();
    c.execute(0x602a).unwrap(); // V0 := 42
    c.execute(0xf015).unwrap(); // delay := V0
    c.execute(0xf018).unwrap(); // sound := V0
    c.execute(0x6100).unwrap(); // V1 := 0
    c.execute(0xf107).unwrap(); // V1 := delay
    assert_eq!(42, c.cpu.v.get(1));
    assert_eq!(42, c.timers.get(lib_chip8::timers::Timer::Sound));
}

#[test]
fn test_rom_capacity_boundary_on_machine() {
    let mut c = Chip8::new();
    let full = vec![0xee; 3584];
    assert!(c.load_rom(&full).is_ok());
    let oversize = vec![0xee; 3585];
    assert_eq!(Err(Chip8Error::RomTooLarge), c.load_rom(&oversize));
    assert_eq!(0xee, c.memory.get(0xfff));
    assert_eq!(0x200, c.cpu.pc.get());
}

#[test]
fn test_clear_then_load_then_add_scenario() {
    // `00 E0` clear, `60 05` V0 := 5, `70 03` V0 += 3
    let mut c = machine_with(&[0x00, 0xe0, 0x60, 0x05, 0x70, 0x03]);
    c.tick().unwrap();
    c.tick().unwrap();
    c.tick().unwrap();
    assert_eq!(0x206, c.cpu.pc.get());
    assert_eq!(8, c.cpu.v.get(0));
    assert!(c.display.dump().iter().all(|p| !p));
}

#[test]
fn test_tick_fetches_big_endian() {
    let mut c = machine_with(&[0x6a, 0xbc]);
    c.tick().unwrap();
    assert_eq!(0xbc, c.cpu.v.get(0xa));
    assert_eq!(0x202, c.cpu.pc.get());
}

#[test]
fn test_fetch_past_end_of_memory_is_fatal() {
    let mut c = Chip8::new();
    c.execute(0x1fff).unwrap(); // jump to 0xFFF: second byte out of range
    assert_eq!(Err(Chip8Error::AddressOutOfBounds), c.tick());
    assert_eq!(0xfff, c.cpu.pc.get());
}

#[test]
fn test_quirk_toggles_select_the_historical_variant() {
    // Default: the original interpreter's behavior
    let c = Chip8::new();
    assert_eq!(Quirks::original_interpreter(), c.quirks);

    // Bitwise flag reset off: VF keeps its value
    let mut c = Chip8::new();
    c.quirks = Quirks::modern_interpreter();
    c.execute(0x6f09).unwrap(); // VF := 9
    c.execute(0x60f0).unwrap(); // V0 := 0xF0
    c.execute(0x610f).unwrap(); // V1 := 0x0F
    c.execute(0x8011).unwrap(); // V0 |= V1
    assert_eq!(0xff, c.cpu.v.get(0));
    assert_eq!(9, c.cpu.v.get(0xf));

    // Shift source x: 8xy6 reads Vx, not Vy
    c.execute(0x6004).unwrap(); // V0 := 4
    c.execute(0x61ff).unwrap(); // V1 := 0xFF
    c.execute(0x8016).unwrap(); // V0 >>= 1
    assert_eq!(2, c.cpu.v.get(0));
    assert_eq!(0, c.cpu.v.get(0xf));

    // Index increment off: Fx55 leaves I in place
    c.execute(0xa300).unwrap(); // I := 0x300
    c.execute(0xf055).unwrap(); // store V0
    assert_eq!(0x300, c.cpu.i.get());
    assert_eq!(2, c.memory.get(0x300));
}

#[test]
fn test_random_with_fixed_byte_is_reproducible() {
    let mut c = Chip8::new();
    c.op_random_with(3, 0x0f, 0xab);
    assert_eq!(0x0b, c.cpu.v.get(3));
    assert_eq!(0x202, c.cpu.pc.get());
}
