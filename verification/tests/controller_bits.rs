//! Bit layout of the packed controller state words: each accessor reads and
//! writes exactly its own bits and leaves the rest of the word alone. Also
//! the D-pad poll result, whose code range includes the not-pressed value.
use libdragon_bindings::Controller::{DPadDirection, DPadResult, GCController, N64Controller};

#[test]
fn dpad_result_decodes_not_pressed() {
    assert_eq!(DPadResult::from_code(-1), Some(DPadResult::NotPressed));
    assert_eq!(
        DPadResult::from_code(0),
        Some(DPadResult::Direction(DPadDirection::R))
    );
    assert_eq!(
        DPadResult::from_code(7),
        Some(DPadResult::Direction(DPadDirection::DR))
    );
    assert_eq!(DPadResult::from_code(8), None);
    assert_eq!(DPadResult::from_code(-2), None);
}

#[test]
fn n64_buttons_read_their_own_bits() {
    let c = N64Controller(0x8000_0000);
    assert!(c.A());
    assert!(!c.B());
    let c = N64Controller(0x4000_0000);
    assert!(c.B());
    let c = N64Controller(0x2000_0000);
    assert!(c.Z());
    let c = N64Controller(0x1000_0000);
    assert!(c.start());
    let c = N64Controller(0x0020_0000);
    assert!(c.L());
    let c = N64Controller(0x0010_0000);
    assert!(c.R());
    let c = N64Controller(0x0008_0000);
    assert!(c.C_up());
    let c = N64Controller(0x0001_0000);
    assert!(c.C_right());
}

#[test]
fn n64_set_then_get() {
    let mut c = N64Controller(0);
    c.set_A(true);
    assert!(c.A());
    assert_eq!(c.0, 0x8000_0000);
    c.set_B(true);
    assert!(c.A() && c.B());
    assert_eq!(c.0, 0xC000_0000);
    c.set_A(false);
    assert!(!c.A() && c.B());
    assert_eq!(c.0, 0x4000_0000);
}

#[test]
fn n64_sticks_and_err() {
    let mut c = N64Controller(0);
    c.set_x(0x7F);
    assert_eq!(c.x(), 0x7F);
    assert_eq!(c.0, 0x7F00);
    c.set_y(0x81);
    assert_eq!(c.y(), 0x81);
    assert_eq!(c.0, 0x7F81);
    c.set_err(2);
    assert_eq!(c.err(), 2);
    assert_eq!(c.0, 0x0000_8000_0000_7F81);
    // a field write masks the value to the field's width
    c.set_x(0x1FF);
    assert_eq!(c.x(), 0xFF);
}

#[test]
fn n64_data_is_the_low_word() {
    let mut c = N64Controller(0);
    c.set_data(0xDEAD_BEEF);
    assert_eq!(c.data(), 0xDEAD_BEEF);
    assert_eq!(c.0, 0xDEAD_BEEF);
    // writing data touches only the low 32 bits
    c.set_err(1);
    c.set_data(0x0000_1234);
    assert_eq!(c.err(), 1);
    assert_eq!(c.0, 0x0000_4000_0000_1234);
    // the button bits are aliases into the data word
    c.set_data(0x8000_0000);
    assert!(c.A());
}

#[test]
fn gc_buttons_and_sticks() {
    let mut c = GCController(0);
    c.set_start(true);
    assert!(c.start());
    assert_eq!(c.0, 0x1000_0000_0000_0000);
    c.set_a(true);
    assert!(c.a());
    assert_eq!(c.0, 0x1100_0000_0000_0000);
    c.set_stick_x(0x80);
    assert_eq!(c.stick_x(), 0x80);
    assert_eq!(c.0, 0x1100_8000_0000_0000);
    c.set_analog_r(0xFF);
    assert_eq!(c.analog_r(), 0xFF);
    assert_eq!(c.0, 0x1100_8000_0000_00FF);
    c.set_err(3);
    assert_eq!(c.err(), 3);
    assert!(c.start() && c.a());
}

#[test]
fn gc_data_is_the_whole_word() {
    let mut c = GCController(0);
    c.set_data(0x0123_4567_89AB_CDEF);
    assert_eq!(c.data(), 0x0123_4567_89AB_CDEF);
    assert_eq!(c.0, 0x0123_4567_89AB_CDEF);
    assert_eq!(c.cstick_x(), 0x89);
    assert_eq!(c.cstick_y(), 0xAB);
    assert_eq!(c.analog_l(), 0xCD);
    assert_eq!(c.analog_r(), 0xEF);
}
