//! Tick arithmetic, timer conversions, address-segment conversion, and the
//! COP0 and DragonFS field extractors, each against exact expected values.
use libdragon_bindings::COP0::{GET_CAUSE_CE, GET_CAUSE_EXC_CODE};
use libdragon_bindings::DragonFS::FILETYPE;
use libdragon_bindings::N64System::{
    get_cached_address, get_ticks_before, get_ticks_distance, get_ticks_from_ms,
    get_uncached_address, TICKS_PER_SECOND,
};
use libdragon_bindings::Timer::{TIMER_MICROS, TIMER_MICROS_LL, TIMER_TICKS, TIMER_TICKS_LL};

#[test]
fn ticks_distance_plain() {
    assert_eq!(get_ticks_distance(0, 5), 5);
    assert_eq!(get_ticks_distance(5, 0), -5);
    assert_eq!(get_ticks_distance(7, 7), 0);
}

#[test]
fn ticks_distance_wraps() {
    // five ticks before the wrap to ten ticks after it is a distance of 15
    assert_eq!(get_ticks_distance(0xFFFF_FFFB, 10), 15);
    assert_eq!(get_ticks_distance(10, 0xFFFF_FFFB), -15);
    // exactly half the counter range away reads as the most negative value
    assert_eq!(get_ticks_distance(0, 0x8000_0000), i32::MIN);
    assert_eq!(get_ticks_distance(0x8000_0000, 0), i32::MIN);
}

#[test]
fn ticks_before_handles_wrap() {
    assert!(get_ticks_before(0, 1));
    assert!(!get_ticks_before(1, 0));
    assert!(!get_ticks_before(3, 3));
    // a time just before the wrap is before a time just after it
    assert!(get_ticks_before(0xFFFF_FFF0, 5));
    assert!(!get_ticks_before(5, 0xFFFF_FFF0));
}

#[test]
fn ticks_from_ms_exact() {
    assert_eq!(TICKS_PER_SECOND, 46_875_000);
    assert_eq!(get_ticks_from_ms(0), 0);
    assert_eq!(get_ticks_from_ms(1), 46_875);
    assert_eq!(get_ticks_from_ms(1000), 46_875_000);
    // the largest millisecond count whose tick count still fits in 32 bits
    assert_eq!(get_ticks_from_ms(91_625), 4_294_921_875);
}

#[test]
fn timer_ticks_32_bit() {
    // the 32-bit conversion multiplies by the truncated factor 46
    assert_eq!(TIMER_TICKS(0), 0);
    assert_eq!(TIMER_TICKS(1000), 46_000);
    assert_eq!(TIMER_TICKS(-1000), -46_000);
}

#[test]
fn timer_micros_32_bit() {
    assert_eq!(TIMER_MICROS(0), 0);
    assert_eq!(TIMER_MICROS(46_875), 1000);
    assert_eq!(TIMER_MICROS(-46_875), -1000);
    // rounds toward zero in both directions
    assert_eq!(TIMER_MICROS(1000), 21);
    assert_eq!(TIMER_MICROS(-1000), -21);
    assert_eq!(TIMER_MICROS(46), 0);
    // the largest tick count whose microsecond count still fits in 32 bits
    assert_eq!(TIMER_MICROS(100_663_295_999), i32::MAX);
}

#[test]
fn timer_ticks_64_bit() {
    assert_eq!(TIMER_TICKS_LL(1000), 46_875);
    assert_eq!(TIMER_TICKS_LL(-1000), -46_875);
    // rounds toward zero in both directions
    assert_eq!(TIMER_TICKS_LL(1), 46);
    assert_eq!(TIMER_TICKS_LL(-1), -46);
    assert_eq!(TIMER_TICKS_LL(1_000_000), 46_875_000);
}

#[test]
fn timer_micros_64_bit() {
    assert_eq!(TIMER_MICROS_LL(46_875), 1000);
    assert_eq!(TIMER_MICROS_LL(-46_875), -1000);
    // rounds toward zero in both directions
    assert_eq!(TIMER_MICROS_LL(46), 0);
    assert_eq!(TIMER_MICROS_LL(-46), 0);
    assert_eq!(TIMER_MICROS_LL(46_875_000), 1_000_000);
}

#[test]
fn address_segments() {
    assert_eq!(get_uncached_address(0x0010_0000), 0x2010_0000);
    assert_eq!(get_cached_address(0x2010_0000), 0x0010_0000);
    // both conversions are idempotent
    assert_eq!(get_uncached_address(0x2010_0000), 0x2010_0000);
    assert_eq!(get_cached_address(0x0010_0000), 0x0010_0000);
}

#[test]
fn cop0_cause_ce_field() {
    assert_eq!(GET_CAUSE_CE(0x0000_0000), 0);
    assert_eq!(GET_CAUSE_CE(0x1000_0000), 1);
    assert_eq!(GET_CAUSE_CE(0x3000_0000), 3);
    // every other bit of the cause register is ignored
    assert_eq!(GET_CAUSE_CE(0xFFFF_FFFF), 3);
    assert_eq!(GET_CAUSE_CE(0xCFFF_FFFF), 0);
}

#[test]
fn cop0_cause_exc_code_field() {
    assert_eq!(GET_CAUSE_EXC_CODE(0), 0);
    // trap is code 13: 13 << 2 = 0x34
    assert_eq!(GET_CAUSE_EXC_CODE(0x34), 13);
    // every bit outside 6..2 is ignored
    assert_eq!(GET_CAUSE_EXC_CODE(0xFFFF_FF83), 0);
    assert_eq!(GET_CAUSE_EXC_CODE(0xFFFF_FFFF), 31);
}

#[test]
fn dfs_filetype_field() {
    assert_eq!(FILETYPE(0x0), 0);
    assert_eq!(FILETYPE(0x1), 1);
    assert_eq!(FILETYPE(0x2), 2);
    // only the two low bits of the flag word are the type
    assert_eq!(FILETYPE(0xFFFF_FFFF_FFFF_FFFE), 2);
    assert_eq!(FILETYPE(0x105), 1);
}
