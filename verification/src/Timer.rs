//! Timer interface: the timer flag constants and the conversions between
//! microseconds and count-register ticks, each with its exact truncating
//! integer arithmetic.
use vstd::prelude::*;

verus! {

/// Timer fires only once.
pub const TF_ONE_SHOT: u64 = 0;
/// Timer fires at a regular interval.
pub const TF_CONTINUOUS: u64 = 1;

/// Division that rounds toward zero, as machine signed division does;
/// meaningful for positive `b`.
pub open spec fn spec_div_trunc(a: int, b: int) -> int
    recommends
        b > 0,
{
    if a >= 0 {
        a / b
    } else {
        -((-a) / b)
    }
}

/// Timer ticks for a microsecond count, in 32 bits. The wrapped code
/// divides its tick rate by one thousand before multiplying, so the factor
/// is the truncated quotient 46.
pub fn TIMER_TICKS(us: i64) -> (r: i32)
    requires
        -46_684_427 <= us <= 46_684_427,
    ensures
        r == us * 46,
{
    (us * 46) as i32
}

/// Microseconds for a timer tick count, in 32 bits: `tk` times 1000,
/// divided by 46875, rounding toward zero.
pub fn TIMER_MICROS(tk: i64) -> (r: i32)
    requires
        -100_663_295_999 <= tk <= 100_663_295_999,
    ensures
        r == spec_div_trunc(tk * 1000, 46875),
{
    if tk >= 0 {
        let t: u64 = (tk as u64) * 1000;
        proof {
            vstd::arithmetic::div_mod::lemma_div_is_ordered(
                t as int,
                100_663_295_999_000,
                46875,
            );
        }
        (t / 46875) as i32
    } else {
        let t: u64 = ((-tk) as u64) * 1000;
        proof {
            vstd::arithmetic::div_mod::lemma_div_is_ordered(
                t as int,
                100_663_295_999_000,
                46875,
            );
        }
        -((t / 46875) as i32)
    }
}

/// Timer ticks for a microsecond count, in 64 bits: `us` times 46875,
/// divided by 1000, rounding toward zero.
pub fn TIMER_TICKS_LL(us: i64) -> (r: i64)
    requires
        -196_765_270_119_568 <= us <= 196_765_270_119_568,
    ensures
        r == spec_div_trunc(us * 46875, 1000),
{
    if us >= 0 {
        let t: u64 = (us as u64) * 46875;
        (t / 1000) as i64
    } else {
        let t: u64 = ((-us) as u64) * 46875;
        -((t / 1000) as i64)
    }
}

/// Microseconds for a timer tick count, in 64 bits: `tk` times 1000,
/// divided by 46875, rounding toward zero.
pub fn TIMER_MICROS_LL(tk: i64) -> (r: i64)
    requires
        -9_223_372_036_854_775 <= tk <= 9_223_372_036_854_775,
    ensures
        r == spec_div_trunc(tk * 1000, 46875),
{
    if tk >= 0 {
        let t: u64 = (tk as u64) * 1000;
        (t / 46875) as i64
    } else {
        let t: u64 = ((-tk) as u64) * 1000;
        -((t / 46875) as i64)
    }
}

} // verus!
