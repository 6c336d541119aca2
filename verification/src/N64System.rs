//! System interface: the count-register tick rate, wrap-aware tick
//! arithmetic, cached and uncached address-segment conversion, and the
//! television standard codes.
use vstd::prelude::*;

verus! {

/// Number of updates to the COP0 count register per second: the 93.75 MHz
/// processor clock divided by two.
pub const TICKS_PER_SECOND: u64 = 93750000 / 2;

/// The count-register distance from `from` to `to`, as the signed 32-bit
/// value the hardware comparison uses: the difference modulo two to the
/// thirty-second, reinterpreted as a signed word. Positive when `from` is
/// before `to`.
pub open spec fn spec_ticks_distance(from: u32, to: u32) -> int {
    let d = if to >= from {
        to - from
    } else {
        to - from + 0x1_0000_0000
    };
    if d < 0x8000_0000 {
        d
    } else {
        d - 0x1_0000_0000
    }
}

/// The signed difference of time between `from` and `to`: positive when
/// `from` is before `to`, computed modulo the 32-bit wrap of the count
/// register.
pub fn get_ticks_distance(from: u32, to: u32) -> (r: i32)
    ensures
        r as int == spec_ticks_distance(from, to),
{
    let d: u32 = if to >= from {
        to - from
    } else {
        0xFFFF_FFFFu32 - (from - to) + 1
    };
    if d >= 0x8000_0000 {
        -((0xFFFF_FFFFu32 - d) as i32) - 1
    } else {
        d as i32
    }
}

/// Whether `t1` is before `t2` on the wrapping count register: true when
/// the modular distance from `t1` to `t2` is positive. Because the counter
/// wraps about every 91 seconds, times more than about 45 seconds apart
/// compare the wrong way around.
pub fn get_ticks_before(t1: u32, t2: u32) -> (r: bool)
    ensures
        r == (spec_ticks_distance(t1, t2) > 0),
{
    get_ticks_distance(t1, t2) > 0
}

/// Count-register ticks for a millisecond count: the tick rate divided by
/// one thousand, times `val`.
pub fn get_ticks_from_ms(val: u32) -> (r: u32)
    requires
        val * (TICKS_PER_SECOND / 1000) <= u32::MAX,
    ensures
        r == val * (TICKS_PER_SECOND / 1000),
{
    proof {
        assert(TICKS_PER_SECOND / 1000 == 46875);
    }
    val * 46875
}

/// The uncached-segment alias of a memory address: the same location,
/// reached with bit 29 set so that loads and stores bypass the data cache.
pub fn get_uncached_address(addr: u32) -> (r: u32)
    ensures
        r == addr | 0x2000_0000,
{
    addr | 0x2000_0000
}

/// The cached-segment alias of a memory address: the same location,
/// reached with bit 29 clear so that loads and stores go through the data
/// cache.
pub fn get_cached_address(addr: u32) -> (r: u32)
    ensures
        r == addr & !0x2000_0000u32,
{
    addr & !0x2000_0000u32
}

/// Law: moving an address into either segment is idempotent, and the two
/// conversions are inverse on the segment bit: the cached alias of an
/// uncached alias equals the cached alias of the original address, and the
/// other way around.
pub proof fn lemma_address_segments(addr: u32)
    ensures
        (addr | 0x2000_0000) | 0x2000_0000 == addr | 0x2000_0000,
        ((addr & !0x2000_0000u32) & !0x2000_0000u32) == addr & !0x2000_0000u32,
        ((addr | 0x2000_0000) & !0x2000_0000u32) == addr & !0x2000_0000u32,
        ((addr & !0x2000_0000u32) | 0x2000_0000) == addr | 0x2000_0000,
{
    assert((addr | 0x2000_0000) | 0x2000_0000 == addr | 0x2000_0000) by (bit_vector);
    assert(((addr & !0x2000_0000u32) & !0x2000_0000u32) == addr & !0x2000_0000u32) by (bit_vector);
    assert(((addr | 0x2000_0000) & !0x2000_0000u32) == addr & !0x2000_0000u32) by (bit_vector);
    assert(((addr & !0x2000_0000u32) | 0x2000_0000) == addr | 0x2000_0000) by (bit_vector);
}

/// Television standard of the console, as the boot ROM records it.
#[derive(Clone, Copy, PartialEq, Eq, Structural, Debug)]
pub enum TVType {
    TV_PAL,
    TV_NTSC,
    TV_MPAL,
}

impl TVType {
    /// The native code that stands for this variant.
    pub open spec fn spec_code(self) -> i32 {
        match self {
            TVType::TV_PAL => 0i32,
            TVType::TV_NTSC => 1i32,
            TVType::TV_MPAL => 2i32,
        }
    }

    /// The variant that a native code stands for, if any.
    pub open spec fn spec_from_code(c: i32) -> Option<TVType> {
        if c == 0i32 {
            Some(TVType::TV_PAL)
        } else if c == 1i32 {
            Some(TVType::TV_NTSC)
        } else if c == 2i32 {
            Some(TVType::TV_MPAL)
        } else {
            None
        }
    }

    /// The native code of this variant, as the wrapped library defines it.
    pub fn code(self) -> (c: i32)
        ensures
            c == self.spec_code(),
    {
        match self {
            TVType::TV_PAL => 0i32,
            TVType::TV_NTSC => 1i32,
            TVType::TV_MPAL => 2i32,
        }
    }

    /// Decode a native code; `None` on a code outside the documented range.
    pub fn from_code(c: i32) -> (r: Option<TVType>)
        ensures
            r == Self::spec_from_code(c),
            r is Some <==> (c == 0i32 || c == 1i32 || c == 2i32),
    {
        if c == 0i32 {
            Some(TVType::TV_PAL)
        } else if c == 1i32 {
            Some(TVType::TV_NTSC)
        } else if c == 2i32 {
            Some(TVType::TV_MPAL)
        } else {
            None
        }
    }

    /// Decoding the code of a variant yields that variant back.
    pub proof fn lemma_code_roundtrip(self)
        ensures
            Self::spec_from_code(self.spec_code()) == Some(self),
    {
    }

    /// A decoded variant carries exactly the code it was decoded from.
    pub proof fn lemma_from_code_exact(c: i32)
        ensures
            (match Self::spec_from_code(c) {
                Some(r) => r.spec_code() == c,
                None => true,
            }),
    {
    }
}

} // verus!
