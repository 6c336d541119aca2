//! N64 COP0 (system control coprocessor) interface.
//!
//! Bit masks for the status and cause registers, and extraction of the
//! coprocessor-unusable (CE) field from a cause register value.
use vstd::prelude::*;

verus! {

pub const C0_STATUS_IE: u64 = 0x0000_0001;
pub const C0_STATUS_EXL: u64 = 0x0000_0002;
pub const C0_STATUS_ERL: u64 = 0x0000_0004;
pub const C0_CAUSE_BD: u64 = 0x8000_0000;
pub const C0_CAUSE_CE: u64 = 0x3000_0000;
pub const C0_CAUSE_EXC_CODE: u64 = 0x0000_007C;
pub const C0_INTERRUPT_0: u64 = 0x0000_0100;
pub const C0_INTERRUPT_1: u64 = 0x0000_0200;
pub const C0_INTERRUPT_RCP: u64 = 0x0000_0400;
pub const C0_INTERRUPT_3: u64 = 0x0000_0800;
pub const C0_INTERRUPT_4: u64 = 0x0000_1000;
pub const C0_INTERRUPT_5: u64 = 0x0000_2000;
pub const C0_INTERRUPT_6: u64 = 0x0000_4000;
pub const C0_INTERRUPT_TIMER: u64 = 0x0000_8000;

/// Get the CE value from a COP0 cause register value: the coprocessor unit
/// number referenced by a coprocessor unusable exception (bits 29..28).
pub fn GET_CAUSE_CE(cr: u64) -> (r: u64)
    ensures
        r == (cr & C0_CAUSE_CE) >> 28,
        r <= 3,
{
    proof {
        assert((cr & 0x3000_0000) >> 28 <= 3) by (bit_vector);
    }
    (cr & C0_CAUSE_CE) >> 28
}

/// Get the exception code from a COP0 cause register value (bits 6..2);
/// its named values are listed by `crate::Exceptions::ExceptionCode`.
pub fn GET_CAUSE_EXC_CODE(cr: u64) -> (r: u64)
    ensures
        r == (cr & C0_CAUSE_EXC_CODE) >> 2,
        r <= 31,
{
    proof {
        assert((cr & 0x0000_007C) >> 2 <= 31) by (bit_vector);
    }
    (cr & C0_CAUSE_EXC_CODE) >> 2
}

} // verus!
