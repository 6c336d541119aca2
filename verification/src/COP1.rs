//! N64 COP1 (floating-point unit) interface: the flag, enable and cause
//! bit masks of the FCR31 control and status register.
use vstd::prelude::*;

verus! {

pub const C1_FLAG_INEXACT_OP: u64 = 0x0000_0004;
pub const C1_FLAG_UNDERFLOW: u64 = 0x0000_0008;
pub const C1_FLAG_OVERFLOW: u64 = 0x0000_0010;
pub const C1_FLAG_DIV_BY_0: u64 = 0x0000_0020;
pub const C1_FLAG_INVALID_OP: u64 = 0x0000_0040;
pub const C1_ENABLE_INEXACT_OP: u64 = 0x0000_0080;
pub const C1_ENABLE_UNDERFLOW: u64 = 0x0000_0100;
pub const C1_ENABLE_OVERFLOW: u64 = 0x0000_0200;
pub const C1_ENABLE_DIV_BY_0: u64 = 0x0000_0400;
pub const C1_ENABLE_INVALID_OP: u64 = 0x0000_0800;
pub const C1_CAUSE_INEXACT_OP: u64 = 0x0000_1000;
pub const C1_CAUSE_UNDERFLOW: u64 = 0x0000_2000;
pub const C1_CAUSE_OVERFLOW: u64 = 0x0000_4000;
pub const C1_CAUSE_DIV_BY_0: u64 = 0x0000_8000;
pub const C1_CAUSE_INVALID_OP: u64 = 0x0001_0000;
pub const C1_CAUSE_NOT_IMPLEMENTED: u64 = 0x0002_0000;

} // verus!
