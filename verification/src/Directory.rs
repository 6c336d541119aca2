//! Directory handling: the entry type codes a directory walk reports
//! (regular file and directory).
use vstd::prelude::*;

verus! {

pub const DT_REG: u64 = 1;
pub const DT_DIR: u64 = 2;

} // verus!
