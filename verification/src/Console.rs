//! Software console emulation: screen-geometry constants and the render
//! mode codes the native console accepts.
use vstd::prelude::*;

verus! {

pub const CONSOLE_WIDTH: u64 = 64;
pub const CONSOLE_HEIGHT: u64 = 28;
pub const TAB_WIDTH: u64 = 4;
pub const HORIZONTAL_PADDING: u64 = 64;
pub const VERTICAL_PADDING: u64 = 8;

/// How console text reaches the screen: buffered until an explicit
/// render, or placed on screen by every write.
#[derive(Clone, Copy, PartialEq, Eq, Structural, Debug)]
pub enum RenderMode {
    RenderManual,
    RenderAutomatic,
}

impl RenderMode {
    /// The native code that stands for this variant.
    pub open spec fn spec_code(self) -> i32 {
        match self {
            RenderMode::RenderManual => 0i32,
            RenderMode::RenderAutomatic => 1i32,
        }
    }

    /// The variant that a native code stands for, if any.
    pub open spec fn spec_from_code(c: i32) -> Option<RenderMode> {
        if c == 0i32 {
            Some(RenderMode::RenderManual)
        } else if c == 1i32 {
            Some(RenderMode::RenderAutomatic)
        } else {
            None
        }
    }

    /// The native code of this variant, as the wrapped library defines it.
    pub fn code(self) -> (c: i32)
        ensures
            c == self.spec_code(),
    {
        match self {
            RenderMode::RenderManual => 0i32,
            RenderMode::RenderAutomatic => 1i32,
        }
    }

    /// Decode a native code; `None` on a code outside the documented range.
    pub fn from_code(c: i32) -> (r: Option<RenderMode>)
        ensures
            r == Self::spec_from_code(c),
            r is Some <==> (c == 0i32 || c == 1i32),
    {
        if c == 0i32 {
            Some(RenderMode::RenderManual)
        } else if c == 1i32 {
            Some(RenderMode::RenderAutomatic)
        } else {
            None
        }
    }

    /// Decoding the code of a variant yields that variant back.
    pub proof fn lemma_code_roundtrip(self)
        ensures
            Self::spec_from_code(self.spec_code()) == Some(self),
    {
    }

    /// A decoded variant carries exactly the code it was decoded from.
    pub proof fn lemma_from_code_exact(c: i32)
        ensures
            (match Self::spec_from_code(c) {
                Some(r) => r.spec_code() == c,
                None => true,
            }),
    {
    }
}

} // verus!
