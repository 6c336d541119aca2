//! Interrupt controller interface: the states the native controller
//! reports, mapped onto named variants.
use vstd::prelude::*;

verus! {

/// Whether an interrupt source is switched on.
pub type InterruptFlag = bool;

/// State of the systemwide interrupt controller.
#[derive(Clone, Copy, PartialEq, Eq, Structural, Debug)]
pub enum InterruptState {
    INTERRUPTS_UNINITIALIZED,
    INTERRUPTS_DISABLED,
    INTERRUPTS_ENABLED,
}

impl InterruptState {
    /// The native code that stands for this variant.
    pub open spec fn spec_code(self) -> i32 {
        match self {
            InterruptState::INTERRUPTS_UNINITIALIZED => 0i32,
            InterruptState::INTERRUPTS_DISABLED => 1i32,
            InterruptState::INTERRUPTS_ENABLED => 2i32,
        }
    }

    /// The variant that a native code stands for, if any.
    pub open spec fn spec_from_code(c: i32) -> Option<InterruptState> {
        if c == 0i32 {
            Some(InterruptState::INTERRUPTS_UNINITIALIZED)
        } else if c == 1i32 {
            Some(InterruptState::INTERRUPTS_DISABLED)
        } else if c == 2i32 {
            Some(InterruptState::INTERRUPTS_ENABLED)
        } else {
            None
        }
    }

    /// The native code of this variant, as the wrapped library defines it.
    pub fn code(self) -> (c: i32)
        ensures
            c == self.spec_code(),
    {
        match self {
            InterruptState::INTERRUPTS_UNINITIALIZED => 0i32,
            InterruptState::INTERRUPTS_DISABLED => 1i32,
            InterruptState::INTERRUPTS_ENABLED => 2i32,
        }
    }

    /// Decode a native code; `None` on a code outside the documented range.
    pub fn from_code(c: i32) -> (r: Option<InterruptState>)
        ensures
            r == Self::spec_from_code(c),
            r is Some <==> (c == 0i32 || c == 1i32 || c == 2i32),
    {
        if c == 0i32 {
            Some(InterruptState::INTERRUPTS_UNINITIALIZED)
        } else if c == 1i32 {
            Some(InterruptState::INTERRUPTS_DISABLED)
        } else if c == 2i32 {
            Some(InterruptState::INTERRUPTS_ENABLED)
        } else {
            None
        }
    }

    /// Decoding the code of a variant yields that variant back.
    pub proof fn lemma_code_roundtrip(self)
        ensures
            Self::spec_from_code(self.spec_code()) == Some(self),
    {
    }

    /// A decoded variant carries exactly the code it was decoded from.
    pub proof fn lemma_from_code_exact(c: i32)
        ensures
            (match Self::spec_from_code(c) {
                Some(r) => r.spec_code() == c,
                None => true,
            }),
    {
    }
}

} // verus!
