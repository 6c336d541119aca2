//! Hardware exception interface: the exception classes and the MIPS cause
//! register exception codes, mapped onto named variants.
use vstd::prelude::*;

verus! {

/// Coarse class of a trapped exception.
#[derive(Clone, Copy, PartialEq, Eq, Structural, Debug)]
pub enum ExceptionType {
    EXCEPTION_TYPE_UNKNOWN,
    EXCEPTION_TYPE_RESET,
    EXCEPTION_TYPE_CRITICAL,
}

impl ExceptionType {
    /// The native code that stands for this variant.
    pub open spec fn spec_code(self) -> i32 {
        match self {
            ExceptionType::EXCEPTION_TYPE_UNKNOWN => 0i32,
            ExceptionType::EXCEPTION_TYPE_RESET => 1i32,
            ExceptionType::EXCEPTION_TYPE_CRITICAL => 2i32,
        }
    }

    /// The variant that a native code stands for, if any.
    pub open spec fn spec_from_code(c: i32) -> Option<ExceptionType> {
        if c == 0i32 {
            Some(ExceptionType::EXCEPTION_TYPE_UNKNOWN)
        } else if c == 1i32 {
            Some(ExceptionType::EXCEPTION_TYPE_RESET)
        } else if c == 2i32 {
            Some(ExceptionType::EXCEPTION_TYPE_CRITICAL)
        } else {
            None
        }
    }

    /// The native code of this variant, as the wrapped library defines it.
    pub fn code(self) -> (c: i32)
        ensures
            c == self.spec_code(),
    {
        match self {
            ExceptionType::EXCEPTION_TYPE_UNKNOWN => 0i32,
            ExceptionType::EXCEPTION_TYPE_RESET => 1i32,
            ExceptionType::EXCEPTION_TYPE_CRITICAL => 2i32,
        }
    }

    /// Decode a native code; `None` on a code outside the documented range.
    pub fn from_code(c: i32) -> (r: Option<ExceptionType>)
        ensures
            r == Self::spec_from_code(c),
            r is Some <==> (c == 0i32 || c == 1i32 || c == 2i32),
    {
        if c == 0i32 {
            Some(ExceptionType::EXCEPTION_TYPE_UNKNOWN)
        } else if c == 1i32 {
            Some(ExceptionType::EXCEPTION_TYPE_RESET)
        } else if c == 2i32 {
            Some(ExceptionType::EXCEPTION_TYPE_CRITICAL)
        } else {
            None
        }
    }

    /// Decoding the code of a variant yields that variant back.
    pub proof fn lemma_code_roundtrip(self)
        ensures
            Self::spec_from_code(self.spec_code()) == Some(self),
    {
    }

    /// A decoded variant carries exactly the code it was decoded from.
    pub proof fn lemma_from_code_exact(c: i32)
        ensures
            (match Self::spec_from_code(c) {
                Some(r) => r.spec_code() == c,
                None => true,
            }),
    {
    }
}

/// Exception code field of the COP0 cause register, as the MIPS r4300
/// defines it.
#[derive(Clone, Copy, PartialEq, Eq, Structural, Debug)]
pub enum ExceptionCode {
    EXCEPTION_CODE_INTERRUPT,
    EXCEPTION_CODE_TLB_MODIFICATION,
    EXCEPTION_CODE_TLB_LOAD_I_MISS,
    EXCEPTION_CODE_TLB_STORE_MISS,
    EXCEPTION_CODE_LOAD_I_ADDRESS_ERROR,
    EXCEPTION_CODE_STORE_ADDRESS_ERROR,
    EXCEPTION_CODE_I_BUS_ERROR,
    EXCEPTION_CODE_D_BUS_ERROR,
    EXCEPTION_CODE_SYS_CALL,
    EXCEPTION_CODE_BREAKPOINT,
    EXCEPTION_CODE_RESERVED_INSTRUCTION,
    EXCEPTION_CODE_COPROCESSOR_UNUSABLE,
    EXCEPTION_CODE_ARITHMETIC_OVERFLOW,
    EXCEPTION_CODE_TRAP,
    EXCEPTION_CODE_FLOATING_POINT,
    EXCEPTION_CODE_WATCH,
}

impl ExceptionCode {
    /// The native code that stands for this variant.
    pub open spec fn spec_code(self) -> i32 {
        match self {
            ExceptionCode::EXCEPTION_CODE_INTERRUPT => 0i32,
            ExceptionCode::EXCEPTION_CODE_TLB_MODIFICATION => 1i32,
            ExceptionCode::EXCEPTION_CODE_TLB_LOAD_I_MISS => 2i32,
            ExceptionCode::EXCEPTION_CODE_TLB_STORE_MISS => 3i32,
            ExceptionCode::EXCEPTION_CODE_LOAD_I_ADDRESS_ERROR => 4i32,
            ExceptionCode::EXCEPTION_CODE_STORE_ADDRESS_ERROR => 5i32,
            ExceptionCode::EXCEPTION_CODE_I_BUS_ERROR => 6i32,
            ExceptionCode::EXCEPTION_CODE_D_BUS_ERROR => 7i32,
            ExceptionCode::EXCEPTION_CODE_SYS_CALL => 8i32,
            ExceptionCode::EXCEPTION_CODE_BREAKPOINT => 9i32,
            ExceptionCode::EXCEPTION_CODE_RESERVED_INSTRUCTION => 10i32,
            ExceptionCode::EXCEPTION_CODE_COPROCESSOR_UNUSABLE => 11i32,
            ExceptionCode::EXCEPTION_CODE_ARITHMETIC_OVERFLOW => 12i32,
            ExceptionCode::EXCEPTION_CODE_TRAP => 13i32,
            ExceptionCode::EXCEPTION_CODE_FLOATING_POINT => 15i32,
            ExceptionCode::EXCEPTION_CODE_WATCH => 23i32,
        }
    }

    /// The variant that a native code stands for, if any.
    pub open spec fn spec_from_code(c: i32) -> Option<ExceptionCode> {
        if c == 0i32 {
            Some(ExceptionCode::EXCEPTION_CODE_INTERRUPT)
        } else if c == 1i32 {
            Some(ExceptionCode::EXCEPTION_CODE_TLB_MODIFICATION)
        } else if c == 2i32 {
            Some(ExceptionCode::EXCEPTION_CODE_TLB_LOAD_I_MISS)
        } else if c == 3i32 {
            Some(ExceptionCode::EXCEPTION_CODE_TLB_STORE_MISS)
        } else if c == 4i32 {
            Some(ExceptionCode::EXCEPTION_CODE_LOAD_I_ADDRESS_ERROR)
        } else if c == 5i32 {
            Some(ExceptionCode::EXCEPTION_CODE_STORE_ADDRESS_ERROR)
        } else if c == 6i32 {
            Some(ExceptionCode::EXCEPTION_CODE_I_BUS_ERROR)
        } else if c == 7i32 {
            Some(ExceptionCode::EXCEPTION_CODE_D_BUS_ERROR)
        } else if c == 8i32 {
            Some(ExceptionCode::EXCEPTION_CODE_SYS_CALL)
        } else if c == 9i32 {
            Some(ExceptionCode::EXCEPTION_CODE_BREAKPOINT)
        } else if c == 10i32 {
            Some(ExceptionCode::EXCEPTION_CODE_RESERVED_INSTRUCTION)
        } else if c == 11i32 {
            Some(ExceptionCode::EXCEPTION_CODE_COPROCESSOR_UNUSABLE)
        } else if c == 12i32 {
            Some(ExceptionCode::EXCEPTION_CODE_ARITHMETIC_OVERFLOW)
        } else if c == 13i32 {
            Some(ExceptionCode::EXCEPTION_CODE_TRAP)
        } else if c == 15i32 {
            Some(ExceptionCode::EXCEPTION_CODE_FLOATING_POINT)
        } else if c == 23i32 {
            Some(ExceptionCode::EXCEPTION_CODE_WATCH)
        } else {
            None
        }
    }

    /// The native code of this variant, as the wrapped library defines it.
    pub fn code(self) -> (c: i32)
        ensures
            c == self.spec_code(),
    {
        match self {
            ExceptionCode::EXCEPTION_CODE_INTERRUPT => 0i32,
            ExceptionCode::EXCEPTION_CODE_TLB_MODIFICATION => 1i32,
            ExceptionCode::EXCEPTION_CODE_TLB_LOAD_I_MISS => 2i32,
            ExceptionCode::EXCEPTION_CODE_TLB_STORE_MISS => 3i32,
            ExceptionCode::EXCEPTION_CODE_LOAD_I_ADDRESS_ERROR => 4i32,
            ExceptionCode::EXCEPTION_CODE_STORE_ADDRESS_ERROR => 5i32,
            ExceptionCode::EXCEPTION_CODE_I_BUS_ERROR => 6i32,
            ExceptionCode::EXCEPTION_CODE_D_BUS_ERROR => 7i32,
            ExceptionCode::EXCEPTION_CODE_SYS_CALL => 8i32,
            ExceptionCode::EXCEPTION_CODE_BREAKPOINT => 9i32,
            ExceptionCode::EXCEPTION_CODE_RESERVED_INSTRUCTION => 10i32,
            ExceptionCode::EXCEPTION_CODE_COPROCESSOR_UNUSABLE => 11i32,
            ExceptionCode::EXCEPTION_CODE_ARITHMETIC_OVERFLOW => 12i32,
            ExceptionCode::EXCEPTION_CODE_TRAP => 13i32,
            ExceptionCode::EXCEPTION_CODE_FLOATING_POINT => 15i32,
            ExceptionCode::EXCEPTION_CODE_WATCH => 23i32,
        }
    }

    /// Decode a native code; `None` on a code outside the documented range.
    pub fn from_code(c: i32) -> (r: Option<ExceptionCode>)
        ensures
            r == Self::spec_from_code(c),
            r is Some <==> (c == 0i32 || c == 1i32 || c == 2i32 || c == 3i32 || c == 4i32 || c == 5i32 || c == 6i32 || c == 7i32 || c == 8i32 || c == 9i32 || c == 10i32 || c == 11i32 || c == 12i32 || c == 13i32 || c == 15i32 || c == 23i32),
    {
        if c == 0i32 {
            Some(ExceptionCode::EXCEPTION_CODE_INTERRUPT)
        } else if c == 1i32 {
            Some(ExceptionCode::EXCEPTION_CODE_TLB_MODIFICATION)
        } else if c == 2i32 {
            Some(ExceptionCode::EXCEPTION_CODE_TLB_LOAD_I_MISS)
        } else if c == 3i32 {
            Some(ExceptionCode::EXCEPTION_CODE_TLB_STORE_MISS)
        } else if c == 4i32 {
            Some(ExceptionCode::EXCEPTION_CODE_LOAD_I_ADDRESS_ERROR)
        } else if c == 5i32 {
            Some(ExceptionCode::EXCEPTION_CODE_STORE_ADDRESS_ERROR)
        } else if c == 6i32 {
            Some(ExceptionCode::EXCEPTION_CODE_I_BUS_ERROR)
        } else if c == 7i32 {
            Some(ExceptionCode::EXCEPTION_CODE_D_BUS_ERROR)
        } else if c == 8i32 {
            Some(ExceptionCode::EXCEPTION_CODE_SYS_CALL)
        } else if c == 9i32 {
            Some(ExceptionCode::EXCEPTION_CODE_BREAKPOINT)
        } else if c == 10i32 {
            Some(ExceptionCode::EXCEPTION_CODE_RESERVED_INSTRUCTION)
        } else if c == 11i32 {
            Some(ExceptionCode::EXCEPTION_CODE_COPROCESSOR_UNUSABLE)
        } else if c == 12i32 {
            Some(ExceptionCode::EXCEPTION_CODE_ARITHMETIC_OVERFLOW)
        } else if c == 13i32 {
            Some(ExceptionCode::EXCEPTION_CODE_TRAP)
        } else if c == 15i32 {
            Some(ExceptionCode::EXCEPTION_CODE_FLOATING_POINT)
        } else if c == 23i32 {
            Some(ExceptionCode::EXCEPTION_CODE_WATCH)
        } else {
            None
        }
    }

    /// Decoding the code of a variant yields that variant back.
    pub proof fn lemma_code_roundtrip(self)
        ensures
            Self::spec_from_code(self.spec_code()) == Some(self),
    {
    }

    /// A decoded variant carries exactly the code it was decoded from.
    pub proof fn lemma_from_code_exact(c: i32)
        ensures
            (match Self::spec_from_code(c) {
                Some(r) => r.spec_code() == c,
                None => true,
            }),
    {
    }
}

} // verus!
