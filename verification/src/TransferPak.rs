//! Transfer pak interface: the error codes of the native transfer pak
//! calls, the flags of its status byte, and the Game Boy Color support
//! marker of a cartridge header.
use vstd::prelude::*;

verus! {

/// Outcome of a transfer pak operation.
#[derive(Clone, Copy, PartialEq, Eq, Structural, Debug)]
pub enum TPakError {
    Success,
    InvalidArgument,
    NoTPak,
    NoController,
    UnknownBehaviour,
    NoCartridge,
    AddressOverflow,
}

impl TPakError {
    /// The native code that stands for this variant.
    pub open spec fn spec_code(self) -> i32 {
        match self {
            TPakError::Success => 0i32,
            TPakError::InvalidArgument => -1i32,
            TPakError::NoTPak => -2i32,
            TPakError::NoController => -3i32,
            TPakError::UnknownBehaviour => -4i32,
            TPakError::NoCartridge => -5i32,
            TPakError::AddressOverflow => -6i32,
        }
    }

    /// The variant that a native code stands for, if any.
    pub open spec fn spec_from_code(c: i32) -> Option<TPakError> {
        if c == 0i32 {
            Some(TPakError::Success)
        } else if c == -1i32 {
            Some(TPakError::InvalidArgument)
        } else if c == -2i32 {
            Some(TPakError::NoTPak)
        } else if c == -3i32 {
            Some(TPakError::NoController)
        } else if c == -4i32 {
            Some(TPakError::UnknownBehaviour)
        } else if c == -5i32 {
            Some(TPakError::NoCartridge)
        } else if c == -6i32 {
            Some(TPakError::AddressOverflow)
        } else {
            None
        }
    }

    /// The native code of this variant, as the wrapped library defines it.
    pub fn code(self) -> (c: i32)
        ensures
            c == self.spec_code(),
    {
        match self {
            TPakError::Success => 0i32,
            TPakError::InvalidArgument => -1i32,
            TPakError::NoTPak => -2i32,
            TPakError::NoController => -3i32,
            TPakError::UnknownBehaviour => -4i32,
            TPakError::NoCartridge => -5i32,
            TPakError::AddressOverflow => -6i32,
        }
    }

    /// Decode a native code; `None` on a code outside the documented range.
    pub fn from_code(c: i32) -> (r: Option<TPakError>)
        ensures
            r == Self::spec_from_code(c),
            r is Some <==> (c == 0i32 || c == -1i32 || c == -2i32 || c == -3i32 || c == -4i32 || c == -5i32 || c == -6i32),
    {
        if c == 0i32 {
            Some(TPakError::Success)
        } else if c == -1i32 {
            Some(TPakError::InvalidArgument)
        } else if c == -2i32 {
            Some(TPakError::NoTPak)
        } else if c == -3i32 {
            Some(TPakError::NoController)
        } else if c == -4i32 {
            Some(TPakError::UnknownBehaviour)
        } else if c == -5i32 {
            Some(TPakError::NoCartridge)
        } else if c == -6i32 {
            Some(TPakError::AddressOverflow)
        } else {
            None
        }
    }

    /// Decoding the code of a variant yields that variant back.
    pub proof fn lemma_code_roundtrip(self)
        ensures
            Self::spec_from_code(self.spec_code()) == Some(self),
    {
    }

    /// A decoded variant carries exactly the code it was decoded from.
    pub proof fn lemma_from_code_exact(c: i32)
        ensures
            (match Self::spec_from_code(c) {
                Some(r) => r.spec_code() == c,
                None => true,
            }),
    {
    }
}

/// A single flag of the transfer pak status byte; each variant is one bit.
#[derive(Clone, Copy, PartialEq, Eq, Structural, Debug)]
pub enum TPakStatus {
    Ready,
    WasReset,
    IsResetting,
    Removed,
    Powered,
}

impl TPakStatus {
    /// The native code that stands for this variant.
    pub open spec fn spec_code(self) -> u8 {
        match self {
            TPakStatus::Ready => 0x01u8,
            TPakStatus::WasReset => 0x04u8,
            TPakStatus::IsResetting => 0x08u8,
            TPakStatus::Removed => 0x40u8,
            TPakStatus::Powered => 0x80u8,
        }
    }

    /// The variant that a native code stands for, if any.
    pub open spec fn spec_from_code(c: u8) -> Option<TPakStatus> {
        if c == 0x01u8 {
            Some(TPakStatus::Ready)
        } else if c == 0x04u8 {
            Some(TPakStatus::WasReset)
        } else if c == 0x08u8 {
            Some(TPakStatus::IsResetting)
        } else if c == 0x40u8 {
            Some(TPakStatus::Removed)
        } else if c == 0x80u8 {
            Some(TPakStatus::Powered)
        } else {
            None
        }
    }

    /// The native code of this variant, as the wrapped library defines it.
    pub fn code(self) -> (c: u8)
        ensures
            c == self.spec_code(),
    {
        match self {
            TPakStatus::Ready => 0x01u8,
            TPakStatus::WasReset => 0x04u8,
            TPakStatus::IsResetting => 0x08u8,
            TPakStatus::Removed => 0x40u8,
            TPakStatus::Powered => 0x80u8,
        }
    }

    /// Decode a native code; `None` on a code outside the documented range.
    pub fn from_code(c: u8) -> (r: Option<TPakStatus>)
        ensures
            r == Self::spec_from_code(c),
            r is Some <==> (c == 0x01u8 || c == 0x04u8 || c == 0x08u8 || c == 0x40u8 || c == 0x80u8),
    {
        if c == 0x01u8 {
            Some(TPakStatus::Ready)
        } else if c == 0x04u8 {
            Some(TPakStatus::WasReset)
        } else if c == 0x08u8 {
            Some(TPakStatus::IsResetting)
        } else if c == 0x40u8 {
            Some(TPakStatus::Removed)
        } else if c == 0x80u8 {
            Some(TPakStatus::Powered)
        } else {
            None
        }
    }

    /// Decoding the code of a variant yields that variant back.
    pub proof fn lemma_code_roundtrip(self)
        ensures
            Self::spec_from_code(self.spec_code()) == Some(self),
    {
    }

    /// A decoded variant carries exactly the code it was decoded from.
    pub proof fn lemma_from_code_exact(c: u8)
        ensures
            (match Self::spec_from_code(c) {
                Some(r) => r.spec_code() == c,
                None => true,
            }),
    {
    }
}

/// Game Boy Color support marker held in the last title byte of a
/// cartridge header.
#[derive(Clone, Copy, PartialEq, Eq, Structural, Debug)]
pub enum GBCSupportType {
    GBC_NOT_SUPPORTED,
    GBC_DMG_SUPPORTED,
    GBC_ONLY_SUPPORTED,
}

impl GBCSupportType {
    /// The native code that stands for this variant.
    pub open spec fn spec_code(self) -> u8 {
        match self {
            GBCSupportType::GBC_NOT_SUPPORTED => 0x00u8,
            GBCSupportType::GBC_DMG_SUPPORTED => 0x80u8,
            GBCSupportType::GBC_ONLY_SUPPORTED => 0xC0u8,
        }
    }

    /// The variant that a native code stands for, if any.
    pub open spec fn spec_from_code(c: u8) -> Option<GBCSupportType> {
        if c == 0x00u8 {
            Some(GBCSupportType::GBC_NOT_SUPPORTED)
        } else if c == 0x80u8 {
            Some(GBCSupportType::GBC_DMG_SUPPORTED)
        } else if c == 0xC0u8 {
            Some(GBCSupportType::GBC_ONLY_SUPPORTED)
        } else {
            None
        }
    }

    /// The native code of this variant, as the wrapped library defines it.
    pub fn code(self) -> (c: u8)
        ensures
            c == self.spec_code(),
    {
        match self {
            GBCSupportType::GBC_NOT_SUPPORTED => 0x00u8,
            GBCSupportType::GBC_DMG_SUPPORTED => 0x80u8,
            GBCSupportType::GBC_ONLY_SUPPORTED => 0xC0u8,
        }
    }

    /// Decode a native code; `None` on a code outside the documented range.
    pub fn from_code(c: u8) -> (r: Option<GBCSupportType>)
        ensures
            r == Self::spec_from_code(c),
            r is Some <==> (c == 0x00u8 || c == 0x80u8 || c == 0xC0u8),
    {
        if c == 0x00u8 {
            Some(GBCSupportType::GBC_NOT_SUPPORTED)
        } else if c == 0x80u8 {
            Some(GBCSupportType::GBC_DMG_SUPPORTED)
        } else if c == 0xC0u8 {
            Some(GBCSupportType::GBC_ONLY_SUPPORTED)
        } else {
            None
        }
    }

    /// Decoding the code of a variant yields that variant back.
    pub proof fn lemma_code_roundtrip(self)
        ensures
            Self::spec_from_code(self.spec_code()) == Some(self),
    {
    }

    /// A decoded variant carries exactly the code it was decoded from.
    pub proof fn lemma_from_code_exact(c: u8)
        ensures
            (match Self::spec_from_code(c) {
                Some(r) => r.spec_code() == c,
                None => true,
            }),
    {
    }
}

} // verus!
