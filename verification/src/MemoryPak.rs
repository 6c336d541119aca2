//! Managed mempak interface: block-layout constants and the result codes
//! the native mempak calls return, each mapped onto a named variant.
use vstd::prelude::*;

verus! {

pub const MEMPAK_BLOCK_SIZE: u64 = 256;
pub const BLOCK_EMPTY: u64 = 0x03;
pub const BLOCK_LAST: u64 = 0x01;
pub const BLOCK_VALID_FIRST: u64 = 0x05;
pub const BLOCK_VALID_LAST: u64 = 0x7F;

/// Outcome of deleting a managed mempak entry.
#[derive(Clone, Copy, PartialEq, Eq, Structural, Debug)]
pub enum DeleteEntryResult {
    DeletedSuccessfully,
    InvalidEntry,
    BadMemPak,
}

impl DeleteEntryResult {
    /// The native code that stands for this variant.
    pub open spec fn spec_code(self) -> i32 {
        match self {
            DeleteEntryResult::DeletedSuccessfully => 0i32,
            DeleteEntryResult::InvalidEntry => -1i32,
            DeleteEntryResult::BadMemPak => -2i32,
        }
    }

    /// The variant that a native code stands for, if any.
    pub open spec fn spec_from_code(c: i32) -> Option<DeleteEntryResult> {
        if c == 0i32 {
            Some(DeleteEntryResult::DeletedSuccessfully)
        } else if c == -1i32 {
            Some(DeleteEntryResult::InvalidEntry)
        } else if c == -2i32 {
            Some(DeleteEntryResult::BadMemPak)
        } else {
            None
        }
    }

    /// The native code of this variant, as the wrapped library defines it.
    pub fn code(self) -> (c: i32)
        ensures
            c == self.spec_code(),
    {
        match self {
            DeleteEntryResult::DeletedSuccessfully => 0i32,
            DeleteEntryResult::InvalidEntry => -1i32,
            DeleteEntryResult::BadMemPak => -2i32,
        }
    }

    /// Decode a native code; `None` on a code outside the documented range.
    pub fn from_code(c: i32) -> (r: Option<DeleteEntryResult>)
        ensures
            r == Self::spec_from_code(c),
            r is Some <==> (c == 0i32 || c == -1i32 || c == -2i32),
    {
        if c == 0i32 {
            Some(DeleteEntryResult::DeletedSuccessfully)
        } else if c == -1i32 {
            Some(DeleteEntryResult::InvalidEntry)
        } else if c == -2i32 {
            Some(DeleteEntryResult::BadMemPak)
        } else {
            None
        }
    }

    /// Decoding the code of a variant yields that variant back.
    pub proof fn lemma_code_roundtrip(self)
        ensures
            Self::spec_from_code(self.spec_code()) == Some(self),
    {
    }

    /// A decoded variant carries exactly the code it was decoded from.
    pub proof fn lemma_from_code_exact(c: i32)
        ensures
            (match Self::spec_from_code(c) {
                Some(r) => r.spec_code() == c,
                None => true,
            }),
    {
    }
}

/// Outcome of formatting a mempak.
#[derive(Clone, Copy, PartialEq, Eq, Structural, Debug)]
pub enum FormatResult {
    FormattedSuccessfully,
    BadMemPak,
}

impl FormatResult {
    /// The native code that stands for this variant.
    pub open spec fn spec_code(self) -> i32 {
        match self {
            FormatResult::FormattedSuccessfully => 0i32,
            FormatResult::BadMemPak => -2i32,
        }
    }

    /// The variant that a native code stands for, if any.
    pub open spec fn spec_from_code(c: i32) -> Option<FormatResult> {
        if c == 0i32 {
            Some(FormatResult::FormattedSuccessfully)
        } else if c == -2i32 {
            Some(FormatResult::BadMemPak)
        } else {
            None
        }
    }

    /// The native code of this variant, as the wrapped library defines it.
    pub fn code(self) -> (c: i32)
        ensures
            c == self.spec_code(),
    {
        match self {
            FormatResult::FormattedSuccessfully => 0i32,
            FormatResult::BadMemPak => -2i32,
        }
    }

    /// Decode a native code; `None` on a code outside the documented range.
    pub fn from_code(c: i32) -> (r: Option<FormatResult>)
        ensures
            r == Self::spec_from_code(c),
            r is Some <==> (c == 0i32 || c == -2i32),
    {
        if c == 0i32 {
            Some(FormatResult::FormattedSuccessfully)
        } else if c == -2i32 {
            Some(FormatResult::BadMemPak)
        } else {
            None
        }
    }

    /// Decoding the code of a variant yields that variant back.
    pub proof fn lemma_code_roundtrip(self)
        ensures
            Self::spec_from_code(self.spec_code()) == Some(self),
    {
    }

    /// A decoded variant carries exactly the code it was decoded from.
    pub proof fn lemma_from_code_exact(c: i32)
        ensures
            (match Self::spec_from_code(c) {
                Some(r) => r.spec_code() == c,
                None => true,
            }),
    {
    }
}

/// Outcome of fetching a mempak directory entry.
#[derive(Clone, Copy, PartialEq, Eq, Structural, Debug)]
pub enum GetEntryResult {
    ReadSuccessfully,
    BadEntry,
    BadMemPak,
}

impl GetEntryResult {
    /// The native code that stands for this variant.
    pub open spec fn spec_code(self) -> i32 {
        match self {
            GetEntryResult::ReadSuccessfully => 0i32,
            GetEntryResult::BadEntry => -1i32,
            GetEntryResult::BadMemPak => -2i32,
        }
    }

    /// The variant that a native code stands for, if any.
    pub open spec fn spec_from_code(c: i32) -> Option<GetEntryResult> {
        if c == 0i32 {
            Some(GetEntryResult::ReadSuccessfully)
        } else if c == -1i32 {
            Some(GetEntryResult::BadEntry)
        } else if c == -2i32 {
            Some(GetEntryResult::BadMemPak)
        } else {
            None
        }
    }

    /// The native code of this variant, as the wrapped library defines it.
    pub fn code(self) -> (c: i32)
        ensures
            c == self.spec_code(),
    {
        match self {
            GetEntryResult::ReadSuccessfully => 0i32,
            GetEntryResult::BadEntry => -1i32,
            GetEntryResult::BadMemPak => -2i32,
        }
    }

    /// Decode a native code; `None` on a code outside the documented range.
    pub fn from_code(c: i32) -> (r: Option<GetEntryResult>)
        ensures
            r == Self::spec_from_code(c),
            r is Some <==> (c == 0i32 || c == -1i32 || c == -2i32),
    {
        if c == 0i32 {
            Some(GetEntryResult::ReadSuccessfully)
        } else if c == -1i32 {
            Some(GetEntryResult::BadEntry)
        } else if c == -2i32 {
            Some(GetEntryResult::BadMemPak)
        } else {
            None
        }
    }

    /// Decoding the code of a variant yields that variant back.
    pub proof fn lemma_code_roundtrip(self)
        ensures
            Self::spec_from_code(self.spec_code()) == Some(self),
    {
    }

    /// A decoded variant carries exactly the code it was decoded from.
    pub proof fn lemma_from_code_exact(c: i32)
        ensures
            (match Self::spec_from_code(c) {
                Some(r) => r.spec_code() == c,
                None => true,
            }),
    {
    }
}

/// Outcome of reading the data behind a mempak entry.
#[derive(Clone, Copy, PartialEq, Eq, Structural, Debug)]
pub enum ReadEntryDataResult {
    ReadSuccessfully,
    BadEntry,
    BadMemPak,
    DataUnreadable,
}

impl ReadEntryDataResult {
    /// The native code that stands for this variant.
    pub open spec fn spec_code(self) -> i32 {
        match self {
            ReadEntryDataResult::ReadSuccessfully => 0i32,
            ReadEntryDataResult::BadEntry => -1i32,
            ReadEntryDataResult::BadMemPak => -2i32,
            ReadEntryDataResult::DataUnreadable => -3i32,
        }
    }

    /// The variant that a native code stands for, if any.
    pub open spec fn spec_from_code(c: i32) -> Option<ReadEntryDataResult> {
        if c == 0i32 {
            Some(ReadEntryDataResult::ReadSuccessfully)
        } else if c == -1i32 {
            Some(ReadEntryDataResult::BadEntry)
        } else if c == -2i32 {
            Some(ReadEntryDataResult::BadMemPak)
        } else if c == -3i32 {
            Some(ReadEntryDataResult::DataUnreadable)
        } else {
            None
        }
    }

    /// The native code of this variant, as the wrapped library defines it.
    pub fn code(self) -> (c: i32)
        ensures
            c == self.spec_code(),
    {
        match self {
            ReadEntryDataResult::ReadSuccessfully => 0i32,
            ReadEntryDataResult::BadEntry => -1i32,
            ReadEntryDataResult::BadMemPak => -2i32,
            ReadEntryDataResult::DataUnreadable => -3i32,
        }
    }

    /// Decode a native code; `None` on a code outside the documented range.
    pub fn from_code(c: i32) -> (r: Option<ReadEntryDataResult>)
        ensures
            r == Self::spec_from_code(c),
            r is Some <==> (c == 0i32 || c == -1i32 || c == -2i32 || c == -3i32),
    {
        if c == 0i32 {
            Some(ReadEntryDataResult::ReadSuccessfully)
        } else if c == -1i32 {
            Some(ReadEntryDataResult::BadEntry)
        } else if c == -2i32 {
            Some(ReadEntryDataResult::BadMemPak)
        } else if c == -3i32 {
            Some(ReadEntryDataResult::DataUnreadable)
        } else {
            None
        }
    }

    /// Decoding the code of a variant yields that variant back.
    pub proof fn lemma_code_roundtrip(self)
        ensures
            Self::spec_from_code(self.spec_code()) == Some(self),
    {
    }

    /// A decoded variant carries exactly the code it was decoded from.
    pub proof fn lemma_from_code_exact(c: i32)
        ensures
            (match Self::spec_from_code(c) {
                Some(r) => r.spec_code() == c,
                None => true,
            }),
    {
    }
}

/// Outcome of reading a raw mempak sector.
#[derive(Clone, Copy, PartialEq, Eq, Structural, Debug)]
pub enum ReadSectorResult {
    ReadSuccessfully,
    BadSector,
    ErrorRead,
}

impl ReadSectorResult {
    /// The native code that stands for this variant.
    pub open spec fn spec_code(self) -> i32 {
        match self {
            ReadSectorResult::ReadSuccessfully => 0i32,
            ReadSectorResult::BadSector => -1i32,
            ReadSectorResult::ErrorRead => -2i32,
        }
    }

    /// The variant that a native code stands for, if any.
    pub open spec fn spec_from_code(c: i32) -> Option<ReadSectorResult> {
        if c == 0i32 {
            Some(ReadSectorResult::ReadSuccessfully)
        } else if c == -1i32 {
            Some(ReadSectorResult::BadSector)
        } else if c == -2i32 {
            Some(ReadSectorResult::ErrorRead)
        } else {
            None
        }
    }

    /// The native code of this variant, as the wrapped library defines it.
    pub fn code(self) -> (c: i32)
        ensures
            c == self.spec_code(),
    {
        match self {
            ReadSectorResult::ReadSuccessfully => 0i32,
            ReadSectorResult::BadSector => -1i32,
            ReadSectorResult::ErrorRead => -2i32,
        }
    }

    /// Decode a native code; `None` on a code outside the documented range.
    pub fn from_code(c: i32) -> (r: Option<ReadSectorResult>)
        ensures
            r == Self::spec_from_code(c),
            r is Some <==> (c == 0i32 || c == -1i32 || c == -2i32),
    {
        if c == 0i32 {
            Some(ReadSectorResult::ReadSuccessfully)
        } else if c == -1i32 {
            Some(ReadSectorResult::BadSector)
        } else if c == -2i32 {
            Some(ReadSectorResult::ErrorRead)
        } else {
            None
        }
    }

    /// Decoding the code of a variant yields that variant back.
    pub proof fn lemma_code_roundtrip(self)
        ensures
            Self::spec_from_code(self.spec_code()) == Some(self),
    {
    }

    /// A decoded variant carries exactly the code it was decoded from.
    pub proof fn lemma_from_code_exact(c: i32)
        ensures
            (match Self::spec_from_code(c) {
                Some(r) => r.spec_code() == c,
                None => true,
            }),
    {
    }
}

/// Outcome of checking that a mempak is formatted and valid.
#[derive(Clone, Copy, PartialEq, Eq, Structural, Debug)]
pub enum ValidateResult {
    Valid,
    NotPresent,
    BadMemPak,
}

impl ValidateResult {
    /// The native code that stands for this variant.
    pub open spec fn spec_code(self) -> i32 {
        match self {
            ValidateResult::Valid => 0i32,
            ValidateResult::NotPresent => -2i32,
            ValidateResult::BadMemPak => -3i32,
        }
    }

    /// The variant that a native code stands for, if any.
    pub open spec fn spec_from_code(c: i32) -> Option<ValidateResult> {
        if c == 0i32 {
            Some(ValidateResult::Valid)
        } else if c == -2i32 {
            Some(ValidateResult::NotPresent)
        } else if c == -3i32 {
            Some(ValidateResult::BadMemPak)
        } else {
            None
        }
    }

    /// The native code of this variant, as the wrapped library defines it.
    pub fn code(self) -> (c: i32)
        ensures
            c == self.spec_code(),
    {
        match self {
            ValidateResult::Valid => 0i32,
            ValidateResult::NotPresent => -2i32,
            ValidateResult::BadMemPak => -3i32,
        }
    }

    /// Decode a native code; `None` on a code outside the documented range.
    pub fn from_code(c: i32) -> (r: Option<ValidateResult>)
        ensures
            r == Self::spec_from_code(c),
            r is Some <==> (c == 0i32 || c == -2i32 || c == -3i32),
    {
        if c == 0i32 {
            Some(ValidateResult::Valid)
        } else if c == -2i32 {
            Some(ValidateResult::NotPresent)
        } else if c == -3i32 {
            Some(ValidateResult::BadMemPak)
        } else {
            None
        }
    }

    /// Decoding the code of a variant yields that variant back.
    pub proof fn lemma_code_roundtrip(self)
        ensures
            Self::spec_from_code(self.spec_code()) == Some(self),
    {
    }

    /// A decoded variant carries exactly the code it was decoded from.
    pub proof fn lemma_from_code_exact(c: i32)
        ensures
            (match Self::spec_from_code(c) {
                Some(r) => r.spec_code() == c,
                None => true,
            }),
    {
    }
}

/// Outcome of writing a new mempak entry with its data.
#[derive(Clone, Copy, PartialEq, Eq, Structural, Debug)]
pub enum WriteEntryDataResult {
    WrittenSuccessfully,
    InvalidParameter,
    BadMemPak,
    WriteError,
    NotEnoughSpace,
    TOCFull,
}

impl WriteEntryDataResult {
    /// The native code that stands for this variant.
    pub open spec fn spec_code(self) -> i32 {
        match self {
            WriteEntryDataResult::WrittenSuccessfully => 0i32,
            WriteEntryDataResult::InvalidParameter => -1i32,
            WriteEntryDataResult::BadMemPak => -2i32,
            WriteEntryDataResult::WriteError => -3i32,
            WriteEntryDataResult::NotEnoughSpace => -4i32,
            WriteEntryDataResult::TOCFull => -5i32,
        }
    }

    /// The variant that a native code stands for, if any.
    pub open spec fn spec_from_code(c: i32) -> Option<WriteEntryDataResult> {
        if c == 0i32 {
            Some(WriteEntryDataResult::WrittenSuccessfully)
        } else if c == -1i32 {
            Some(WriteEntryDataResult::InvalidParameter)
        } else if c == -2i32 {
            Some(WriteEntryDataResult::BadMemPak)
        } else if c == -3i32 {
            Some(WriteEntryDataResult::WriteError)
        } else if c == -4i32 {
            Some(WriteEntryDataResult::NotEnoughSpace)
        } else if c == -5i32 {
            Some(WriteEntryDataResult::TOCFull)
        } else {
            None
        }
    }

    /// The native code of this variant, as the wrapped library defines it.
    pub fn code(self) -> (c: i32)
        ensures
            c == self.spec_code(),
    {
        match self {
            WriteEntryDataResult::WrittenSuccessfully => 0i32,
            WriteEntryDataResult::InvalidParameter => -1i32,
            WriteEntryDataResult::BadMemPak => -2i32,
            WriteEntryDataResult::WriteError => -3i32,
            WriteEntryDataResult::NotEnoughSpace => -4i32,
            WriteEntryDataResult::TOCFull => -5i32,
        }
    }

    /// Decode a native code; `None` on a code outside the documented range.
    pub fn from_code(c: i32) -> (r: Option<WriteEntryDataResult>)
        ensures
            r == Self::spec_from_code(c),
            r is Some <==> (c == 0i32 || c == -1i32 || c == -2i32 || c == -3i32 || c == -4i32 || c == -5i32),
    {
        if c == 0i32 {
            Some(WriteEntryDataResult::WrittenSuccessfully)
        } else if c == -1i32 {
            Some(WriteEntryDataResult::InvalidParameter)
        } else if c == -2i32 {
            Some(WriteEntryDataResult::BadMemPak)
        } else if c == -3i32 {
            Some(WriteEntryDataResult::WriteError)
        } else if c == -4i32 {
            Some(WriteEntryDataResult::NotEnoughSpace)
        } else if c == -5i32 {
            Some(WriteEntryDataResult::TOCFull)
        } else {
            None
        }
    }

    /// Decoding the code of a variant yields that variant back.
    pub proof fn lemma_code_roundtrip(self)
        ensures
            Self::spec_from_code(self.spec_code()) == Some(self),
    {
    }

    /// A decoded variant carries exactly the code it was decoded from.
    pub proof fn lemma_from_code_exact(c: i32)
        ensures
            (match Self::spec_from_code(c) {
                Some(r) => r.spec_code() == c,
                None => true,
            }),
    {
    }
}

/// Outcome of writing a raw mempak sector.
#[derive(Clone, Copy, PartialEq, Eq, Structural, Debug)]
pub enum WriteSectorResult {
    WrittenSuccessfully,
    BadSector,
    WriteError,
}

impl WriteSectorResult {
    /// The native code that stands for this variant.
    pub open spec fn spec_code(self) -> i32 {
        match self {
            WriteSectorResult::WrittenSuccessfully => 0i32,
            WriteSectorResult::BadSector => -1i32,
            WriteSectorResult::WriteError => -2i32,
        }
    }

    /// The variant that a native code stands for, if any.
    pub open spec fn spec_from_code(c: i32) -> Option<WriteSectorResult> {
        if c == 0i32 {
            Some(WriteSectorResult::WrittenSuccessfully)
        } else if c == -1i32 {
            Some(WriteSectorResult::BadSector)
        } else if c == -2i32 {
            Some(WriteSectorResult::WriteError)
        } else {
            None
        }
    }

    /// The native code of this variant, as the wrapped library defines it.
    pub fn code(self) -> (c: i32)
        ensures
            c == self.spec_code(),
    {
        match self {
            WriteSectorResult::WrittenSuccessfully => 0i32,
            WriteSectorResult::BadSector => -1i32,
            WriteSectorResult::WriteError => -2i32,
        }
    }

    /// Decode a native code; `None` on a code outside the documented range.
    pub fn from_code(c: i32) -> (r: Option<WriteSectorResult>)
        ensures
            r == Self::spec_from_code(c),
            r is Some <==> (c == 0i32 || c == -1i32 || c == -2i32),
    {
        if c == 0i32 {
            Some(WriteSectorResult::WrittenSuccessfully)
        } else if c == -1i32 {
            Some(WriteSectorResult::BadSector)
        } else if c == -2i32 {
            Some(WriteSectorResult::WriteError)
        } else {
            None
        }
    }

    /// Decoding the code of a variant yields that variant back.
    pub proof fn lemma_code_roundtrip(self)
        ensures
            Self::spec_from_code(self.spec_code()) == Some(self),
    {
    }

    /// A decoded variant carries exactly the code it was decoded from.
    pub proof fn lemma_from_code_exact(c: i32)
        ensures
            (match Self::spec_from_code(c) {
                Some(r) => r.spec_code() == c,
                None => true,
            }),
    {
    }
}

} // verus!
