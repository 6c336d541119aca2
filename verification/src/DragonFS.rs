//! DragonFS read-only filesystem interface: layout constants, the file
//! type of a flag word, and the decoding of every native return code into
//! a named result.
use vstd::prelude::*;

verus! {

/// Handle of an open DragonFS file.
pub type DFSHandle = u32;

pub const DFS_DEFAULT_LOCATION: u64 = 0xB0101000;
pub const MAX_OPEN_FILES: u64 = 4;
pub const MAX_FILENAME_LEN: u64 = 243;
pub const MAX_DIRECTORY_DEPTH: u64 = 100;
pub const FLAGS_FILE: u64 = 0x0;
pub const FLAGS_DIR: u64 = 0x1;
pub const FLAGS_EOF: u64 = 0x2;

/// Extract the file type from a DragonFS file flag word: its two low bits
/// (`FLAGS_FILE`, `FLAGS_DIR` or `FLAGS_EOF`).
pub fn FILETYPE(x: u64) -> (r: u64)
    ensures
        r == x & 3,
        r <= 3,
{
    proof {
        assert(x & 3 <= 3) by (bit_vector);
    }
    x & 3
}

/// Outcome of a DragonFS call that reports no payload.
#[derive(Clone, Copy, PartialEq, Eq, Structural, Debug)]
pub enum DFSResult {
    Success,
    BadInput,
    NoFile,
    BadFS,
    NoMem,
    BadHandle,
}

impl DFSResult {
    /// The native code that stands for this variant.
    pub open spec fn spec_code(self) -> i32 {
        match self {
            DFSResult::Success => 0i32,
            DFSResult::BadInput => -1i32,
            DFSResult::NoFile => -2i32,
            DFSResult::BadFS => -3i32,
            DFSResult::NoMem => -4i32,
            DFSResult::BadHandle => -5i32,
        }
    }

    /// The variant that a native code stands for, if any.
    pub open spec fn spec_from_code(c: i32) -> Option<DFSResult> {
        if c == 0i32 {
            Some(DFSResult::Success)
        } else if c == -1i32 {
            Some(DFSResult::BadInput)
        } else if c == -2i32 {
            Some(DFSResult::NoFile)
        } else if c == -3i32 {
            Some(DFSResult::BadFS)
        } else if c == -4i32 {
            Some(DFSResult::NoMem)
        } else if c == -5i32 {
            Some(DFSResult::BadHandle)
        } else {
            None
        }
    }

    /// The native code of this variant, as the wrapped library defines it.
    pub fn code(self) -> (c: i32)
        ensures
            c == self.spec_code(),
    {
        match self {
            DFSResult::Success => 0i32,
            DFSResult::BadInput => -1i32,
            DFSResult::NoFile => -2i32,
            DFSResult::BadFS => -3i32,
            DFSResult::NoMem => -4i32,
            DFSResult::BadHandle => -5i32,
        }
    }

    /// Decode a native code; `None` on a code outside the documented range.
    pub fn from_code(c: i32) -> (r: Option<DFSResult>)
        ensures
            r == Self::spec_from_code(c),
            r is Some <==> (c == 0i32 || c == -1i32 || c == -2i32 || c == -3i32 || c == -4i32 || c == -5i32),
    {
        if c == 0i32 {
            Some(DFSResult::Success)
        } else if c == -1i32 {
            Some(DFSResult::BadInput)
        } else if c == -2i32 {
            Some(DFSResult::NoFile)
        } else if c == -3i32 {
            Some(DFSResult::BadFS)
        } else if c == -4i32 {
            Some(DFSResult::NoMem)
        } else if c == -5i32 {
            Some(DFSResult::BadHandle)
        } else {
            None
        }
    }

    /// Decoding the code of a variant yields that variant back.
    pub proof fn lemma_code_roundtrip(self)
        ensures
            Self::spec_from_code(self.spec_code()) == Some(self),
    {
    }

    /// A decoded variant carries exactly the code it was decoded from.
    pub proof fn lemma_from_code_exact(c: i32)
        ensures
            (match Self::spec_from_code(c) {
                Some(r) => r.spec_code() == c,
                None => true,
            }),
    {
    }
}

/// What opening a file returned: a file handle, or the error the native
/// call reported.
#[derive(Clone, Copy, PartialEq, Eq, Structural, Debug)]
pub enum OpenResult {
    /// The handle of the newly opened file.
    Handle(u32),
    /// The error the native call reported.
    Error(DFSResult),
}

impl OpenResult {
    /// The decoded meaning of a native return code, if it is in the
    /// documented range: a non-negative code is the payload, a negative
    /// code is an error.
    pub open spec fn spec_from_code(c: i32) -> Option<OpenResult> {
        if c >= 0 {
            Some(OpenResult::Handle(c as u32))
        } else {
            match DFSResult::spec_from_code(c) {
                Some(e) => Some(OpenResult::Error(e)),
                None => None,
            }
        }
    }

    /// Decode a native return code; `None` on a code outside the documented
    /// range.
    pub fn from_code(c: i32) -> (r: Option<OpenResult>)
        ensures
            r == Self::spec_from_code(c),
            r is Some <==> c >= -5,
            (match r {
                Some(OpenResult::Handle(h)) => h as int == c as int && c >= 0,
                Some(OpenResult::Error(e)) => e.spec_code() == c && c <= -1,
                None => true,
            }),
    {
        if c >= 0 {
            Some(OpenResult::Handle(c as u32))
        } else {
            match DFSResult::from_code(c) {
                Some(e) => Some(OpenResult::Error(e)),
                None => None,
            }
        }
    }
}

/// What reading from a file returned: the number of bytes read, or the
/// error the native call reported.
#[derive(Clone, Copy, PartialEq, Eq, Structural, Debug)]
pub enum ReadResult {
    /// The number of bytes read.
    Num(i32),
    /// The error the native call reported.
    Error(DFSResult),
}

impl ReadResult {
    /// The decoded meaning of a native return code, if it is in the
    /// documented range: a non-negative code is the payload, a negative
    /// code is an error.
    pub open spec fn spec_from_code(c: i32) -> Option<ReadResult> {
        if c >= 0 {
            Some(ReadResult::Num(c))
        } else {
            match DFSResult::spec_from_code(c) {
                Some(e) => Some(ReadResult::Error(e)),
                None => None,
            }
        }
    }

    /// Decode a native return code; `None` on a code outside the documented
    /// range.
    pub fn from_code(c: i32) -> (r: Option<ReadResult>)
        ensures
            r == Self::spec_from_code(c),
            r is Some <==> c >= -5,
            (match r {
                Some(ReadResult::Num(h)) => h == c && c >= 0,
                Some(ReadResult::Error(e)) => e.spec_code() == c && c <= -1,
                None => true,
            }),
    {
        if c >= 0 {
            Some(ReadResult::Num(c))
        } else {
            match DFSResult::from_code(c) {
                Some(e) => Some(ReadResult::Error(e)),
                None => None,
            }
        }
    }
}

/// What querying a file position returned: the current offset, or the
/// error the native call reported.
#[derive(Clone, Copy, PartialEq, Eq, Structural, Debug)]
pub enum TellResult {
    /// The current offset into the file.
    Offset(i32),
    /// The error the native call reported.
    Error(DFSResult),
}

impl TellResult {
    /// The decoded meaning of a native return code, if it is in the
    /// documented range: a non-negative code is the payload, a negative
    /// code is an error.
    pub open spec fn spec_from_code(c: i32) -> Option<TellResult> {
        if c >= 0 {
            Some(TellResult::Offset(c))
        } else {
            match DFSResult::spec_from_code(c) {
                Some(e) => Some(TellResult::Error(e)),
                None => None,
            }
        }
    }

    /// Decode a native return code; `None` on a code outside the documented
    /// range.
    pub fn from_code(c: i32) -> (r: Option<TellResult>)
        ensures
            r == Self::spec_from_code(c),
            r is Some <==> c >= -5,
            (match r {
                Some(TellResult::Offset(h)) => h == c && c >= 0,
                Some(TellResult::Error(e)) => e.spec_code() == c && c <= -1,
                None => true,
            }),
    {
        if c >= 0 {
            Some(TellResult::Offset(c))
        } else {
            match DFSResult::from_code(c) {
                Some(e) => Some(TellResult::Error(e)),
                None => None,
            }
        }
    }
}

/// What querying a file size returned: the size in bytes, or the error
/// the native call reported.
#[derive(Clone, Copy, PartialEq, Eq, Structural, Debug)]
pub enum SizeResult {
    /// The size of the open file in bytes.
    Size(i32),
    /// The error the native call reported.
    Error(DFSResult),
}

impl SizeResult {
    /// The decoded meaning of a native return code, if it is in the
    /// documented range: a non-negative code is the payload, a negative
    /// code is an error.
    pub open spec fn spec_from_code(c: i32) -> Option<SizeResult> {
        if c >= 0 {
            Some(SizeResult::Size(c))
        } else {
            match DFSResult::spec_from_code(c) {
                Some(e) => Some(SizeResult::Error(e)),
                None => None,
            }
        }
    }

    /// Decode a native return code; `None` on a code outside the documented
    /// range.
    pub fn from_code(c: i32) -> (r: Option<SizeResult>)
        ensures
            r == Self::spec_from_code(c),
            r is Some <==> c >= -5,
            (match r {
                Some(SizeResult::Size(h)) => h == c && c >= 0,
                Some(SizeResult::Error(e)) => e.spec_code() == c && c <= -1,
                None => true,
            }),
    {
        if c >= 0 {
            Some(SizeResult::Size(c))
        } else {
            match DFSResult::from_code(c) {
                Some(e) => Some(SizeResult::Error(e)),
                None => None,
            }
        }
    }
}

/// What an end-of-file query returned: whether the end has been reached,
/// or the error the native call reported.
#[derive(Clone, Copy, PartialEq, Eq, Structural, Debug)]
pub enum EOFResult {
    /// Whether the end of the file has been reached.
    Eof(bool),
    /// The error the native call reported.
    Error(DFSResult),
}

impl EOFResult {
    /// The decoded meaning of a native end-of-file code, if it is in the
    /// documented range: one means end of file, zero means not yet, a
    /// negative code is an error.
    pub open spec fn spec_from_code(c: i32) -> Option<EOFResult> {
        if c == 1 {
            Some(EOFResult::Eof(true))
        } else if c == 0 {
            Some(EOFResult::Eof(false))
        } else {
            match DFSResult::spec_from_code(c) {
                Some(e) => Some(EOFResult::Error(e)),
                None => None,
            }
        }
    }

    /// Decode a native end-of-file code; `None` on a code outside the
    /// documented range.
    pub fn from_code(c: i32) -> (r: Option<EOFResult>)
        ensures
            r == Self::spec_from_code(c),
            r is Some <==> (-5 <= c <= 1),
            (match r {
                Some(EOFResult::Eof(b)) => b == (c == 1),
                Some(EOFResult::Error(e)) => e.spec_code() == c && c <= -1,
                None => true,
            }),
    {
        if c == 1 {
            Some(EOFResult::Eof(true))
        } else if c == 0 {
            Some(EOFResult::Eof(false))
        } else {
            match DFSResult::from_code(c) {
                Some(e) => Some(EOFResult::Error(e)),
                None => None,
            }
        }
    }
}

/// What a directory listing step returned: the flags of the entry found,
/// or the error the native call reported.
#[derive(Clone, Copy, PartialEq, Eq, Structural, Debug)]
pub enum Flag_Error {
    /// The flag word of the entry found; its two low bits are the file type.
    Flags(i32),
    /// The error the native call reported.
    Error(DFSResult),
}

impl Flag_Error {
    /// The decoded meaning of a native directory-listing code, if it is in
    /// the documented range: flag values zero through three come back as
    /// flags, negative codes as errors.
    pub open spec fn spec_from_code(c: i32) -> Option<Flag_Error> {
        if 0 <= c <= 3 {
            Some(Flag_Error::Flags(c))
        } else {
            match DFSResult::spec_from_code(c) {
                Some(e) => Some(Flag_Error::Error(e)),
                None => None,
            }
        }
    }

    /// Decode a native directory-listing code; `None` on a code outside the
    /// documented range.
    pub fn from_code(c: i32) -> (r: Option<Flag_Error>)
        ensures
            r == Self::spec_from_code(c),
            r is Some <==> (-5 <= c <= 3),
            (match r {
                Some(Flag_Error::Flags(f)) => f == c && 0 <= c <= 3,
                Some(Flag_Error::Error(e)) => e.spec_code() == c && c <= -1,
                None => true,
            }),
    {
        if 0 <= c && c <= 3 {
            Some(Flag_Error::Flags(c))
        } else {
            match DFSResult::from_code(c) {
                Some(e) => Some(Flag_Error::Error(e)),
                None => None,
            }
        }
    }
}

} // verus!
