//! Hardware rasterizer (RDP) interface: the codes of the sync, mirror and
//! texture-flush enumerations, in the order the native C header declares
//! them.
use vstd::prelude::*;

verus! {

/// RDP sync operations.
#[derive(Clone, Copy, PartialEq, Eq, Structural, Debug)]
pub enum Sync {
    /// Wait for any operation to complete before causing a DP interrupt.
    SYNC_FULL,
    /// Sync the RDP pipeline.
    SYNC_PIPE,
    /// Block until all texture load operations are complete.
    SYNC_LOAD,
    /// Block until all tile operations are complete.
    SYNC_TILE,
}

impl Sync {
    /// The native code that stands for this variant.
    pub open spec fn spec_code(self) -> i32 {
        match self {
            Sync::SYNC_FULL => 0i32,
            Sync::SYNC_PIPE => 1i32,
            Sync::SYNC_LOAD => 2i32,
            Sync::SYNC_TILE => 3i32,
        }
    }

    /// The variant that a native code stands for, if any.
    pub open spec fn spec_from_code(c: i32) -> Option<Sync> {
        if c == 0i32 {
            Some(Sync::SYNC_FULL)
        } else if c == 1i32 {
            Some(Sync::SYNC_PIPE)
        } else if c == 2i32 {
            Some(Sync::SYNC_LOAD)
        } else if c == 3i32 {
            Some(Sync::SYNC_TILE)
        } else {
            None
        }
    }

    /// The native code of this variant, as the wrapped library defines it.
    pub fn code(self) -> (c: i32)
        ensures
            c == self.spec_code(),
    {
        match self {
            Sync::SYNC_FULL => 0i32,
            Sync::SYNC_PIPE => 1i32,
            Sync::SYNC_LOAD => 2i32,
            Sync::SYNC_TILE => 3i32,
        }
    }

    /// Decode a native code; `None` on a code outside the documented range.
    pub fn from_code(c: i32) -> (r: Option<Sync>)
        ensures
            r == Self::spec_from_code(c),
            r is Some <==> (c == 0i32 || c == 1i32 || c == 2i32 || c == 3i32),
    {
        if c == 0i32 {
            Some(Sync::SYNC_FULL)
        } else if c == 1i32 {
            Some(Sync::SYNC_PIPE)
        } else if c == 2i32 {
            Some(Sync::SYNC_LOAD)
        } else if c == 3i32 {
            Some(Sync::SYNC_TILE)
        } else {
            None
        }
    }

    /// Decoding the code of a variant yields that variant back.
    pub proof fn lemma_code_roundtrip(self)
        ensures
            Self::spec_from_code(self.spec_code()) == Some(self),
    {
    }

    /// A decoded variant carries exactly the code it was decoded from.
    pub proof fn lemma_from_code_exact(c: i32)
        ensures
            (match Self::spec_from_code(c) {
                Some(r) => r.spec_code() == c,
                None => true,
            }),
    {
    }
}

/// Mirror settings for textures.
#[derive(Clone, Copy, PartialEq, Eq, Structural, Debug)]
pub enum Mirror {
    MIRROR_DISABLED,
    MIRROR_X,
    MIRROR_Y,
    MIRROR_XY,
}

impl Mirror {
    /// The native code that stands for this variant.
    pub open spec fn spec_code(self) -> i32 {
        match self {
            Mirror::MIRROR_DISABLED => 0i32,
            Mirror::MIRROR_X => 1i32,
            Mirror::MIRROR_Y => 2i32,
            Mirror::MIRROR_XY => 3i32,
        }
    }

    /// The variant that a native code stands for, if any.
    pub open spec fn spec_from_code(c: i32) -> Option<Mirror> {
        if c == 0i32 {
            Some(Mirror::MIRROR_DISABLED)
        } else if c == 1i32 {
            Some(Mirror::MIRROR_X)
        } else if c == 2i32 {
            Some(Mirror::MIRROR_Y)
        } else if c == 3i32 {
            Some(Mirror::MIRROR_XY)
        } else {
            None
        }
    }

    /// The native code of this variant, as the wrapped library defines it.
    pub fn code(self) -> (c: i32)
        ensures
            c == self.spec_code(),
    {
        match self {
            Mirror::MIRROR_DISABLED => 0i32,
            Mirror::MIRROR_X => 1i32,
            Mirror::MIRROR_Y => 2i32,
            Mirror::MIRROR_XY => 3i32,
        }
    }

    /// Decode a native code; `None` on a code outside the documented range.
    pub fn from_code(c: i32) -> (r: Option<Mirror>)
        ensures
            r == Self::spec_from_code(c),
            r is Some <==> (c == 0i32 || c == 1i32 || c == 2i32 || c == 3i32),
    {
        if c == 0i32 {
            Some(Mirror::MIRROR_DISABLED)
        } else if c == 1i32 {
            Some(Mirror::MIRROR_X)
        } else if c == 2i32 {
            Some(Mirror::MIRROR_Y)
        } else if c == 3i32 {
            Some(Mirror::MIRROR_XY)
        } else {
            None
        }
    }

    /// Decoding the code of a variant yields that variant back.
    pub proof fn lemma_code_roundtrip(self)
        ensures
            Self::spec_from_code(self.spec_code()) == Some(self),
    {
    }

    /// A decoded variant carries exactly the code it was decoded from.
    pub proof fn lemma_from_code_exact(c: i32)
        ensures
            (match Self::spec_from_code(c) {
                Some(r) => r.spec_code() == c,
                None => true,
            }),
    {
    }
}

/// Caching strategy for loaded textures.
#[derive(Clone, Copy, PartialEq, Eq, Structural, Debug)]
pub enum Flush {
    FLUSH_STRATEGY_NONE,
    FLUSH_STRATEGY_AUTOMATIC,
}

impl Flush {
    /// The native code that stands for this variant.
    pub open spec fn spec_code(self) -> i32 {
        match self {
            Flush::FLUSH_STRATEGY_NONE => 0i32,
            Flush::FLUSH_STRATEGY_AUTOMATIC => 1i32,
        }
    }

    /// The variant that a native code stands for, if any.
    pub open spec fn spec_from_code(c: i32) -> Option<Flush> {
        if c == 0i32 {
            Some(Flush::FLUSH_STRATEGY_NONE)
        } else if c == 1i32 {
            Some(Flush::FLUSH_STRATEGY_AUTOMATIC)
        } else {
            None
        }
    }

    /// The native code of this variant, as the wrapped library defines it.
    pub fn code(self) -> (c: i32)
        ensures
            c == self.spec_code(),
    {
        match self {
            Flush::FLUSH_STRATEGY_NONE => 0i32,
            Flush::FLUSH_STRATEGY_AUTOMATIC => 1i32,
        }
    }

    /// Decode a native code; `None` on a code outside the documented range.
    pub fn from_code(c: i32) -> (r: Option<Flush>)
        ensures
            r == Self::spec_from_code(c),
            r is Some <==> (c == 0i32 || c == 1i32),
    {
        if c == 0i32 {
            Some(Flush::FLUSH_STRATEGY_NONE)
        } else if c == 1i32 {
            Some(Flush::FLUSH_STRATEGY_AUTOMATIC)
        } else {
            None
        }
    }

    /// Decoding the code of a variant yields that variant back.
    pub proof fn lemma_code_roundtrip(self)
        ensures
            Self::spec_from_code(self.spec_code()) == Some(self),
    {
    }

    /// A decoded variant carries exactly the code it was decoded from.
    pub proof fn lemma_from_code_exact(c: i32)
        ensures
            (match Self::spec_from_code(c) {
                Some(r) => r.spec_code() == c,
                None => true,
            }),
    {
    }
}

} // verus!
