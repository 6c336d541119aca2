//! Video system interface: the display context handle and the codes of the
//! video mode enumerations, in the order the native C header declares them.
use vstd::prelude::*;

verus! {

/// A drawing surface handle as the native display system hands it out;
/// zero means no free surface was available.
pub type DisplayContext = i32;

/// Frame buffer resolution of the video system.
#[derive(Clone, Copy, PartialEq, Eq, Structural, Debug)]
pub enum Resolution {
    RESOLUTION_320x240,
    RESOLUTION_640x480,
    RESOLUTION_256x240,
    RESOLUTION_512x480,
    RESOLUTION_512x240,
    RESOLUTION_640x240,
}

impl Resolution {
    /// The native code that stands for this variant.
    pub open spec fn spec_code(self) -> i32 {
        match self {
            Resolution::RESOLUTION_320x240 => 0i32,
            Resolution::RESOLUTION_640x480 => 1i32,
            Resolution::RESOLUTION_256x240 => 2i32,
            Resolution::RESOLUTION_512x480 => 3i32,
            Resolution::RESOLUTION_512x240 => 4i32,
            Resolution::RESOLUTION_640x240 => 5i32,
        }
    }

    /// The variant that a native code stands for, if any.
    pub open spec fn spec_from_code(c: i32) -> Option<Resolution> {
        if c == 0i32 {
            Some(Resolution::RESOLUTION_320x240)
        } else if c == 1i32 {
            Some(Resolution::RESOLUTION_640x480)
        } else if c == 2i32 {
            Some(Resolution::RESOLUTION_256x240)
        } else if c == 3i32 {
            Some(Resolution::RESOLUTION_512x480)
        } else if c == 4i32 {
            Some(Resolution::RESOLUTION_512x240)
        } else if c == 5i32 {
            Some(Resolution::RESOLUTION_640x240)
        } else {
            None
        }
    }

    /// The native code of this variant, as the wrapped library defines it.
    pub fn code(self) -> (c: i32)
        ensures
            c == self.spec_code(),
    {
        match self {
            Resolution::RESOLUTION_320x240 => 0i32,
            Resolution::RESOLUTION_640x480 => 1i32,
            Resolution::RESOLUTION_256x240 => 2i32,
            Resolution::RESOLUTION_512x480 => 3i32,
            Resolution::RESOLUTION_512x240 => 4i32,
            Resolution::RESOLUTION_640x240 => 5i32,
        }
    }

    /// Decode a native code; `None` on a code outside the documented range.
    pub fn from_code(c: i32) -> (r: Option<Resolution>)
        ensures
            r == Self::spec_from_code(c),
            r is Some <==> (c == 0i32 || c == 1i32 || c == 2i32 || c == 3i32 || c == 4i32 || c == 5i32),
    {
        if c == 0i32 {
            Some(Resolution::RESOLUTION_320x240)
        } else if c == 1i32 {
            Some(Resolution::RESOLUTION_640x480)
        } else if c == 2i32 {
            Some(Resolution::RESOLUTION_256x240)
        } else if c == 3i32 {
            Some(Resolution::RESOLUTION_512x480)
        } else if c == 4i32 {
            Some(Resolution::RESOLUTION_512x240)
        } else if c == 5i32 {
            Some(Resolution::RESOLUTION_640x240)
        } else {
            None
        }
    }

    /// Decoding the code of a variant yields that variant back.
    pub proof fn lemma_code_roundtrip(self)
        ensures
            Self::spec_from_code(self.spec_code()) == Some(self),
    {
    }

    /// A decoded variant carries exactly the code it was decoded from.
    pub proof fn lemma_from_code_exact(c: i32)
        ensures
            (match Self::spec_from_code(c) {
                Some(r) => r.spec_code() == c,
                None => true,
            }),
    {
    }
}

/// Pixel size of the frame buffer.
#[derive(Clone, Copy, PartialEq, Eq, Structural, Debug)]
pub enum BitDepth {
    DEPTH_16_BPP,
    DEPTH_32_BPP,
}

impl BitDepth {
    /// The native code that stands for this variant.
    pub open spec fn spec_code(self) -> i32 {
        match self {
            BitDepth::DEPTH_16_BPP => 0i32,
            BitDepth::DEPTH_32_BPP => 1i32,
        }
    }

    /// The variant that a native code stands for, if any.
    pub open spec fn spec_from_code(c: i32) -> Option<BitDepth> {
        if c == 0i32 {
            Some(BitDepth::DEPTH_16_BPP)
        } else if c == 1i32 {
            Some(BitDepth::DEPTH_32_BPP)
        } else {
            None
        }
    }

    /// The native code of this variant, as the wrapped library defines it.
    pub fn code(self) -> (c: i32)
        ensures
            c == self.spec_code(),
    {
        match self {
            BitDepth::DEPTH_16_BPP => 0i32,
            BitDepth::DEPTH_32_BPP => 1i32,
        }
    }

    /// Decode a native code; `None` on a code outside the documented range.
    pub fn from_code(c: i32) -> (r: Option<BitDepth>)
        ensures
            r == Self::spec_from_code(c),
            r is Some <==> (c == 0i32 || c == 1i32),
    {
        if c == 0i32 {
            Some(BitDepth::DEPTH_16_BPP)
        } else if c == 1i32 {
            Some(BitDepth::DEPTH_32_BPP)
        } else {
            None
        }
    }

    /// Decoding the code of a variant yields that variant back.
    pub proof fn lemma_code_roundtrip(self)
        ensures
            Self::spec_from_code(self.spec_code()) == Some(self),
    {
    }

    /// A decoded variant carries exactly the code it was decoded from.
    pub proof fn lemma_from_code_exact(c: i32)
        ensures
            (match Self::spec_from_code(c) {
                Some(r) => r.spec_code() == c,
                None => true,
            }),
    {
    }
}

/// Gamma correction setting of the video interface.
#[derive(Clone, Copy, PartialEq, Eq, Structural, Debug)]
pub enum Gamma {
    GAMMA_NONE,
    GAMMA_CORRECT,
    GAMMA_CORRECT_DITHER,
}

impl Gamma {
    /// The native code that stands for this variant.
    pub open spec fn spec_code(self) -> i32 {
        match self {
            Gamma::GAMMA_NONE => 0i32,
            Gamma::GAMMA_CORRECT => 1i32,
            Gamma::GAMMA_CORRECT_DITHER => 2i32,
        }
    }

    /// The variant that a native code stands for, if any.
    pub open spec fn spec_from_code(c: i32) -> Option<Gamma> {
        if c == 0i32 {
            Some(Gamma::GAMMA_NONE)
        } else if c == 1i32 {
            Some(Gamma::GAMMA_CORRECT)
        } else if c == 2i32 {
            Some(Gamma::GAMMA_CORRECT_DITHER)
        } else {
            None
        }
    }

    /// The native code of this variant, as the wrapped library defines it.
    pub fn code(self) -> (c: i32)
        ensures
            c == self.spec_code(),
    {
        match self {
            Gamma::GAMMA_NONE => 0i32,
            Gamma::GAMMA_CORRECT => 1i32,
            Gamma::GAMMA_CORRECT_DITHER => 2i32,
        }
    }

    /// Decode a native code; `None` on a code outside the documented range.
    pub fn from_code(c: i32) -> (r: Option<Gamma>)
        ensures
            r == Self::spec_from_code(c),
            r is Some <==> (c == 0i32 || c == 1i32 || c == 2i32),
    {
        if c == 0i32 {
            Some(Gamma::GAMMA_NONE)
        } else if c == 1i32 {
            Some(Gamma::GAMMA_CORRECT)
        } else if c == 2i32 {
            Some(Gamma::GAMMA_CORRECT_DITHER)
        } else {
            None
        }
    }

    /// Decoding the code of a variant yields that variant back.
    pub proof fn lemma_code_roundtrip(self)
        ensures
            Self::spec_from_code(self.spec_code()) == Some(self),
    {
    }

    /// A decoded variant carries exactly the code it was decoded from.
    pub proof fn lemma_from_code_exact(c: i32)
        ensures
            (match Self::spec_from_code(c) {
                Some(r) => r.spec_code() == c,
                None => true,
            }),
    {
    }
}

/// Anti-aliasing setting of the video interface.
#[derive(Clone, Copy, PartialEq, Eq, Structural, Debug)]
pub enum AntiAlias {
    ANTIALIAS_OFF,
    ANTIALIAS_RESAMPLE,
    ANTIALIAS_RESAMPLE_FETCH_NEEDED,
    ANTIALIAS_RESAMPLE_FETCH_ALWAYS,
}

impl AntiAlias {
    /// The native code that stands for this variant.
    pub open spec fn spec_code(self) -> i32 {
        match self {
            AntiAlias::ANTIALIAS_OFF => 0i32,
            AntiAlias::ANTIALIAS_RESAMPLE => 1i32,
            AntiAlias::ANTIALIAS_RESAMPLE_FETCH_NEEDED => 2i32,
            AntiAlias::ANTIALIAS_RESAMPLE_FETCH_ALWAYS => 3i32,
        }
    }

    /// The variant that a native code stands for, if any.
    pub open spec fn spec_from_code(c: i32) -> Option<AntiAlias> {
        if c == 0i32 {
            Some(AntiAlias::ANTIALIAS_OFF)
        } else if c == 1i32 {
            Some(AntiAlias::ANTIALIAS_RESAMPLE)
        } else if c == 2i32 {
            Some(AntiAlias::ANTIALIAS_RESAMPLE_FETCH_NEEDED)
        } else if c == 3i32 {
            Some(AntiAlias::ANTIALIAS_RESAMPLE_FETCH_ALWAYS)
        } else {
            None
        }
    }

    /// The native code of this variant, as the wrapped library defines it.
    pub fn code(self) -> (c: i32)
        ensures
            c == self.spec_code(),
    {
        match self {
            AntiAlias::ANTIALIAS_OFF => 0i32,
            AntiAlias::ANTIALIAS_RESAMPLE => 1i32,
            AntiAlias::ANTIALIAS_RESAMPLE_FETCH_NEEDED => 2i32,
            AntiAlias::ANTIALIAS_RESAMPLE_FETCH_ALWAYS => 3i32,
        }
    }

    /// Decode a native code; `None` on a code outside the documented range.
    pub fn from_code(c: i32) -> (r: Option<AntiAlias>)
        ensures
            r == Self::spec_from_code(c),
            r is Some <==> (c == 0i32 || c == 1i32 || c == 2i32 || c == 3i32),
    {
        if c == 0i32 {
            Some(AntiAlias::ANTIALIAS_OFF)
        } else if c == 1i32 {
            Some(AntiAlias::ANTIALIAS_RESAMPLE)
        } else if c == 2i32 {
            Some(AntiAlias::ANTIALIAS_RESAMPLE_FETCH_NEEDED)
        } else if c == 3i32 {
            Some(AntiAlias::ANTIALIAS_RESAMPLE_FETCH_ALWAYS)
        } else {
            None
        }
    }

    /// Decoding the code of a variant yields that variant back.
    pub proof fn lemma_code_roundtrip(self)
        ensures
            Self::spec_from_code(self.spec_code()) == Some(self),
    {
    }

    /// A decoded variant carries exactly the code it was decoded from.
    pub proof fn lemma_from_code_exact(c: i32)
        ensures
            (match Self::spec_from_code(c) {
                Some(r) => r.spec_code() == c,
                None => true,
            }),
    {
    }
}

} // verus!
