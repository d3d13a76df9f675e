use vstd::prelude::*;

verus! {

/// How the glyphs of a font are rendered.
#[derive(Debug, Clone, Copy, PartialEq, Eq, Hash, PartialOrd, Ord, Structural)]
pub enum FontType {
    Default,
    Bitmap,
    Sdf,
}

impl FontType {
    /// The native code of this value.
    pub open spec fn spec_code(self) -> u32 {
        match self {
            FontType::Default => 0,
            FontType::Bitmap => 1,
            FontType::Sdf => 2,
        }
    }

    /// The native code of this value.
    #[verifier::when_used_as_spec(spec_code)]
    pub fn code(self) -> (r: u32)
        ensures
            r == self.spec_code(),
    {
        match self {
            FontType::Default => 0,
            FontType::Bitmap => 1,
            FontType::Sdf => 2,
        }
    }
}

/// How glyphs are packed into a font atlas.
#[derive(Debug, Clone, Copy, PartialEq, Eq, Hash, PartialOrd, Ord, Structural)]
pub enum PackMethod {
    Default,
    Skyline,
}

impl PackMethod {
    /// The native code of this value.
    pub open spec fn spec_code(self) -> u32 {
        match self {
            PackMethod::Default => 0,
            PackMethod::Skyline => 1,
        }
    }

    /// The native code of this value.
    #[verifier::when_used_as_spec(spec_code)]
    pub fn code(self) -> (r: u32)
        ensures
            r == self.spec_code(),
    {
        match self {
            PackMethod::Default => 0,
            PackMethod::Skyline => 1,
        }
    }
}

} // verus!
