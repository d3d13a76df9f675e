use crate::structs::{Rectangle, Size};
use vstd::prelude::*;

verus! {

/// How an n-patch texture is cut.
#[derive(Debug, Clone, Copy, PartialEq, Eq, Hash, PartialOrd, Ord, Structural)]
pub enum NpatchLayout {
    NinePatch,
    ThreePatchVertical,
    ThreePatchHorizontal,
}

impl NpatchLayout {
    /// The native code of this value.
    pub open spec fn spec_code(self) -> u32 {
        match self {
            NpatchLayout::NinePatch => 0,
            NpatchLayout::ThreePatchVertical => 1,
            NpatchLayout::ThreePatchHorizontal => 2,
        }
    }

    /// The native code of this value.
    #[verifier::when_used_as_spec(spec_code)]
    pub fn code(self) -> (r: u32)
        ensures
            r == self.spec_code(),
    {
        match self {
            NpatchLayout::NinePatch => 0,
            NpatchLayout::ThreePatchVertical => 1,
            NpatchLayout::ThreePatchHorizontal => 2,
        }
    }
}

/// How the faces of a cubemap are laid out in its image.
#[derive(Debug, Clone, Copy, PartialEq, Eq, Hash, PartialOrd, Ord, Structural)]
pub enum CubemapLayout {
    AutoDetect,
    LineVertial,
    LineHorizontal,
    CrossThreeByFour,
    CrossFourByThree,
    Panorama,
}

impl CubemapLayout {
    /// The native code of this value.
    pub open spec fn spec_code(self) -> u32 {
        match self {
            CubemapLayout::AutoDetect => 0,
            CubemapLayout::LineVertial => 1,
            CubemapLayout::LineHorizontal => 2,
            CubemapLayout::CrossThreeByFour => 3,
            CubemapLayout::CrossFourByThree => 4,
            CubemapLayout::Panorama => 5,
        }
    }

    /// The native code of this value.
    #[verifier::when_used_as_spec(spec_code)]
    pub fn code(self) -> (r: u32)
        ensures
            r == self.spec_code(),
    {
        match self {
            CubemapLayout::AutoDetect => 0,
            CubemapLayout::LineVertial => 1,
            CubemapLayout::LineHorizontal => 2,
            CubemapLayout::CrossThreeByFour => 3,
            CubemapLayout::CrossFourByThree => 4,
            CubemapLayout::Panorama => 5,
        }
    }
}

/// How a texture is sampled.
#[derive(Debug, Clone, Copy, PartialEq, Eq, Hash, PartialOrd, Ord, Structural)]
pub enum TextureFilter {
    Point,
    Bilinear,
    Trilinear,
    Anisotropic4x,
    Anisotropic8x,
    Anisotoropic16x,
}

impl TextureFilter {
    /// The native code of this value.
    pub open spec fn spec_code(self) -> u32 {
        match self {
            TextureFilter::Point => 0,
            TextureFilter::Bilinear => 1,
            TextureFilter::Trilinear => 2,
            TextureFilter::Anisotropic4x => 3,
            TextureFilter::Anisotropic8x => 4,
            TextureFilter::Anisotoropic16x => 5,
        }
    }

    /// The native code of this value.
    #[verifier::when_used_as_spec(spec_code)]
    pub fn code(self) -> (r: u32)
        ensures
            r == self.spec_code(),
    {
        match self {
            TextureFilter::Point => 0,
            TextureFilter::Bilinear => 1,
            TextureFilter::Trilinear => 2,
            TextureFilter::Anisotropic4x => 3,
            TextureFilter::Anisotropic8x => 4,
            TextureFilter::Anisotoropic16x => 5,
        }
    }
}

/// What a texture gives outside its bounds.
#[derive(Debug, Clone, Copy, PartialEq, Eq, Hash, PartialOrd, Ord, Structural)]
pub enum TextureWrap {
    Repeat,
    Clamp,
    MirrorRepeat,
    MirrorClamp,
}

impl TextureWrap {
    /// The native code of this value.
    pub open spec fn spec_code(self) -> u32 {
        match self {
            TextureWrap::Repeat => 0,
            TextureWrap::Clamp => 1,
            TextureWrap::MirrorRepeat => 2,
            TextureWrap::MirrorClamp => 3,
        }
    }

    /// The native code of this value.
    #[verifier::when_used_as_spec(spec_code)]
    pub fn code(self) -> (r: u32)
        ensures
            r == self.spec_code(),
    {
        match self {
            TextureWrap::Repeat => 0,
            TextureWrap::Clamp => 1,
            TextureWrap::MirrorRepeat => 2,
            TextureWrap::MirrorClamp => 3,
        }
    }
}

/// How the pixels of an image or texture are stored.
#[derive(Debug, Clone, Copy, PartialEq, Eq, Hash, PartialOrd, Ord, Structural)]
pub enum PixelFormat {
    UncompressedGrayscale,
    UncompressedGrayAlpha,
    UncompressedR5g6b5,
    UncompressedR8g8b8,
    UncompressedR5g5b5a1,
    UncompressedR4g4b4a4,
    UncompressedR8g8b8a8,
    UncompressedR32,
    UncompressedR32g32b32,
    UncompressedR32g32b32a32,
    CompressedDxt1Rgb,
    CompressedDxt1Rgba,
    CompressedDxt3Rgba,
    CompressedDxt5Rgba,
    CompressedEtc1Rgb,
    CompressedEtc2Rgb,
    CompressedEtc2EacRgba,
    CompressedPvrtRgb,
    CompressedPvrtRgba,
    CompressedAstc4x4Rgba,
    CompressedAstc8x8Rgba,
}

impl PixelFormat {
    /// The native code of this value.
    pub open spec fn spec_code(self) -> u32 {
        match self {
            PixelFormat::UncompressedGrayscale => 1,
            PixelFormat::UncompressedGrayAlpha => 2,
            PixelFormat::UncompressedR5g6b5 => 3,
            PixelFormat::UncompressedR8g8b8 => 4,
            PixelFormat::UncompressedR5g5b5a1 => 5,
            PixelFormat::UncompressedR4g4b4a4 => 6,
            PixelFormat::UncompressedR8g8b8a8 => 7,
            PixelFormat::UncompressedR32 => 8,
            PixelFormat::UncompressedR32g32b32 => 9,
            PixelFormat::UncompressedR32g32b32a32 => 10,
            PixelFormat::CompressedDxt1Rgb => 11,
            PixelFormat::CompressedDxt1Rgba => 12,
            PixelFormat::CompressedDxt3Rgba => 13,
            PixelFormat::CompressedDxt5Rgba => 14,
            PixelFormat::CompressedEtc1Rgb => 15,
            PixelFormat::CompressedEtc2Rgb => 16,
            PixelFormat::CompressedEtc2EacRgba => 17,
            PixelFormat::CompressedPvrtRgb => 18,
            PixelFormat::CompressedPvrtRgba => 19,
            PixelFormat::CompressedAstc4x4Rgba => 20,
            PixelFormat::CompressedAstc8x8Rgba => 21,
        }
    }

    /// The native code of this value.
    #[verifier::when_used_as_spec(spec_code)]
    pub fn code(self) -> (r: u32)
        ensures
            r == self.spec_code(),
    {
        match self {
            PixelFormat::UncompressedGrayscale => 1,
            PixelFormat::UncompressedGrayAlpha => 2,
            PixelFormat::UncompressedR5g6b5 => 3,
            PixelFormat::UncompressedR8g8b8 => 4,
            PixelFormat::UncompressedR5g5b5a1 => 5,
            PixelFormat::UncompressedR4g4b4a4 => 6,
            PixelFormat::UncompressedR8g8b8a8 => 7,
            PixelFormat::UncompressedR32 => 8,
            PixelFormat::UncompressedR32g32b32 => 9,
            PixelFormat::UncompressedR32g32b32a32 => 10,
            PixelFormat::CompressedDxt1Rgb => 11,
            PixelFormat::CompressedDxt1Rgba => 12,
            PixelFormat::CompressedDxt3Rgba => 13,
            PixelFormat::CompressedDxt5Rgba => 14,
            PixelFormat::CompressedEtc1Rgb => 15,
            PixelFormat::CompressedEtc2Rgb => 16,
            PixelFormat::CompressedEtc2EacRgba => 17,
            PixelFormat::CompressedPvrtRgb => 18,
            PixelFormat::CompressedPvrtRgba => 19,
            PixelFormat::CompressedAstc4x4Rgba => 20,
            PixelFormat::CompressedAstc8x8Rgba => 21,
        }
    }
}

/// How an n-patch texture is cut: the source area, the widths of its borders, and the
/// layout.
#[derive(Debug, Clone, Copy, PartialEq, Eq, Structural)]
pub struct NpatchInfo {
    pub source: Rectangle,
    pub left: i32,
    pub top: i32,
    pub right: i32,
    pub bottom: i32,
    pub layout: NpatchLayout,
}

/// A texture in GPU memory, as the native library describes it. The native library
/// reports a failed load with the identifier zero.
#[derive(Debug, PartialEq, Eq, Structural)]
pub struct Texture {
    pub id: u32,
    pub width: i32,
    pub height: i32,
    pub mipmaps: i32,
    pub format: i32,
}

impl Texture {
    /// The texture that a load returned, or `None` where the load failed.
    pub fn from_loaded(raw: Texture) -> (r: Option<Texture>)
        ensures
            raw.id == 0 ==> r is None,
            raw.id != 0 ==> r == Some(raw),
    {
        if raw.id == 0 {
            None
        } else {
            Some(raw)
        }
    }

    /// The size of the texture in pixels; a negative dimension counts as zero.
    pub fn size(&self) -> (r: Size)
        ensures
            r.width == if self.width < 0 {
                0
            } else {
                self.width as u32
            },
            r.height == if self.height < 0 {
                0
            } else {
                self.height as u32
            },
    {
        let width: u32 = if self.width < 0 {
            0
        } else {
            self.width as u32
        };
        let height: u32 = if self.height < 0 {
            0
        } else {
            self.height as u32
        };
        Size { width, height }
    }
}

/// A render target: a framebuffer with its color and depth textures. The native library
/// reports a failed load with the framebuffer identifier zero.
#[derive(Debug, PartialEq, Eq, Structural)]
pub struct RenderTexture {
    pub id: u32,
    pub texture: Texture,
    pub depth: Texture,
}

impl RenderTexture {
    /// The render target that a load returned, or `None` where the load failed.
    pub fn from_loaded(raw: RenderTexture) -> (r: Option<RenderTexture>)
        ensures
            raw.id == 0 ==> r is None,
            raw.id != 0 ==> r == Some(raw),
    {
        if raw.id == 0 {
            None
        } else {
            Some(raw)
        }
    }
}

} // verus!
