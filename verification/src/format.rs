//! Texel formats: their blocks, aspects, view compatibility and Vulkan numbers.

use crate::vulkan::{
    ASPECT_COLOR, ASPECT_DEPTH, ASPECT_STENCIL, FORMAT_R8_SRGB, FORMAT_R8G8_SRGB,
    FORMAT_R8G8B8A8_SRGB, FORMAT_B8G8R8A8_SRGB, FORMAT_R4G4B4A4_UNORM_PACK16,
    FORMAT_R5G5B5A1_UNORM_PACK16, FORMAT_R5G6B5_UNORM_PACK16, FORMAT_R8_UNORM, FORMAT_R8G8_UNORM,
    FORMAT_R8G8B8A8_UNORM, FORMAT_B8G8R8A8_UNORM, FORMAT_R16_UNORM, FORMAT_R16G16_UNORM,
    FORMAT_R16G16B16A16_UNORM, FORMAT_R8_UINT, FORMAT_R8G8_UINT, FORMAT_R8G8B8A8_UINT,
    FORMAT_B8G8R8A8_UINT, FORMAT_R16_UINT, FORMAT_R16G16_UINT, FORMAT_R16G16B16A16_UINT,
    FORMAT_R32_UINT, FORMAT_R32G32_UINT, FORMAT_R32G32B32_UINT, FORMAT_R32G32B32A32_UINT,
    FORMAT_R16_SFLOAT, FORMAT_R16G16_SFLOAT, FORMAT_R16G16B16A16_SFLOAT, FORMAT_R32_SFLOAT,
    FORMAT_R32G32_SFLOAT, FORMAT_R32G32B32_SFLOAT, FORMAT_R32G32B32A32_SFLOAT,
    FORMAT_A2B10G10R10_UNORM_PACK32, FORMAT_B10G11R11_UFLOAT_PACK32, FORMAT_D16_UNORM,
    FORMAT_D24_UNORM_S8_UINT, FORMAT_D32_SFLOAT, FORMAT_S8_UINT, FORMAT_D32_SFLOAT_S8_UINT,
    FORMAT_EAC_R11G11_UNORM_BLOCK, FORMAT_ASTC_4X4_SRGB_BLOCK, FORMAT_ASTC_4X4_UNORM_BLOCK,
    FORMAT_BC3_SRGB_BLOCK, FORMAT_BC3_UNORM_BLOCK, FORMAT_BC5_UNORM_BLOCK, FORMAT_BC7_SRGB_BLOCK,
    FORMAT_BC7_UNORM_BLOCK, FORMAT_UNDEFINED,
};
use vstd::prelude::*;

verus! {

/// Texel formats.
#[derive(Clone, Copy, Debug, PartialEq, Eq, Structural)]
pub enum Format {
    R8Srgb,
    Rg8Srgb,
    Rgba8Srgb,
    Bgra8Srgb,
    Rgba4Unorm,
    R5g5b5a1Unorm,
    R5g6b5Unorm,
    R8Unorm,
    Rg8Unorm,
    Rgba8Unorm,
    Bgra8Unorm,
    R16Unorm,
    Rg16Unorm,
    Rgba16Unorm,
    R8Uint,
    Rg8Uint,
    Rgba8Uint,
    Bgra8Uint,
    R16Uint,
    Rg16Uint,
    Rgba16Uint,
    R32Uint,
    Rg32Uint,
    Rgb32Uint,
    Rgba32Uint,
    R16Float,
    Rg16Float,
    Rgba16Float,
    R32Float,
    Rg32Float,
    Rgb32Float,
    Rgba32Float,
    Rgb10a2Unorm,
    Rg11b10Float,
    D16Unorm,
    D24UnormS8Uint,
    D32Float,
    S8Uint,
    D32FloatS8Uint,
    EacRg,
    Astc4x4Srgb,
    Astc4x4Unorm,
    Bc3Srgb,
    Bc3Unorm,
    Bc5Rg,
    Bc7Srgb,
    Bc7Unorm,
    Undefined,
}

/// A pair of 32-bit numbers.
#[derive(Clone, Copy, Debug, PartialEq, Eq, Structural)]
pub struct Uint32x2 {
    pub x: u32,
    pub y: u32,
}

impl Default for Uint32x2 {
    fn default() -> (r: Self)
        ensures
            r == (Uint32x2 { x: 0, y: 0 }),
    {
        Uint32x2 { x: 0, y: 0 }
    }
}

/// How a format stores texels.
#[derive(Clone, Copy, Debug, PartialEq, Eq, Structural)]
pub struct TextureFormatInfo {
    /// Texels that one block covers.
    pub block_extent: Uint32x2,
    pub bytes_per_block: u32,
    /// Whether the format has a depth aspect.
    pub depth: bool,
    /// Whether the format has a stencil aspect.
    pub stencil: bool,
}

impl Default for TextureFormatInfo {
    fn default() -> (r: Self)
        ensures
            r == (TextureFormatInfo {
                block_extent: Uint32x2 { x: 0, y: 0 },
                bytes_per_block: 0,
                depth: false,
                stencil: false,
            }),
    {
        TextureFormatInfo {
            block_extent: Uint32x2 { x: 0, y: 0 },
            bytes_per_block: 0,
            depth: false,
            stencil: false,
        }
    }
}

/// The number of formats besides `Undefined`.
pub const FORMAT_COUNT: usize = 47;

/// Bytes of one block.
pub open spec fn bytes_per_block(format: Format) -> u32 {
    match format {
        Format::R8Srgb | Format::R8Unorm | Format::R8Uint | Format::S8Uint => 1,
        Format::Rg8Srgb | Format::Rgba4Unorm | Format::R5g5b5a1Unorm | Format::R5g6b5Unorm
        | Format::Rg8Unorm | Format::R16Unorm | Format::Rg8Uint | Format::R16Uint
        | Format::R16Float | Format::D16Unorm => 2,
        Format::Rgba8Srgb | Format::Bgra8Srgb | Format::Rgba8Unorm | Format::Bgra8Unorm
        | Format::Rg16Unorm | Format::Rgba8Uint | Format::Bgra8Uint | Format::Rg16Uint
        | Format::R32Uint | Format::Rg16Float | Format::R32Float | Format::Rgb10a2Unorm
        | Format::Rg11b10Float | Format::D24UnormS8Uint | Format::D32Float => 4,
        Format::Rgba16Unorm | Format::Rgba16Uint | Format::Rg32Uint | Format::Rgba16Float
        | Format::Rg32Float | Format::D32FloatS8Uint => 8,
        Format::Rgb32Uint | Format::Rgb32Float => 12,
        Format::Rgba32Uint | Format::Rgba32Float => 16,
        Format::EacRg | Format::Astc4x4Srgb | Format::Astc4x4Unorm | Format::Bc3Srgb
        | Format::Bc3Unorm | Format::Bc5Rg | Format::Bc7Srgb | Format::Bc7Unorm => 16,
        Format::Undefined => 0,
    }
}

/// Edge of one block, in texels: 4 for the compressed formats, 1 for the others.
pub open spec fn block_edge(format: Format) -> u32 {
    match format {
        Format::EacRg | Format::Astc4x4Srgb | Format::Astc4x4Unorm | Format::Bc3Srgb
        | Format::Bc3Unorm | Format::Bc5Rg | Format::Bc7Srgb | Format::Bc7Unorm => 4,
        Format::Undefined => 0,
        _ => 1,
    }
}

/// Whether the format has a depth aspect.
pub open spec fn has_depth(format: Format) -> bool {
    format is D16Unorm || format is D24UnormS8Uint || format is D32Float || format is D32FloatS8Uint
}

/// Whether the format has a stencil aspect.
pub open spec fn has_stencil(format: Format) -> bool {
    format is S8Uint || format is D24UnormS8Uint || format is D32FloatS8Uint
}

/// How `format` stores texels.
pub open spec fn format_info(format: Format) -> TextureFormatInfo {
    TextureFormatInfo {
        block_extent: Uint32x2 { x: block_edge(format), y: block_edge(format) },
        bytes_per_block: bytes_per_block(format),
        depth: has_depth(format),
        stencil: has_stencil(format),
    }
}

/// How `format` stores texels.
pub fn get_texture_format_info(format: Format) -> (r: TextureFormatInfo)
    ensures
        r == format_info(format),
{
    let (bytes, block): (u32, u32) = match format {
        Format::R8Srgb | Format::R8Unorm | Format::R8Uint | Format::S8Uint => (1, 1),
        Format::Rg8Srgb | Format::Rgba4Unorm | Format::R5g5b5a1Unorm | Format::R5g6b5Unorm
        | Format::Rg8Unorm | Format::R16Unorm | Format::Rg8Uint | Format::R16Uint
        | Format::R16Float | Format::D16Unorm => (2, 1),
        Format::Rgba8Srgb | Format::Bgra8Srgb | Format::Rgba8Unorm | Format::Bgra8Unorm
        | Format::Rg16Unorm | Format::Rgba8Uint | Format::Bgra8Uint | Format::Rg16Uint
        | Format::R32Uint | Format::Rg16Float | Format::R32Float | Format::Rgb10a2Unorm
        | Format::Rg11b10Float | Format::D24UnormS8Uint | Format::D32Float => (4, 1),
        Format::Rgba16Unorm | Format::Rgba16Uint | Format::Rg32Uint | Format::Rgba16Float
        | Format::Rg32Float | Format::D32FloatS8Uint => (8, 1),
        Format::Rgb32Uint | Format::Rgb32Float => (12, 1),
        Format::Rgba32Uint | Format::Rgba32Float => (16, 1),
        Format::EacRg | Format::Astc4x4Srgb | Format::Astc4x4Unorm | Format::Bc3Srgb
        | Format::Bc3Unorm | Format::Bc5Rg | Format::Bc7Srgb | Format::Bc7Unorm => (16, 4),
        Format::Undefined => (0, 0),
    };
    TextureFormatInfo {
        block_extent: Uint32x2 { x: block, y: block },
        bytes_per_block: bytes,
        depth: matches!(
            format,
            Format::D16Unorm | Format::D24UnormS8Uint | Format::D32Float | Format::D32FloatS8Uint
        ),
        stencil: matches!(
            format,
            Format::S8Uint | Format::D24UnormS8Uint | Format::D32FloatS8Uint
        ),
    }
}

/// Two formats that hold the same compressed blocks and differ in the transfer function alone.
pub open spec fn srgb_pair(a: Format, b: Format) -> bool {
    ||| a is Astc4x4Unorm && b is Astc4x4Srgb
    ||| a is Astc4x4Srgb && b is Astc4x4Unorm
    ||| a is Bc3Unorm && b is Bc3Srgb
    ||| a is Bc3Srgb && b is Bc3Unorm
    ||| a is Bc7Unorm && b is Bc7Srgb
    ||| a is Bc7Srgb && b is Bc7Unorm
}

/// An uncompressed color format.
pub open spec fn is_plain_color(format: Format) -> bool {
    block_edge(format) == 1 && !has_depth(format) && !has_stencil(format)
}

/// Whether an image of format `image` can be viewed as `view`: the same format, two plain color
/// formats of the same size, or a compressed format and its sRGB counterpart.
pub open spec fn view_compatible(image: Format, view: Format) -> bool {
    ||| image == view
    ||| is_plain_color(image) && is_plain_color(view) && bytes_per_block(image) == bytes_per_block(
        view,
    )
    ||| srgb_pair(image, view)
}

/// Whether an image of format `image` can be viewed as `view`.
pub fn compatible_view_formats(image: Format, view: Format) -> (r: bool)
    ensures
        r == view_compatible(image, view),
{
    if image == view {
        return true;
    }
    let a = get_texture_format_info(image);
    let b = get_texture_format_info(view);
    if a.depth || a.stencil || b.depth || b.stencil {
        return false;
    }
    if a.block_extent.x == 1 && b.block_extent.x == 1 {
        return a.bytes_per_block != 0 && a.bytes_per_block == b.bytes_per_block;
    }
    match (image, view) {
        (Format::Astc4x4Unorm, Format::Astc4x4Srgb)
        | (Format::Astc4x4Srgb, Format::Astc4x4Unorm)
        | (Format::Bc3Unorm, Format::Bc3Srgb)
        | (Format::Bc3Srgb, Format::Bc3Unorm)
        | (Format::Bc7Unorm, Format::Bc7Srgb)
        | (Format::Bc7Srgb, Format::Bc7Unorm) => true,
        _ => false,
    }
}

/// The aspects of an image of the format: depth and stencil as far as it has them, else color.
pub open spec fn aspects_of(format: Format) -> u32 {
    if has_depth(format) && has_stencil(format) {
        ASPECT_DEPTH | ASPECT_STENCIL
    } else if has_depth(format) {
        ASPECT_DEPTH
    } else if has_stencil(format) {
        ASPECT_STENCIL
    } else {
        ASPECT_COLOR
    }
}

/// The Vulkan aspect mask of an image of the format.
pub fn image_aspects(format: Format) -> (r: u32)
    ensures
        r == aspects_of(format),
{
    let info = get_texture_format_info(format);
    let mut result: u32 = 0;
    if info.depth {
        result = result | ASPECT_DEPTH;
    }
    if info.stencil {
        result = result | ASPECT_STENCIL;
    }
    proof {
        assert(0u32 | 2u32 == 2) by (bit_vector);
        assert(0u32 | 4u32 == 4) by (bit_vector);
        assert(2u32 | 4u32 != 0) by (bit_vector);
    }
    if result == 0 {
        result = ASPECT_COLOR;
    }
    result
}

impl Format {
    /// The Vulkan format.
    pub open spec fn spec_vk(self) -> i32 {
        match self {
            Format::R8Srgb => FORMAT_R8_SRGB,
            Format::Rg8Srgb => FORMAT_R8G8_SRGB,
            Format::Rgba8Srgb => FORMAT_R8G8B8A8_SRGB,
            Format::Bgra8Srgb => FORMAT_B8G8R8A8_SRGB,
            Format::Rgba4Unorm => FORMAT_R4G4B4A4_UNORM_PACK16,
            Format::R5g5b5a1Unorm => FORMAT_R5G5B5A1_UNORM_PACK16,
            Format::R5g6b5Unorm => FORMAT_R5G6B5_UNORM_PACK16,
            Format::R8Unorm => FORMAT_R8_UNORM,
            Format::Rg8Unorm => FORMAT_R8G8_UNORM,
            Format::Rgba8Unorm => FORMAT_R8G8B8A8_UNORM,
            Format::Bgra8Unorm => FORMAT_B8G8R8A8_UNORM,
            Format::R16Unorm => FORMAT_R16_UNORM,
            Format::Rg16Unorm => FORMAT_R16G16_UNORM,
            Format::Rgba16Unorm => FORMAT_R16G16B16A16_UNORM,
            Format::R8Uint => FORMAT_R8_UINT,
            Format::Rg8Uint => FORMAT_R8G8_UINT,
            Format::Rgba8Uint => FORMAT_R8G8B8A8_UINT,
            Format::Bgra8Uint => FORMAT_B8G8R8A8_UINT,
            Format::R16Uint => FORMAT_R16_UINT,
            Format::Rg16Uint => FORMAT_R16G16_UINT,
            Format::Rgba16Uint => FORMAT_R16G16B16A16_UINT,
            Format::R32Uint => FORMAT_R32_UINT,
            Format::Rg32Uint => FORMAT_R32G32_UINT,
            Format::Rgb32Uint => FORMAT_R32G32B32_UINT,
            Format::Rgba32Uint => FORMAT_R32G32B32A32_UINT,
            Format::R16Float => FORMAT_R16_SFLOAT,
            Format::Rg16Float => FORMAT_R16G16_SFLOAT,
            Format::Rgba16Float => FORMAT_R16G16B16A16_SFLOAT,
            Format::R32Float => FORMAT_R32_SFLOAT,
            Format::Rg32Float => FORMAT_R32G32_SFLOAT,
            Format::Rgb32Float => FORMAT_R32G32B32_SFLOAT,
            Format::Rgba32Float => FORMAT_R32G32B32A32_SFLOAT,
            Format::Rgb10a2Unorm => FORMAT_A2B10G10R10_UNORM_PACK32,
            Format::Rg11b10Float => FORMAT_B10G11R11_UFLOAT_PACK32,
            Format::D16Unorm => FORMAT_D16_UNORM,
            Format::D24UnormS8Uint => FORMAT_D24_UNORM_S8_UINT,
            Format::D32Float => FORMAT_D32_SFLOAT,
            Format::S8Uint => FORMAT_S8_UINT,
            Format::D32FloatS8Uint => FORMAT_D32_SFLOAT_S8_UINT,
            Format::EacRg => FORMAT_EAC_R11G11_UNORM_BLOCK,
            Format::Astc4x4Srgb => FORMAT_ASTC_4X4_SRGB_BLOCK,
            Format::Astc4x4Unorm => FORMAT_ASTC_4X4_UNORM_BLOCK,
            Format::Bc3Srgb => FORMAT_BC3_SRGB_BLOCK,
            Format::Bc3Unorm => FORMAT_BC3_UNORM_BLOCK,
            Format::Bc5Rg => FORMAT_BC5_UNORM_BLOCK,
            Format::Bc7Srgb => FORMAT_BC7_SRGB_BLOCK,
            Format::Bc7Unorm => FORMAT_BC7_UNORM_BLOCK,
            Format::Undefined => FORMAT_UNDEFINED,
        }
    }

    /// The Vulkan format.
    pub fn vk(self) -> (r: i32)
        ensures
            r == self.spec_vk(),
    {
        match self {
            Format::R8Srgb => FORMAT_R8_SRGB,
            Format::Rg8Srgb => FORMAT_R8G8_SRGB,
            Format::Rgba8Srgb => FORMAT_R8G8B8A8_SRGB,
            Format::Bgra8Srgb => FORMAT_B8G8R8A8_SRGB,
            Format::Rgba4Unorm => FORMAT_R4G4B4A4_UNORM_PACK16,
            Format::R5g5b5a1Unorm => FORMAT_R5G5B5A1_UNORM_PACK16,
            Format::R5g6b5Unorm => FORMAT_R5G6B5_UNORM_PACK16,
            Format::R8Unorm => FORMAT_R8_UNORM,
            Format::Rg8Unorm => FORMAT_R8G8_UNORM,
            Format::Rgba8Unorm => FORMAT_R8G8B8A8_UNORM,
            Format::Bgra8Unorm => FORMAT_B8G8R8A8_UNORM,
            Format::R16Unorm => FORMAT_R16_UNORM,
            Format::Rg16Unorm => FORMAT_R16G16_UNORM,
            Format::Rgba16Unorm => FORMAT_R16G16B16A16_UNORM,
            Format::R8Uint => FORMAT_R8_UINT,
            Format::Rg8Uint => FORMAT_R8G8_UINT,
            Format::Rgba8Uint => FORMAT_R8G8B8A8_UINT,
            Format::Bgra8Uint => FORMAT_B8G8R8A8_UINT,
            Format::R16Uint => FORMAT_R16_UINT,
            Format::Rg16Uint => FORMAT_R16G16_UINT,
            Format::Rgba16Uint => FORMAT_R16G16B16A16_UINT,
            Format::R32Uint => FORMAT_R32_UINT,
            Format::Rg32Uint => FORMAT_R32G32_UINT,
            Format::Rgb32Uint => FORMAT_R32G32B32_UINT,
            Format::Rgba32Uint => FORMAT_R32G32B32A32_UINT,
            Format::R16Float => FORMAT_R16_SFLOAT,
            Format::Rg16Float => FORMAT_R16G16_SFLOAT,
            Format::Rgba16Float => FORMAT_R16G16B16A16_SFLOAT,
            Format::R32Float => FORMAT_R32_SFLOAT,
            Format::Rg32Float => FORMAT_R32G32_SFLOAT,
            Format::Rgb32Float => FORMAT_R32G32B32_SFLOAT,
            Format::Rgba32Float => FORMAT_R32G32B32A32_SFLOAT,
            Format::Rgb10a2Unorm => FORMAT_A2B10G10R10_UNORM_PACK32,
            Format::Rg11b10Float => FORMAT_B10G11R11_UFLOAT_PACK32,
            Format::D16Unorm => FORMAT_D16_UNORM,
            Format::D24UnormS8Uint => FORMAT_D24_UNORM_S8_UINT,
            Format::D32Float => FORMAT_D32_SFLOAT,
            Format::S8Uint => FORMAT_S8_UINT,
            Format::D32FloatS8Uint => FORMAT_D32_SFLOAT_S8_UINT,
            Format::EacRg => FORMAT_EAC_R11G11_UNORM_BLOCK,
            Format::Astc4x4Srgb => FORMAT_ASTC_4X4_SRGB_BLOCK,
            Format::Astc4x4Unorm => FORMAT_ASTC_4X4_UNORM_BLOCK,
            Format::Bc3Srgb => FORMAT_BC3_SRGB_BLOCK,
            Format::Bc3Unorm => FORMAT_BC3_UNORM_BLOCK,
            Format::Bc5Rg => FORMAT_BC5_UNORM_BLOCK,
            Format::Bc7Srgb => FORMAT_BC7_SRGB_BLOCK,
            Format::Bc7Unorm => FORMAT_BC7_UNORM_BLOCK,
            Format::Undefined => FORMAT_UNDEFINED,
        }
    }

    /// The place of the format in [`formats`]; `Undefined` comes after all of them.
    pub open spec fn spec_ordinal(self) -> int {
        match self {
            Format::R8Srgb => 0,
            Format::Rg8Srgb => 1,
            Format::Rgba8Srgb => 2,
            Format::Bgra8Srgb => 3,
            Format::Rgba4Unorm => 4,
            Format::R5g5b5a1Unorm => 5,
            Format::R5g6b5Unorm => 6,
            Format::R8Unorm => 7,
            Format::Rg8Unorm => 8,
            Format::Rgba8Unorm => 9,
            Format::Bgra8Unorm => 10,
            Format::R16Unorm => 11,
            Format::Rg16Unorm => 12,
            Format::Rgba16Unorm => 13,
            Format::R8Uint => 14,
            Format::Rg8Uint => 15,
            Format::Rgba8Uint => 16,
            Format::Bgra8Uint => 17,
            Format::R16Uint => 18,
            Format::Rg16Uint => 19,
            Format::Rgba16Uint => 20,
            Format::R32Uint => 21,
            Format::Rg32Uint => 22,
            Format::Rgb32Uint => 23,
            Format::Rgba32Uint => 24,
            Format::R16Float => 25,
            Format::Rg16Float => 26,
            Format::Rgba16Float => 27,
            Format::R32Float => 28,
            Format::Rg32Float => 29,
            Format::Rgb32Float => 30,
            Format::Rgba32Float => 31,
            Format::Rgb10a2Unorm => 32,
            Format::Rg11b10Float => 33,
            Format::D16Unorm => 34,
            Format::D24UnormS8Uint => 35,
            Format::D32Float => 36,
            Format::S8Uint => 37,
            Format::D32FloatS8Uint => 38,
            Format::EacRg => 39,
            Format::Astc4x4Srgb => 40,
            Format::Astc4x4Unorm => 41,
            Format::Bc3Srgb => 42,
            Format::Bc3Unorm => 43,
            Format::Bc5Rg => 44,
            Format::Bc7Srgb => 45,
            Format::Bc7Unorm => 46,
            Format::Undefined => 47,
        }
    }

    /// The place of the format in [`formats`]; `Undefined` comes after all of them.
    pub fn ordinal(self) -> (r: usize)
        ensures
            r == self.spec_ordinal(),
            r <= FORMAT_COUNT,
            r == FORMAT_COUNT <==> self is Undefined,
    {
        match self {
            Format::R8Srgb => 0,
            Format::Rg8Srgb => 1,
            Format::Rgba8Srgb => 2,
            Format::Bgra8Srgb => 3,
            Format::Rgba4Unorm => 4,
            Format::R5g5b5a1Unorm => 5,
            Format::R5g6b5Unorm => 6,
            Format::R8Unorm => 7,
            Format::Rg8Unorm => 8,
            Format::Rgba8Unorm => 9,
            Format::Bgra8Unorm => 10,
            Format::R16Unorm => 11,
            Format::Rg16Unorm => 12,
            Format::Rgba16Unorm => 13,
            Format::R8Uint => 14,
            Format::Rg8Uint => 15,
            Format::Rgba8Uint => 16,
            Format::Bgra8Uint => 17,
            Format::R16Uint => 18,
            Format::Rg16Uint => 19,
            Format::Rgba16Uint => 20,
            Format::R32Uint => 21,
            Format::Rg32Uint => 22,
            Format::Rgb32Uint => 23,
            Format::Rgba32Uint => 24,
            Format::R16Float => 25,
            Format::Rg16Float => 26,
            Format::Rgba16Float => 27,
            Format::R32Float => 28,
            Format::Rg32Float => 29,
            Format::Rgb32Float => 30,
            Format::Rgba32Float => 31,
            Format::Rgb10a2Unorm => 32,
            Format::Rg11b10Float => 33,
            Format::D16Unorm => 34,
            Format::D24UnormS8Uint => 35,
            Format::D32Float => 36,
            Format::S8Uint => 37,
            Format::D32FloatS8Uint => 38,
            Format::EacRg => 39,
            Format::Astc4x4Srgb => 40,
            Format::Astc4x4Unorm => 41,
            Format::Bc3Srgb => 42,
            Format::Bc3Unorm => 43,
            Format::Bc5Rg => 44,
            Format::Bc7Srgb => 45,
            Format::Bc7Unorm => 46,
            Format::Undefined => 47,
        }
    }
}

/// Every format besides `Undefined`, each at its place.
pub open spec fn all_formats() -> Seq<Format> {
    seq![
        Format::R8Srgb,
        Format::Rg8Srgb,
        Format::Rgba8Srgb,
        Format::Bgra8Srgb,
        Format::Rgba4Unorm,
        Format::R5g5b5a1Unorm,
        Format::R5g6b5Unorm,
        Format::R8Unorm,
        Format::Rg8Unorm,
        Format::Rgba8Unorm,
        Format::Bgra8Unorm,
        Format::R16Unorm,
        Format::Rg16Unorm,
        Format::Rgba16Unorm,
        Format::R8Uint,
        Format::Rg8Uint,
        Format::Rgba8Uint,
        Format::Bgra8Uint,
        Format::R16Uint,
        Format::Rg16Uint,
        Format::Rgba16Uint,
        Format::R32Uint,
        Format::Rg32Uint,
        Format::Rgb32Uint,
        Format::Rgba32Uint,
        Format::R16Float,
        Format::Rg16Float,
        Format::Rgba16Float,
        Format::R32Float,
        Format::Rg32Float,
        Format::Rgb32Float,
        Format::Rgba32Float,
        Format::Rgb10a2Unorm,
        Format::Rg11b10Float,
        Format::D16Unorm,
        Format::D24UnormS8Uint,
        Format::D32Float,
        Format::S8Uint,
        Format::D32FloatS8Uint,
        Format::EacRg,
        Format::Astc4x4Srgb,
        Format::Astc4x4Unorm,
        Format::Bc3Srgb,
        Format::Bc3Unorm,
        Format::Bc5Rg,
        Format::Bc7Srgb,
        Format::Bc7Unorm,
    ]
}

/// Every format besides `Undefined`, each at its place.
pub fn formats() -> (r: Vec<Format>)
    ensures
        r@ == all_formats(),
        r@.len() == FORMAT_COUNT,
{
    let r: Vec<Format> = vec![
        Format::R8Srgb,
        Format::Rg8Srgb,
        Format::Rgba8Srgb,
        Format::Bgra8Srgb,
        Format::Rgba4Unorm,
        Format::R5g5b5a1Unorm,
        Format::R5g6b5Unorm,
        Format::R8Unorm,
        Format::Rg8Unorm,
        Format::Rgba8Unorm,
        Format::Bgra8Unorm,
        Format::R16Unorm,
        Format::Rg16Unorm,
        Format::Rgba16Unorm,
        Format::R8Uint,
        Format::Rg8Uint,
        Format::Rgba8Uint,
        Format::Bgra8Uint,
        Format::R16Uint,
        Format::Rg16Uint,
        Format::Rgba16Uint,
        Format::R32Uint,
        Format::Rg32Uint,
        Format::Rgb32Uint,
        Format::Rgba32Uint,
        Format::R16Float,
        Format::Rg16Float,
        Format::Rgba16Float,
        Format::R32Float,
        Format::Rg32Float,
        Format::Rgb32Float,
        Format::Rgba32Float,
        Format::Rgb10a2Unorm,
        Format::Rg11b10Float,
        Format::D16Unorm,
        Format::D24UnormS8Uint,
        Format::D32Float,
        Format::S8Uint,
        Format::D32FloatS8Uint,
        Format::EacRg,
        Format::Astc4x4Srgb,
        Format::Astc4x4Unorm,
        Format::Bc3Srgb,
        Format::Bc3Unorm,
        Format::Bc5Rg,
        Format::Bc7Srgb,
        Format::Bc7Unorm,
    ];
    assert(r@ =~= all_formats());
    r
}

/// Every place of the list holds the format with that ordinal, and none is undefined.
pub proof fn all_formats_ordered(place: int)
    requires
        0 <= place < all_formats().len(),
    ensures
        all_formats()[place].spec_ordinal() == place,
        !(all_formats()[place] is Undefined),
{
}

/// The list of formats holds each format at its place, and no other.
pub proof fn all_formats_complete(format: Format)
    requires
        !(format is Undefined),
    ensures
        0 <= format.spec_ordinal() < all_formats().len(),
        all_formats()[format.spec_ordinal()] == format,
        all_formats().len() == FORMAT_COUNT,
{
}

/// Distinct formats have distinct Vulkan numbers.
pub proof fn format_encoding_injective(a: Format, b: Format)
    requires
        a.spec_vk() == b.spec_vk(),
    ensures
        a == b,
{
}

/// View compatibility sorts the formats into classes, and a class has one block layout and the same
/// aspects.
pub proof fn view_compatibility_is_equivalence(a: Format, b: Format, c: Format)
    ensures
        view_compatible(a, a),
        view_compatible(a, b) ==> view_compatible(b, a),
        view_compatible(a, b) && view_compatible(b, c) ==> view_compatible(a, c),
        view_compatible(a, b) ==> bytes_per_block(a) == bytes_per_block(b) && block_edge(a)
            == block_edge(b),
        view_compatible(a, b) ==> has_depth(a) == has_depth(b) && has_stencil(a) == has_stencil(b),
{
}

/// An image has the aspects that its format has, and color where it has neither depth nor stencil.
pub proof fn aspects_are_those_of_the_format(format: Format)
    ensures
        aspects_of(format) & ASPECT_DEPTH != 0 <==> has_depth(format),
        aspects_of(format) & ASPECT_STENCIL != 0 <==> has_stencil(format),
        aspects_of(format) & ASPECT_COLOR != 0 <==> !has_depth(format) && !has_stencil(format),
        aspects_of(format) & !(ASPECT_COLOR | ASPECT_DEPTH | ASPECT_STENCIL) == 0,
{
    assert({
        &&& (2u32 | 4u32) & 1u32 == 0 && (2u32 | 4u32) & 2u32 != 0 && (2u32 | 4u32) & 4u32 != 0
        &&& 1u32 & 1u32 != 0 && 1u32 & 2u32 == 0 && 1u32 & 4u32 == 0
        &&& 2u32 & 1u32 == 0 && 2u32 & 2u32 != 0 && 2u32 & 4u32 == 0
        &&& 4u32 & 1u32 == 0 && 4u32 & 2u32 == 0 && 4u32 & 4u32 != 0
        &&& (2u32 | 4u32) & !(1u32 | 2u32 | 4u32) == 0 && 1u32 & !(1u32 | 2u32 | 4u32) == 0
        &&& 2u32 & !(1u32 | 2u32 | 4u32) == 0 && 4u32 & !(1u32 | 2u32 | 4u32) == 0
    }) by (bit_vector);
}

/// Two formats with the same channels, one of them with an sRGB transfer function.
pub open spec fn srgb_of(srgb: Format, linear: Format) -> bool {
    ||| srgb is R8Srgb && linear is R8Unorm
    ||| srgb is Rg8Srgb && linear is Rg8Unorm
    ||| srgb is Rgba8Srgb && linear is Rgba8Unorm
    ||| srgb is Bgra8Srgb && linear is Bgra8Unorm
}

/// In Vulkan's numbering the interpretations of one channel layout follow each other, and one more
/// channel of the same size is a fixed step.
pub proof fn format_numbers_follow_channels(srgb: Format, linear: Format)
    ensures
        srgb_of(srgb, linear) ==> srgb.spec_vk() == linear.spec_vk() + 6,
        srgb_pair(srgb, linear) ==> srgb.spec_vk() - linear.spec_vk() == 1 || linear.spec_vk()
            - srgb.spec_vk() == 1,
        Format::R8Unorm.spec_vk() == 9,
        Format::R8Uint.spec_vk() == Format::R8Unorm.spec_vk() + 4,
        Format::Rg8Uint.spec_vk() == Format::Rg8Unorm.spec_vk() + 4,
        Format::Rgba8Uint.spec_vk() == Format::Rgba8Unorm.spec_vk() + 4,
        Format::Bgra8Uint.spec_vk() == Format::Bgra8Unorm.spec_vk() + 4,
        Format::Rg8Unorm.spec_vk() == Format::R8Unorm.spec_vk() + 7,
        Format::Rgba8Unorm.spec_vk() == Format::Rg8Unorm.spec_vk() + 21,
        Format::Bgra8Unorm.spec_vk() == Format::Rgba8Unorm.spec_vk() + 7,
        Format::R16Unorm.spec_vk() == 70,
        Format::R16Uint.spec_vk() == Format::R16Unorm.spec_vk() + 4,
        Format::Rg16Uint.spec_vk() == Format::Rg16Unorm.spec_vk() + 4,
        Format::Rgba16Uint.spec_vk() == Format::Rgba16Unorm.spec_vk() + 4,
        Format::R16Float.spec_vk() == Format::R16Unorm.spec_vk() + 6,
        Format::Rg16Float.spec_vk() == Format::Rg16Unorm.spec_vk() + 6,
        Format::Rgba16Float.spec_vk() == Format::Rgba16Unorm.spec_vk() + 6,
        Format::Rg16Unorm.spec_vk() == Format::R16Unorm.spec_vk() + 7,
        Format::Rgba16Unorm.spec_vk() == Format::Rg16Unorm.spec_vk() + 14,
        Format::R32Uint.spec_vk() == 98,
        Format::R32Float.spec_vk() == Format::R32Uint.spec_vk() + 2,
        Format::Rg32Float.spec_vk() == Format::Rg32Uint.spec_vk() + 2,
        Format::Rgb32Float.spec_vk() == Format::Rgb32Uint.spec_vk() + 2,
        Format::Rgba32Float.spec_vk() == Format::Rgba32Uint.spec_vk() + 2,
        Format::Rg32Uint.spec_vk() == Format::R32Uint.spec_vk() + 3,
        Format::Rgb32Uint.spec_vk() == Format::Rg32Uint.spec_vk() + 3,
        Format::Rgba32Uint.spec_vk() == Format::Rgb32Uint.spec_vk() + 3,
{
}

/// The formats with packed channels, with depth or stencil, and with compressed blocks, by their
/// Vulkan numbers. Of a compressed pair the sRGB one comes second.
pub proof fn special_formats_have_their_numbers()
    ensures
        Format::Undefined.spec_vk() == 0,
        Format::Rgba4Unorm.spec_vk() == 2,
        Format::R5g6b5Unorm.spec_vk() == 4,
        Format::R5g5b5a1Unorm.spec_vk() == 6,
        Format::Rgb10a2Unorm.spec_vk() == 64,
        Format::Rg11b10Float.spec_vk() == 122,
        Format::D16Unorm.spec_vk() == 124,
        Format::D32Float.spec_vk() == 126,
        Format::S8Uint.spec_vk() == 127,
        Format::D24UnormS8Uint.spec_vk() == 129,
        Format::D32FloatS8Uint.spec_vk() == Format::D24UnormS8Uint.spec_vk() + 1,
        Format::Bc3Unorm.spec_vk() == 137,
        Format::Bc3Srgb.spec_vk() == Format::Bc3Unorm.spec_vk() + 1,
        Format::Bc5Rg.spec_vk() == 141,
        Format::Bc7Unorm.spec_vk() == 145,
        Format::Bc7Srgb.spec_vk() == Format::Bc7Unorm.spec_vk() + 1,
        Format::EacRg.spec_vk() == 155,
        Format::Astc4x4Unorm.spec_vk() == 157,
        Format::Astc4x4Srgb.spec_vk() == Format::Astc4x4Unorm.spec_vk() + 1,
{
}

/// The size of a texel is that of its channels together: twice as many channels, or channels of
/// twice the size, take twice the bytes. How channels are interpreted does not matter.
pub proof fn bytes_follow_channels(srgb: Format, linear: Format)
    ensures
        srgb_of(srgb, linear) ==> bytes_per_block(srgb) == bytes_per_block(linear),
        bytes_per_block(Format::R8Unorm) == 1,
        bytes_per_block(Format::R8Uint) == bytes_per_block(Format::R8Unorm),
        bytes_per_block(Format::S8Uint) == bytes_per_block(Format::R8Unorm),
        bytes_per_block(Format::Rg8Unorm) == 2 * bytes_per_block(Format::R8Unorm),
        bytes_per_block(Format::Rg8Uint) == bytes_per_block(Format::Rg8Unorm),
        bytes_per_block(Format::Rgba8Unorm) == 2 * bytes_per_block(Format::Rg8Unorm),
        bytes_per_block(Format::Rgba8Uint) == bytes_per_block(Format::Rgba8Unorm),
        bytes_per_block(Format::Bgra8Unorm) == bytes_per_block(Format::Rgba8Unorm),
        bytes_per_block(Format::Bgra8Uint) == bytes_per_block(Format::Rgba8Unorm),
        bytes_per_block(Format::R16Unorm) == 2 * bytes_per_block(Format::R8Unorm),
        bytes_per_block(Format::R16Uint) == bytes_per_block(Format::R16Unorm),
        bytes_per_block(Format::R16Float) == bytes_per_block(Format::R16Unorm),
        bytes_per_block(Format::D16Unorm) == bytes_per_block(Format::R16Unorm),
        bytes_per_block(Format::Rg16Unorm) == 2 * bytes_per_block(Format::R16Unorm),
        bytes_per_block(Format::Rg16Uint) == bytes_per_block(Format::Rg16Unorm),
        bytes_per_block(Format::Rg16Float) == bytes_per_block(Format::Rg16Unorm),
        bytes_per_block(Format::Rgba16Unorm) == 2 * bytes_per_block(Format::Rg16Unorm),
        bytes_per_block(Format::Rgba16Uint) == bytes_per_block(Format::Rgba16Unorm),
        bytes_per_block(Format::Rgba16Float) == bytes_per_block(Format::Rgba16Unorm),
        bytes_per_block(Format::R32Uint) == 2 * bytes_per_block(Format::R16Uint),
        bytes_per_block(Format::R32Float) == bytes_per_block(Format::R32Uint),
        bytes_per_block(Format::D32Float) == bytes_per_block(Format::R32Uint),
        bytes_per_block(Format::Rg32Uint) == 2 * bytes_per_block(Format::R32Uint),
        bytes_per_block(Format::Rg32Float) == bytes_per_block(Format::Rg32Uint),
        bytes_per_block(Format::Rgb32Uint) == 3 * bytes_per_block(Format::R32Uint),
        bytes_per_block(Format::Rgb32Float) == bytes_per_block(Format::Rgb32Uint),
        bytes_per_block(Format::Rgba32Uint) == 2 * bytes_per_block(Format::Rg32Uint),
        bytes_per_block(Format::Rgba32Float) == bytes_per_block(Format::Rgba32Uint),
        8 * bytes_per_block(Format::Rgba4Unorm) == 4 + 4 + 4 + 4,
        8 * bytes_per_block(Format::R5g5b5a1Unorm) == 5 + 5 + 5 + 1,
        8 * bytes_per_block(Format::R5g6b5Unorm) == 5 + 6 + 5,
        8 * bytes_per_block(Format::Rgb10a2Unorm) == 10 + 10 + 10 + 2,
        8 * bytes_per_block(Format::Rg11b10Float) == 11 + 11 + 10,
        8 * bytes_per_block(Format::D24UnormS8Uint) == 24 + 8,
        bytes_per_block(Format::D32FloatS8Uint) == 8,
        bytes_per_block(Format::Undefined) == 0,
{
}

/// Compressed blocks cover 4 by 4 texels in 16 bytes: one byte for each texel. All other formats
/// store texels one by one.
pub proof fn compressed_blocks_are_square(format: Format)
    ensures
        ({
            let compressed = {
                ||| format is EacRg
                ||| format is Astc4x4Srgb
                ||| format is Astc4x4Unorm
                ||| format is Bc3Srgb
                ||| format is Bc3Unorm
                ||| format is Bc5Rg
                ||| format is Bc7Srgb
                ||| format is Bc7Unorm
            };
            &&& compressed ==> block_edge(format) == 4 && bytes_per_block(format) == block_edge(
                format,
            ) * block_edge(format)
            &&& !compressed && !(format is Undefined) ==> block_edge(format) == 1
            &&& block_edge(format) == 0 <==> format is Undefined
            &&& bytes_per_block(format) == 0 <==> format is Undefined
            &&& format_info(format).block_extent == Uint32x2 {
                x: block_edge(format),
                y: block_edge(format),
            }
            &&& format_info(format).bytes_per_block == bytes_per_block(format)
            &&& format_info(format).depth == has_depth(format)
            &&& format_info(format).stencil == has_stencil(format)
        }),
{
}

/// The formats with depth or stencil are those that are named after them: four with depth, three
/// with stencil, two with both.
pub proof fn depth_and_stencil_formats(format: Format)
    ensures
        has_depth(format) && has_stencil(format) <==> format is D24UnormS8Uint || format is
            D32FloatS8Uint,
        has_depth(format) && !has_stencil(format) <==> format is D16Unorm || format is D32Float,
        has_stencil(format) && !has_depth(format) <==> format is S8Uint,
        has_depth(format) || has_stencil(format) ==> block_edge(format) == 1,
{
}

/// Formats that can stand for each other are of one kind: plain colors of the same size always can,
/// formats with depth or stencil never, and compressed formats only by their transfer function.
pub proof fn views_keep_the_kind_of_format(a: Format, b: Format)
    ensures
        is_plain_color(a) && is_plain_color(b) ==> (view_compatible(a, b) <==> bytes_per_block(a)
            == bytes_per_block(b)),
        has_depth(a) || has_stencil(a) ==> (view_compatible(a, b) <==> a == b),
        block_edge(a) == 4 ==> (view_compatible(a, b) <==> a == b || {
            &&& a.spec_vk() - b.spec_vk() == 1 || b.spec_vk() - a.spec_vk() == 1
            &&& block_edge(b) == 4
        }),
        a is Undefined ==> (view_compatible(a, b) <==> b is Undefined),
        is_plain_color(a) <==> !(a is Undefined) && block_edge(a) != 4 && !has_depth(a)
            && !has_stencil(a),
{
}

} // verus!
