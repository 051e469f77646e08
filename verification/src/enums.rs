//! Enumerations of the interface and their Vulkan numbers.

use crate::vulkan::{
    BLEND_FACTOR_DST_ALPHA, BLEND_FACTOR_DST_COLOR, BLEND_FACTOR_ONE,
    BLEND_FACTOR_ONE_MINUS_DST_ALPHA, BLEND_FACTOR_ONE_MINUS_DST_COLOR,
    BLEND_FACTOR_ONE_MINUS_SRC_ALPHA, BLEND_FACTOR_ONE_MINUS_SRC_COLOR, BLEND_FACTOR_SRC_ALPHA,
    BLEND_FACTOR_SRC_ALPHA_SATURATE, BLEND_FACTOR_SRC_COLOR, BLEND_FACTOR_ZERO, IMAGE_TYPE_1D,
    IMAGE_TYPE_2D, IMAGE_TYPE_3D, VIEW_TYPE_1D, VIEW_TYPE_2D, VIEW_TYPE_2D_ARRAY, VIEW_TYPE_3D,
    VIEW_TYPE_CUBE, VIEW_TYPE_CUBE_ARRAY,
};
use vstd::prelude::*;

verus! {

/// Where a GPU heap lives and what it is for.
#[derive(Clone, Copy, Debug, PartialEq, Eq, Structural)]
pub enum MemoryType {
    CpuVisible,
    GpuOnly,
    Readback,
    TextureDescriptorHeap,
    SamplerDescriptorHeap,
}

/// The shape of a texture.
#[derive(Clone, Copy, Debug, PartialEq, Eq, Structural)]
pub enum TextureType {
    OneD,
    TwoD,
    ThreeD,
    Cube,
    TwoDArray,
    CubeArray,
}

/// What a texture descriptor gives access to.
#[derive(Clone, Copy, Debug, PartialEq, Eq, Structural)]
pub enum TextureDescriptorType {
    Sampled,
    Storage,
}

/// The aspect of a texture that a descriptor shows.
#[derive(Clone, Copy, Debug, PartialEq, Eq, Structural)]
pub enum TextureAspect {
    Automatic,
    Color,
    Depth,
    Stencil,
}

/// Texel filtering.
#[derive(Clone, Copy, Debug, PartialEq, Eq, Structural)]
pub enum Filter {
    Nearest,
    Linear,
}

impl Filter {
    /// The number of the value in `VkFilter` and `VkSamplerMipmapMode`.
    pub open spec fn spec_raw(self) -> i32 {
        match self {
            Filter::Nearest => 0,
            Filter::Linear => 1,
        }
    }

    /// The number of the value in `VkFilter` and `VkSamplerMipmapMode`.
    pub fn raw(self) -> (r: i32)
        ensures
            r == self.spec_raw(),
    {
        match self {
            Filter::Nearest => 0,
            Filter::Linear => 1,
        }
    }
}

/// Sampling outside of the texture.
#[derive(Clone, Copy, Debug, PartialEq, Eq, Structural)]
pub enum AddressMode {
    Repeat,
    MirroredRepeat,
    ClampToEdge,
}

impl AddressMode {
    /// The number of the value in `VkSamplerAddressMode`.
    pub open spec fn spec_raw(self) -> i32 {
        match self {
            AddressMode::Repeat => 0,
            AddressMode::MirroredRepeat => 1,
            AddressMode::ClampToEdge => 2,
        }
    }

    /// The number of the value in `VkSamplerAddressMode`.
    pub fn raw(self) -> (r: i32)
        ensures
            r == self.spec_raw(),
    {
        match self {
            AddressMode::Repeat => 0,
            AddressMode::MirroredRepeat => 1,
            AddressMode::ClampToEdge => 2,
        }
    }
}

/// Comparison of a new value with a stored one.
#[derive(Clone, Copy, Debug, PartialEq, Eq, Structural)]
pub enum CompareOp {
    Never,
    Less,
    Equal,
    LessEqual,
    Greater,
    NotEqual,
    GreaterEqual,
    Always,
}

impl CompareOp {
    /// The number of the value in `VkCompareOp`.
    pub open spec fn spec_raw(self) -> i32 {
        match self {
            CompareOp::Never => 0,
            CompareOp::Less => 1,
            CompareOp::Equal => 2,
            CompareOp::LessEqual => 3,
            CompareOp::Greater => 4,
            CompareOp::NotEqual => 5,
            CompareOp::GreaterEqual => 6,
            CompareOp::Always => 7,
        }
    }

    /// The number of the value in `VkCompareOp`.
    pub fn raw(self) -> (r: i32)
        ensures
            r == self.spec_raw(),
    {
        match self {
            CompareOp::Never => 0,
            CompareOp::Less => 1,
            CompareOp::Equal => 2,
            CompareOp::LessEqual => 3,
            CompareOp::Greater => 4,
            CompareOp::NotEqual => 5,
            CompareOp::GreaterEqual => 6,
            CompareOp::Always => 7,
        }
    }
}

/// Which triangles are dropped, by their winding.
#[derive(Clone, Copy, Debug, PartialEq, Eq, Structural)]
pub enum CullMode {
    Off,
    Clockwise,
    CounterClockwise,
}

/// Weight of a blend term.
#[derive(Clone, Copy, Debug, PartialEq, Eq, Structural)]
pub enum BlendFactor {
    Zero,
    One,
    SourceColor,
    OneMinusSourceColor,
    DestinationColor,
    OneMinusDestinationColor,
    SourceAlpha,
    OneMinusSourceAlpha,
    DestinationAlpha,
    OneMinusDestinationAlpha,
    SourceAlphaSaturate,
}

/// How the two blend terms combine.
#[derive(Clone, Copy, Debug, PartialEq, Eq, Structural)]
pub enum BlendOp {
    Add,
    Subtract,
    ReverseSubtract,
    Minimum,
    Maximum,
}

impl BlendOp {
    /// The number of the value in `VkBlendOp`.
    pub open spec fn spec_raw(self) -> i32 {
        match self {
            BlendOp::Add => 0,
            BlendOp::Subtract => 1,
            BlendOp::ReverseSubtract => 2,
            BlendOp::Minimum => 3,
            BlendOp::Maximum => 4,
        }
    }

    /// The number of the value in `VkBlendOp`.
    pub fn raw(self) -> (r: i32)
        ensures
            r == self.spec_raw(),
    {
        match self {
            BlendOp::Add => 0,
            BlendOp::Subtract => 1,
            BlendOp::ReverseSubtract => 2,
            BlendOp::Minimum => 3,
            BlendOp::Maximum => 4,
        }
    }
}

/// Width of an index.
#[derive(Clone, Copy, Debug, PartialEq, Eq, Structural)]
pub enum IndexType {
    Uint16,
    Uint32,
}

impl IndexType {
    /// The number of the value in `VkIndexType`.
    pub open spec fn spec_raw(self) -> i32 {
        match self {
            IndexType::Uint16 => 0,
            IndexType::Uint32 => 1,
        }
    }

    /// The number of the value in `VkIndexType`.
    pub fn raw(self) -> (r: i32)
        ensures
            r == self.spec_raw(),
    {
        match self {
            IndexType::Uint16 => 0,
            IndexType::Uint32 => 1,
        }
    }
}

/// What a render pass does with the old contents of an attachment.
#[derive(Clone, Copy, Debug, PartialEq, Eq, Structural)]
pub enum LoadOp {
    Load,
    Clear,
    Discard,
}

impl LoadOp {
    /// The number of the value in `VkAttachmentLoadOp`.
    pub open spec fn spec_raw(self) -> i32 {
        match self {
            LoadOp::Load => 0,
            LoadOp::Clear => 1,
            LoadOp::Discard => 2,
        }
    }

    /// The number of the value in `VkAttachmentLoadOp`.
    pub fn raw(self) -> (r: i32)
        ensures
            r == self.spec_raw(),
    {
        match self {
            LoadOp::Load => 0,
            LoadOp::Clear => 1,
            LoadOp::Discard => 2,
        }
    }
}

/// What a render pass does with the new contents of an attachment.
#[derive(Clone, Copy, Debug, PartialEq, Eq, Structural)]
pub enum StoreOp {
    Store,
    Discard,
}

impl StoreOp {
    /// The number of the value in `VkAttachmentStoreOp`.
    pub open spec fn spec_raw(self) -> i32 {
        match self {
            StoreOp::Store => 0,
            StoreOp::Discard => 1,
        }
    }

    /// The number of the value in `VkAttachmentStoreOp`.
    pub fn raw(self) -> (r: i32)
        ensures
            r == self.spec_raw(),
    {
        match self {
            StoreOp::Store => 0,
            StoreOp::Discard => 1,
        }
    }
}

/// What happens to a stencil value.
#[derive(Clone, Copy, Debug, PartialEq, Eq, Structural)]
pub enum StencilOp {
    Keep,
    Zero,
    Replace,
    IncrementClamp,
    DecrementClamp,
    Invert,
    IncrementWrap,
    DecrementWrap,
}

impl StencilOp {
    /// The number of the value in `VkStencilOp`.
    pub open spec fn spec_raw(self) -> i32 {
        match self {
            StencilOp::Keep => 0,
            StencilOp::Zero => 1,
            StencilOp::Replace => 2,
            StencilOp::IncrementClamp => 3,
            StencilOp::DecrementClamp => 4,
            StencilOp::Invert => 5,
            StencilOp::IncrementWrap => 6,
            StencilOp::DecrementWrap => 7,
        }
    }

    /// The number of the value in `VkStencilOp`.
    pub fn raw(self) -> (r: i32)
        ensures
            r == self.spec_raw(),
    {
        match self {
            StencilOp::Keep => 0,
            StencilOp::Zero => 1,
            StencilOp::Replace => 2,
            StencilOp::IncrementClamp => 3,
            StencilOp::DecrementClamp => 4,
            StencilOp::Invert => 5,
            StencilOp::IncrementWrap => 6,
            StencilOp::DecrementWrap => 7,
        }
    }
}

impl BlendFactor {
    /// The Vulkan blend factor.
    pub open spec fn spec_vk(self) -> i32 {
        match self {
            BlendFactor::Zero => BLEND_FACTOR_ZERO,
            BlendFactor::One => BLEND_FACTOR_ONE,
            BlendFactor::SourceColor => BLEND_FACTOR_SRC_COLOR,
            BlendFactor::OneMinusSourceColor => BLEND_FACTOR_ONE_MINUS_SRC_COLOR,
            BlendFactor::DestinationColor => BLEND_FACTOR_DST_COLOR,
            BlendFactor::OneMinusDestinationColor => BLEND_FACTOR_ONE_MINUS_DST_COLOR,
            BlendFactor::SourceAlpha => BLEND_FACTOR_SRC_ALPHA,
            BlendFactor::OneMinusSourceAlpha => BLEND_FACTOR_ONE_MINUS_SRC_ALPHA,
            BlendFactor::DestinationAlpha => BLEND_FACTOR_DST_ALPHA,
            BlendFactor::OneMinusDestinationAlpha => BLEND_FACTOR_ONE_MINUS_DST_ALPHA,
            BlendFactor::SourceAlphaSaturate => BLEND_FACTOR_SRC_ALPHA_SATURATE,
        }
    }

    /// The Vulkan blend factor.
    pub fn vk(self) -> (r: i32)
        ensures
            r == self.spec_vk(),
    {
        match self {
            BlendFactor::Zero => BLEND_FACTOR_ZERO,
            BlendFactor::One => BLEND_FACTOR_ONE,
            BlendFactor::SourceColor => BLEND_FACTOR_SRC_COLOR,
            BlendFactor::OneMinusSourceColor => BLEND_FACTOR_ONE_MINUS_SRC_COLOR,
            BlendFactor::DestinationColor => BLEND_FACTOR_DST_COLOR,
            BlendFactor::OneMinusDestinationColor => BLEND_FACTOR_ONE_MINUS_DST_COLOR,
            BlendFactor::SourceAlpha => BLEND_FACTOR_SRC_ALPHA,
            BlendFactor::OneMinusSourceAlpha => BLEND_FACTOR_ONE_MINUS_SRC_ALPHA,
            BlendFactor::DestinationAlpha => BLEND_FACTOR_DST_ALPHA,
            BlendFactor::OneMinusDestinationAlpha => BLEND_FACTOR_ONE_MINUS_DST_ALPHA,
            BlendFactor::SourceAlphaSaturate => BLEND_FACTOR_SRC_ALPHA_SATURATE,
        }
    }
}

impl TextureType {
    /// The Vulkan image type.
    pub open spec fn spec_vk(self) -> i32 {
        match self {
            TextureType::OneD => IMAGE_TYPE_1D,
            TextureType::ThreeD => IMAGE_TYPE_3D,
            _ => IMAGE_TYPE_2D,
        }
    }

    /// The Vulkan image type.
    pub fn vk(self) -> (r: i32)
        ensures
            r == self.spec_vk(),
    {
        match self {
            TextureType::OneD => IMAGE_TYPE_1D,
            TextureType::ThreeD => IMAGE_TYPE_3D,
            _ => IMAGE_TYPE_2D,
        }
    }
}

impl TextureType {
    /// The Vulkan image view type.
    pub open spec fn spec_vk_view(self) -> i32 {
        match self {
            TextureType::OneD => VIEW_TYPE_1D,
            TextureType::TwoD => VIEW_TYPE_2D,
            TextureType::ThreeD => VIEW_TYPE_3D,
            TextureType::Cube => VIEW_TYPE_CUBE,
            TextureType::TwoDArray => VIEW_TYPE_2D_ARRAY,
            TextureType::CubeArray => VIEW_TYPE_CUBE_ARRAY,
        }
    }

    /// The Vulkan image view type.
    pub fn vk_view(self) -> (r: i32)
        ensures
            r == self.spec_vk_view(),
    {
        match self {
            TextureType::OneD => VIEW_TYPE_1D,
            TextureType::TwoD => VIEW_TYPE_2D,
            TextureType::ThreeD => VIEW_TYPE_3D,
            TextureType::Cube => VIEW_TYPE_CUBE,
            TextureType::TwoDArray => VIEW_TYPE_2D_ARRAY,
            TextureType::CubeArray => VIEW_TYPE_CUBE_ARRAY,
        }
    }
}

/// A comparison of a new value with a stored one holds.
pub open spec fn holds(op: CompareOp, new: int, stored: int) -> bool {
    match op {
        CompareOp::Never => false,
        CompareOp::Less => new < stored,
        CompareOp::Equal => new == stored,
        CompareOp::LessEqual => new <= stored,
        CompareOp::Greater => new > stored,
        CompareOp::NotEqual => new != stored,
        CompareOp::GreaterEqual => new >= stored,
        CompareOp::Always => true,
    }
}

/// The number of a comparison is made of one bit for each case in which it holds: 1 where the new
/// value is less, 2 where it is equal, 4 where it is greater.
pub proof fn comparisons_are_made_of_cases(op: CompareOp)
    ensures
        op.spec_raw() == (if holds(op, 0, 1) {
            1int
        } else {
            0
        }) + (if holds(op, 1, 1) {
            2int
        } else {
            0
        }) + (if holds(op, 1, 0) {
            4int
        } else {
            0
        }),
{
}

/// Each weight comes right before its complement, the weights of the destination after those of the
/// source, and those by alpha after those by color.
pub proof fn blend_factors_come_in_pairs()
    ensures
        BlendFactor::Zero.spec_vk() == 0,
        BlendFactor::One.spec_vk() == BlendFactor::Zero.spec_vk() + 1,
        BlendFactor::SourceColor.spec_vk() == BlendFactor::One.spec_vk() + 1,
        BlendFactor::OneMinusSourceColor.spec_vk() == BlendFactor::SourceColor.spec_vk() + 1,
        BlendFactor::OneMinusDestinationColor.spec_vk() == BlendFactor::DestinationColor.spec_vk()
            + 1,
        BlendFactor::OneMinusSourceAlpha.spec_vk() == BlendFactor::SourceAlpha.spec_vk() + 1,
        BlendFactor::OneMinusDestinationAlpha.spec_vk() == BlendFactor::DestinationAlpha.spec_vk()
            + 1,
        BlendFactor::DestinationColor.spec_vk() == BlendFactor::SourceColor.spec_vk() + 2,
        BlendFactor::DestinationAlpha.spec_vk() == BlendFactor::SourceAlpha.spec_vk() + 2,
        BlendFactor::SourceAlpha.spec_vk() == BlendFactor::SourceColor.spec_vk() + 4,
        BlendFactor::SourceAlphaSaturate.spec_vk() == 14,
{
}

/// An image has as many dimensions as its texture has, where cubes are made of flat faces.
pub proof fn images_have_the_dimensions_of_textures(shape: TextureType)
    ensures
        shape.spec_vk() == 0 <==> shape is OneD,
        shape.spec_vk() == 2 <==> shape is ThreeD,
        shape.spec_vk() == 1 <==> shape is TwoD || shape is TwoDArray || shape is Cube || shape is
            CubeArray,
{
}

/// Textures of different shapes are seen through different kinds of views: those of one layer by
/// their dimensions, then cubes, then arrays in the same order.
pub proof fn views_have_the_shape_of_textures(a: TextureType, b: TextureType)
    ensures
        a.spec_vk_view() == b.spec_vk_view() <==> a == b,
        a is OneD || a is TwoD || a is ThreeD ==> a.spec_vk_view() == a.spec_vk(),
        TextureType::Cube.spec_vk_view() == TextureType::ThreeD.spec_vk_view() + 1,
        TextureType::TwoDArray.spec_vk_view() == TextureType::TwoD.spec_vk_view() + 4,
        TextureType::CubeArray.spec_vk_view() == TextureType::Cube.spec_vk_view() + 3,
{
}

/// Distinct values of an enumeration have distinct numbers.
pub proof fn numbers_are_distinct(
    filters: (Filter, Filter),
    modes: (AddressMode, AddressMode),
    blends: (BlendOp, BlendOp),
    indices: (IndexType, IndexType),
    loads: (LoadOp, LoadOp),
    stores: (StoreOp, StoreOp),
    stencils: (StencilOp, StencilOp),
    factors: (BlendFactor, BlendFactor),
)
    ensures
        filters.0.spec_raw() == filters.1.spec_raw() <==> filters.0 == filters.1,
        modes.0.spec_raw() == modes.1.spec_raw() <==> modes.0 == modes.1,
        blends.0.spec_raw() == blends.1.spec_raw() <==> blends.0 == blends.1,
        indices.0.spec_raw() == indices.1.spec_raw() <==> indices.0 == indices.1,
        loads.0.spec_raw() == loads.1.spec_raw() <==> loads.0 == loads.1,
        stores.0.spec_raw() == stores.1.spec_raw() <==> stores.0 == stores.1,
        stencils.0.spec_raw() == stencils.1.spec_raw() <==> stencils.0 == stencils.1,
        factors.0.spec_vk() == factors.1.spec_vk() <==> factors.0 == factors.1,
{
}

} // verus!
