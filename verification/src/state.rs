//! Fixed-function state and its defaults.

use crate::enums::{
    AddressMode, BlendFactor, BlendOp, CompareOp, CullMode, Filter, StencilOp,
};
use crate::format::Format;
use vstd::prelude::*;

verus! {

/// The bits of `0.0` in IEEE 754 single precision.
pub const ZERO_BITS: u32 = 0;

/// The bits of `1.0` in IEEE 754 single precision.
pub const ONE_BITS: u32 = 0x3f80_0000;

/// The bits of `4.0` in IEEE 754 single precision.
pub const FOUR_BITS: u32 = 0x4080_0000;

/// The bits of `1000.0` in IEEE 754 single precision.
pub const THOUSAND_BITS: u32 = 0x447a_0000;

/// All bits of a single-precision number but its sign.
pub const MAGNITUDE_MASK: u32 = 0x7fff_ffff;

/// A single-precision number, held by its IEEE 754 bits.
#[derive(Clone, Copy, Debug, PartialEq, Eq, Structural)]
pub struct Float(pub u32);

impl Float {
    /// The number is zero, of either sign.
    pub open spec fn spec_is_zero(self) -> bool {
        self.0 & MAGNITUDE_MASK == 0
    }

    /// Whether the number is zero, of either sign.
    pub fn is_zero(self) -> (r: bool)
        ensures
            r == self.spec_is_zero(),
    {
        self.0 & MAGNITUDE_MASK == 0
    }
}

/// How a sampler reads textures.
#[derive(Clone, Copy, Debug, PartialEq, Eq, Structural)]
pub struct SamplerDesc {
    pub min_filter: Filter,
    pub mag_filter: Filter,
    pub mip_filter: Filter,
    pub address_u: AddressMode,
    pub address_v: AddressMode,
    pub address_w: AddressMode,
    pub anisotropic: bool,
    pub compare_enabled: bool,
    pub compare: CompareOp,
}

impl SamplerDesc {
    /// The default state.
    pub open spec fn spec_default() -> Self {
        SamplerDesc {
            min_filter: Filter::Linear,
            mag_filter: Filter::Linear,
            mip_filter: Filter::Linear,
            address_u: AddressMode::Repeat,
            address_v: AddressMode::Repeat,
            address_w: AddressMode::Repeat,
            anisotropic: false,
            compare_enabled: false,
            compare: CompareOp::LessEqual,
        }
    }
}

impl Default for SamplerDesc {
    fn default() -> (r: Self)
        ensures
            r == SamplerDesc::spec_default(),
    {
        SamplerDesc {
            min_filter: Filter::Linear,
            mag_filter: Filter::Linear,
            mip_filter: Filter::Linear,
            address_u: AddressMode::Repeat,
            address_v: AddressMode::Repeat,
            address_w: AddressMode::Repeat,
            anisotropic: false,
            compare_enabled: false,
            compare: CompareOp::LessEqual,
        }
    }
}

/// How one component of source and destination is combined.
#[derive(Clone, Copy, Debug, PartialEq, Eq, Structural)]
pub struct BlendComponentState {
    pub source: BlendFactor,
    pub destination: BlendFactor,
    pub operation: BlendOp,
}

impl BlendComponentState {
    /// The default state.
    pub open spec fn spec_default() -> Self {
        BlendComponentState {
            source: BlendFactor::One,
            destination: BlendFactor::Zero,
            operation: BlendOp::Add,
        }
    }
}

impl Default for BlendComponentState {
    fn default() -> (r: Self)
        ensures
            r == BlendComponentState::spec_default(),
    {
        BlendComponentState {
            source: BlendFactor::One,
            destination: BlendFactor::Zero,
            operation: BlendOp::Add,
        }
    }
}

/// How a color is combined with what the target holds.
#[derive(Clone, Copy, Debug, PartialEq, Eq, Structural)]
pub struct BlendState {
    pub enabled: bool,
    pub color: BlendComponentState,
    pub alpha: BlendComponentState,
}

impl BlendState {
    /// The default state.
    pub open spec fn spec_default() -> Self {
        BlendState {
            enabled: false,
            color: BlendComponentState::spec_default(),
            alpha: BlendComponentState::spec_default(),
        }
    }
}

impl Default for BlendState {
    fn default() -> (r: Self)
        ensures
            r == BlendState::spec_default(),
    {
        BlendState {
            enabled: false,
            color: BlendComponentState::default(),
            alpha: BlendComponentState::default(),
        }
    }
}

/// A color target of a pipeline.
#[derive(Clone, Copy, Debug, PartialEq, Eq, Structural)]
pub struct ColorTargetDesc {
    pub format: Format,
    pub blend: BlendState,
    /// One bit for each of red, green, blue and alpha.
    pub write_mask: u8,
}

impl ColorTargetDesc {
    /// The default state.
    pub open spec fn spec_default() -> Self {
        ColorTargetDesc {
            format: Format::Undefined,
            blend: BlendState::spec_default(),
            write_mask: 0xf,
        }
    }
}

impl Default for ColorTargetDesc {
    fn default() -> (r: Self)
        ensures
            r == ColorTargetDesc::spec_default(),
    {
        ColorTargetDesc {
            format: Format::Undefined,
            blend: BlendState::default(),
            write_mask: 0xf,
        }
    }
}

/// Culling and depth bias.
#[derive(Clone, Copy, Debug, PartialEq, Eq, Structural)]
pub struct RasterizationState {
    pub cull: CullMode,
    pub depth_bias_constant: Float,
    pub depth_bias_clamp: Float,
    pub depth_bias_slope: Float,
}

impl RasterizationState {
    /// The default state.
    pub open spec fn spec_default() -> Self {
        RasterizationState {
            cull: CullMode::Off,
            depth_bias_constant: Float(ZERO_BITS),
            depth_bias_clamp: Float(ZERO_BITS),
            depth_bias_slope: Float(ZERO_BITS),
        }
    }
}

impl Default for RasterizationState {
    fn default() -> (r: Self)
        ensures
            r == RasterizationState::spec_default(),
    {
        RasterizationState {
            cull: CullMode::Off,
            depth_bias_constant: Float(ZERO_BITS),
            depth_bias_clamp: Float(ZERO_BITS),
            depth_bias_slope: Float(ZERO_BITS),
        }
    }
}

/// The part of the render area that clip space maps to.
#[derive(Clone, Copy, Debug, PartialEq, Eq, Structural)]
pub struct Viewport {
    pub x: Float,
    pub y: Float,
    pub width: Float,
    pub height: Float,
    pub min_depth: Float,
    pub max_depth: Float,
}

impl Viewport {
    /// The default state.
    pub open spec fn spec_default() -> Self {
        Viewport {
            x: Float(ZERO_BITS),
            y: Float(ZERO_BITS),
            width: Float(ONE_BITS),
            height: Float(ONE_BITS),
            min_depth: Float(ZERO_BITS),
            max_depth: Float(ONE_BITS),
        }
    }
}

impl Default for Viewport {
    fn default() -> (r: Self)
        ensures
            r == Viewport::spec_default(),
    {
        Viewport {
            x: Float(ZERO_BITS),
            y: Float(ZERO_BITS),
            width: Float(ONE_BITS),
            height: Float(ONE_BITS),
            min_depth: Float(ZERO_BITS),
            max_depth: Float(ONE_BITS),
        }
    }
}

/// The part of the render area that can change.
#[derive(Clone, Copy, Debug, PartialEq, Eq, Structural)]
pub struct Scissor {
    pub x: i32,
    pub y: i32,
    pub width: u32,
    pub height: u32,
}

impl Scissor {
    /// The default state.
    pub open spec fn spec_default() -> Self {
        Scissor {
            x: 0,
            y: 0,
            width: 1,
            height: 1,
        }
    }
}

impl Default for Scissor {
    fn default() -> (r: Self)
        ensures
            r == Scissor::spec_default(),
    {
        Scissor {
            x: 0,
            y: 0,
            width: 1,
            height: 1,
        }
    }
}

/// The stencil test of one face.
#[derive(Clone, Copy, Debug, PartialEq, Eq, Structural)]
pub struct StencilFaceState {
    pub compare: CompareOp,
    pub fail: StencilOp,
    pub pass: StencilOp,
    pub depth_fail: StencilOp,
    pub reference: u8,
}

impl StencilFaceState {
    /// The default state.
    pub open spec fn spec_default() -> Self {
        StencilFaceState {
            compare: CompareOp::Always,
            fail: StencilOp::Keep,
            pass: StencilOp::Keep,
            depth_fail: StencilOp::Keep,
            reference: 0,
        }
    }
}

impl Default for StencilFaceState {
    fn default() -> (r: Self)
        ensures
            r == StencilFaceState::spec_default(),
    {
        StencilFaceState {
            compare: CompareOp::Always,
            fail: StencilOp::Keep,
            pass: StencilOp::Keep,
            depth_fail: StencilOp::Keep,
            reference: 0,
        }
    }
}

/// The depth test and the stencil test.
#[derive(Clone, Copy, Debug, PartialEq, Eq, Structural)]
pub struct DepthStencilState {
    pub depth_test: bool,
    pub depth_write: bool,
    pub depth_compare: CompareOp,
    pub stencil_test: bool,
    pub stencil_read_mask: u8,
    pub stencil_write_mask: u8,
    pub front: StencilFaceState,
    pub back: StencilFaceState,
}

impl DepthStencilState {
    /// The default state.
    pub open spec fn spec_default() -> Self {
        DepthStencilState {
            depth_test: false,
            depth_write: false,
            depth_compare: CompareOp::LessEqual,
            stencil_test: false,
            stencil_read_mask: 0xff,
            stencil_write_mask: 0xff,
            front: StencilFaceState::spec_default(),
            back: StencilFaceState::spec_default(),
        }
    }
}

impl Default for DepthStencilState {
    fn default() -> (r: Self)
        ensures
            r == DepthStencilState::spec_default(),
    {
        DepthStencilState {
            depth_test: false,
            depth_write: false,
            depth_compare: CompareOp::LessEqual,
            stencil_test: false,
            stencil_read_mask: 0xff,
            stencil_write_mask: 0xff,
            front: StencilFaceState::default(),
            back: StencilFaceState::default(),
        }
    }
}

/// A color that clears an attachment.
#[derive(Clone, Copy, Debug, PartialEq, Eq, Structural)]
pub struct ClearColor {
    pub x: Float,
    pub y: Float,
    pub z: Float,
    pub w: Float,
}

impl ClearColor {
    /// The default state.
    pub open spec fn spec_default() -> Self {
        ClearColor {
            x: Float(ZERO_BITS),
            y: Float(ZERO_BITS),
            z: Float(ZERO_BITS),
            w: Float(ONE_BITS),
        }
    }
}

impl Default for ClearColor {
    fn default() -> (r: Self)
        ensures
            r == ClearColor::spec_default(),
    {
        ClearColor {
            x: Float(ZERO_BITS),
            y: Float(ZERO_BITS),
            z: Float(ZERO_BITS),
            w: Float(ONE_BITS),
        }
    }
}

/// A number is zero with either sign, and only then: no other bits stand for zero.
pub proof fn zero_has_two_signs(number: Float)
    ensures
        number.spec_is_zero() <==> number.0 == 0 || number.0 == 0x8000_0000,
{
    let bits = number.0;
    assert(bits & 0x7fff_ffff == 0 <==> bits == 0 || bits == 0x8000_0000) by (bit_vector);
}

/// By default a color replaces what the target holds, in all components.
pub proof fn colors_replace_by_default()
    ensures
        ({
            let target = ColorTargetDesc::spec_default();
            &&& target.format is Undefined
            &&& target.write_mask == 0xf
            &&& !target.blend.enabled
            &&& target.blend.color == target.blend.alpha
            &&& target.blend.color.source is One
            &&& target.blend.color.destination is Zero
            &&& target.blend.color.operation is Add
        }),
{
}

/// By default nothing is culled, biased or tested, and stencil values stay as they are.
pub proof fn nothing_is_dropped_by_default()
    ensures
        ({
            let raster = RasterizationState::spec_default();
            let tests = DepthStencilState::spec_default();
            &&& raster.cull is Off
            &&& raster.depth_bias_constant.spec_is_zero()
            &&& raster.depth_bias_clamp.spec_is_zero()
            &&& raster.depth_bias_slope.spec_is_zero()
            &&& !tests.depth_test
            &&& !tests.depth_write
            &&& tests.depth_compare is LessEqual
            &&& !tests.stencil_test
            &&& tests.stencil_read_mask == 0xff
            &&& tests.stencil_write_mask == 0xff
            &&& tests.front == tests.back
            &&& tests.front.compare is Always
            &&& tests.front.fail is Keep
            &&& tests.front.pass is Keep
            &&& tests.front.depth_fail is Keep
            &&& tests.front.reference == 0
        }),
{
    zero_has_two_signs(Float(ZERO_BITS));
}

/// By default a sampler filters linearly, repeats the texture and compares nothing.
pub proof fn samplers_repeat_by_default()
    ensures
        ({
            let sampler = SamplerDesc::spec_default();
            &&& sampler.min_filter is Linear
            &&& sampler.mag_filter == sampler.min_filter
            &&& sampler.mip_filter == sampler.min_filter
            &&& sampler.address_u is Repeat
            &&& sampler.address_v == sampler.address_u
            &&& sampler.address_w == sampler.address_u
            &&& !sampler.anisotropic
            &&& !sampler.compare_enabled
            &&& sampler.compare is LessEqual
        }),
{
}

} // verus!
