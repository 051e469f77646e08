//! Pipelines and samplers.

use crate::enums::CullMode;
use crate::error::{failure_of, Failure};
use crate::format::Format;
use crate::record::{Command, MAX_COLOR_ATTACHMENTS};
use crate::state::{
    ColorTargetDesc, Float, RasterizationState, SamplerDesc, FOUR_BITS, ONE_BITS, THOUSAND_BITS,
};
use crate::vulkan::{
    BIND_POINT_COMPUTE, BIND_POINT_GRAPHICS, CULL_BACK, CULL_NONE, DYNAMIC_DEPTH_COMPARE_OP,
    DYNAMIC_DEPTH_TEST_ENABLE, DYNAMIC_DEPTH_WRITE_ENABLE, DYNAMIC_SCISSOR_WITH_COUNT,
    DYNAMIC_STENCIL_COMPARE_MASK, DYNAMIC_STENCIL_OP, DYNAMIC_STENCIL_REFERENCE,
    DYNAMIC_STENCIL_TEST_ENABLE, DYNAMIC_STENCIL_WRITE_MASK, DYNAMIC_VIEWPORT_WITH_COUNT,
    FRONT_FACE_CLOCKWISE, FRONT_FACE_COUNTER_CLOCKWISE, RESULT_SUCCESS, SHADER_STAGE_COMPUTE,
    SHADER_STAGE_FRAGMENT, SHADER_STAGE_MESH, SHADER_STAGE_VERTEX,
};
use vstd::prelude::*;

verus! {

/// Entry point of vertex shaders.
pub const VERTEX_ENTRY: &'static str = "vertexMain";

/// Entry point of mesh shaders.
pub const MESH_ENTRY: &'static str = "meshMain";

/// Entry point of fragment shaders.
pub const FRAGMENT_ENTRY: &'static str = "fragmentMain";

/// Entry point of compute shaders.
pub const COMPUTE_ENTRY: &'static str = "computeMain";

/// A pipeline with vertex shaders.
#[derive(Clone, Copy, Debug)]
pub struct GraphicsPSODesc<'a> {
    pub vertex_spirv: &'a [u32],
    /// Empty for a pipeline without a fragment shader.
    pub fragment_spirv: &'a [u32],
    pub color_targets: &'a [ColorTargetDesc],
    pub depth_format: Format,
    pub stencil_format: Format,
    pub rasterization: RasterizationState,
}

impl<'a> Default for GraphicsPSODesc<'a> {
    fn default() -> (r: Self)
        ensures
            r.vertex_spirv@.len() == 0,
            r.fragment_spirv@.len() == 0,
            r.color_targets@.len() == 0,
            r.depth_format == Format::Undefined,
            r.stencil_format == Format::Undefined,
            r.rasterization == RasterizationState::spec_default(),
    {
        GraphicsPSODesc {
            vertex_spirv: &[],
            fragment_spirv: &[],
            color_targets: &[],
            depth_format: Format::Undefined,
            stencil_format: Format::Undefined,
            rasterization: RasterizationState::default(),
        }
    }
}

/// A pipeline with mesh shaders.
#[derive(Clone, Copy, Debug)]
pub struct MeshPSODesc<'a> {
    pub mesh_spirv: &'a [u32],
    /// Empty for a pipeline without a fragment shader.
    pub fragment_spirv: &'a [u32],
    pub color_targets: &'a [ColorTargetDesc],
    pub depth_format: Format,
    pub stencil_format: Format,
    pub rasterization: RasterizationState,
}

impl<'a> Default for MeshPSODesc<'a> {
    fn default() -> (r: Self)
        ensures
            r.mesh_spirv@.len() == 0,
            r.fragment_spirv@.len() == 0,
            r.color_targets@.len() == 0,
            r.depth_format == Format::Undefined,
            r.stencil_format == Format::Undefined,
            r.rasterization == RasterizationState::spec_default(),
    {
        MeshPSODesc {
            mesh_spirv: &[],
            fragment_spirv: &[],
            color_targets: &[],
            depth_format: Format::Undefined,
            stencil_format: Format::Undefined,
            rasterization: RasterizationState::default(),
        }
    }
}

/// A pipeline that belongs to the device.
#[derive(Debug)]
pub struct PSO {
    pub pso: u64,
    pub bind_point: i32,
}

/// A shader of a pipeline.
#[derive(Clone, Copy, Debug)]
pub struct ShaderStage<'a> {
    pub stage: u32,
    pub entry: &'static str,
    pub code: &'a [u32],
}

/// How a color target is written.
#[derive(Clone, Copy, Debug, PartialEq, Eq, Structural)]
pub struct BlendAttachment {
    pub enabled: bool,
    pub source_color: i32,
    pub destination_color: i32,
    pub color_op: i32,
    pub source_alpha: i32,
    pub destination_alpha: i32,
    pub alpha_op: i32,
    pub write_mask: u32,
}

/// How triangles are filled.
#[derive(Clone, Copy, Debug, PartialEq, Eq, Structural)]
pub struct RasterizationInfo {
    pub cull_mode: u32,
    pub front_face: i32,
    pub depth_bias_enable: bool,
    pub depth_bias_constant: Float,
    pub depth_bias_clamp: Float,
    pub depth_bias_slope: Float,
    pub line_width: Float,
}

/// A graphics pipeline to create: filled triangles, one sample, descriptors from heaps. A pipeline
/// with vertex shaders has an empty vertex input and assembles lists of triangles.
#[derive(Debug)]
pub struct RasterPipeline<'a> {
    pub stages: Vec<ShaderStage<'a>>,
    pub rasterization: RasterizationInfo,
    pub attachments: Vec<BlendAttachment>,
    pub color_formats: Vec<i32>,
    pub depth_format: i32,
    pub stencil_format: i32,
    pub dynamic_states: Vec<i32>,
    /// Whether the pipeline has a vertex input and an input assembly.
    pub vertex_input: bool,
}

/// Culling faces that wind the given way leaves those that wind the other way in front. Biasing is
/// on where one of its terms is not zero.
pub open spec fn rasterization_info(state: RasterizationState) -> RasterizationInfo {
    RasterizationInfo {
        cull_mode: if state.cull is Off {
            CULL_NONE
        } else {
            CULL_BACK
        },
        front_face: if state.cull is CounterClockwise {
            FRONT_FACE_CLOCKWISE
        } else {
            FRONT_FACE_COUNTER_CLOCKWISE
        },
        depth_bias_enable: !state.depth_bias_constant.spec_is_zero()
            || !state.depth_bias_clamp.spec_is_zero() || !state.depth_bias_slope.spec_is_zero(),
        depth_bias_constant: state.depth_bias_constant,
        depth_bias_clamp: state.depth_bias_clamp,
        depth_bias_slope: state.depth_bias_slope,
        line_width: Float(ONE_BITS),
    }
}

/// How the color target is written.
pub open spec fn blend_attachment(target: ColorTargetDesc) -> BlendAttachment {
    BlendAttachment {
        enabled: target.blend.enabled,
        source_color: target.blend.color.source.spec_vk(),
        destination_color: target.blend.color.destination.spec_vk(),
        color_op: target.blend.color.operation.spec_raw(),
        source_alpha: target.blend.alpha.source.spec_vk(),
        destination_alpha: target.blend.alpha.destination.spec_vk(),
        alpha_op: target.blend.alpha.operation.spec_raw(),
        write_mask: target.write_mask as u32,
    }
}

/// The state that is set while recording.
pub open spec fn dynamic_states() -> Seq<i32> {
    seq![
        DYNAMIC_VIEWPORT_WITH_COUNT,
        DYNAMIC_SCISSOR_WITH_COUNT,
        DYNAMIC_DEPTH_TEST_ENABLE,
        DYNAMIC_DEPTH_WRITE_ENABLE,
        DYNAMIC_DEPTH_COMPARE_OP,
        DYNAMIC_STENCIL_TEST_ENABLE,
        DYNAMIC_STENCIL_OP,
        DYNAMIC_STENCIL_COMPARE_MASK,
        DYNAMIC_STENCIL_WRITE_MASK,
        DYNAMIC_STENCIL_REFERENCE,
    ]
}

/// The shaders of a graphics pipeline: the first stage, and the fragment stage where there is one.
pub open spec fn shader_stages<'a>(
    first: &'a [u32],
    fragment: &'a [u32],
    mesh: bool,
) -> Seq<ShaderStage<'a>> {
    seq![
        ShaderStage {
            stage: if mesh {
                SHADER_STAGE_MESH
            } else {
                SHADER_STAGE_VERTEX
            },
            entry: if mesh {
                MESH_ENTRY
            } else {
                VERTEX_ENTRY
            },
            code: first,
        },
    ] + if fragment@.len() == 0 {
        seq![]
    } else {
        seq![
            ShaderStage {
                stage: SHADER_STAGE_FRAGMENT,
                entry: FRAGMENT_ENTRY,
                code: fragment,
            },
        ]
    }
}

fn make_rasterization_info(state: &RasterizationState) -> (r: RasterizationInfo)
    ensures
        r == rasterization_info(*state),
{
    let cull_mode = if state.cull == CullMode::Off {
        CULL_NONE
    } else {
        CULL_BACK
    };
    let front_face = if state.cull == CullMode::CounterClockwise {
        FRONT_FACE_CLOCKWISE
    } else {
        FRONT_FACE_COUNTER_CLOCKWISE
    };
    RasterizationInfo {
        cull_mode,
        front_face,
        depth_bias_enable: !state.depth_bias_constant.is_zero()
            || !state.depth_bias_clamp.is_zero() || !state.depth_bias_slope.is_zero(),
        depth_bias_constant: state.depth_bias_constant,
        depth_bias_clamp: state.depth_bias_clamp,
        depth_bias_slope: state.depth_bias_slope,
        line_width: Float(ONE_BITS),
    }
}

/// The graphics pipeline to create.
pub fn create_raster_pso<'a>(
    first_stage_spirv: &'a [u32],
    fragment_spirv: &'a [u32],
    color_targets: &[ColorTargetDesc],
    depth_format: Format,
    stencil_format: Format,
    rasterization_state: &RasterizationState,
    mesh: bool,
) -> (r: RasterPipeline<'a>)
    requires
        color_targets@.len() <= MAX_COLOR_ATTACHMENTS,
    ensures
        r.stages@ == shader_stages(first_stage_spirv, fragment_spirv, mesh),
        r.rasterization == rasterization_info(*rasterization_state),
        r.attachments@ == color_targets@.map_values(|t: ColorTargetDesc| blend_attachment(t)),
        r.color_formats@ == color_targets@.map_values(|t: ColorTargetDesc| t.format.spec_vk()),
        r.depth_format == depth_format.spec_vk(),
        r.stencil_format == stencil_format.spec_vk(),
        r.dynamic_states@ == dynamic_states(),
        r.vertex_input == !mesh,
{
    let mut stages: Vec<ShaderStage<'a>> = Vec::new();
    let (stage, entry): (u32, &'static str) = if mesh {
        (SHADER_STAGE_MESH, MESH_ENTRY)
    } else {
        (SHADER_STAGE_VERTEX, VERTEX_ENTRY)
    };
    stages.push(ShaderStage { stage, entry, code: first_stage_spirv });
    if fragment_spirv.len() != 0 {
        stages.push(
            ShaderStage {
                stage: SHADER_STAGE_FRAGMENT,
                entry: FRAGMENT_ENTRY,
                code: fragment_spirv,
            },
        );
    }
    assert(stages@ =~= shader_stages(first_stage_spirv, fragment_spirv, mesh));
    let mut attachments: Vec<BlendAttachment> = Vec::new();
    let mut color_formats: Vec<i32> = Vec::new();
    let mut i: usize = 0;
    while i < color_targets.len()
        invariant
            i <= color_targets@.len(),
            attachments@.len() == i,
            color_formats@.len() == i,
            forall|j: int|
                0 <= j < i ==> (#[trigger] attachments@[j]) == blend_attachment(color_targets@[j]),
            forall|j: int|
                0 <= j < i ==> (#[trigger] color_formats@[j])
                    == color_targets@[j].format.spec_vk(),
        decreases color_targets@.len() - i,
    {
        let target = &color_targets[i];
        attachments.push(
            BlendAttachment {
                enabled: target.blend.enabled,
                source_color: target.blend.color.source.vk(),
                destination_color: target.blend.color.destination.vk(),
                color_op: target.blend.color.operation.raw(),
                source_alpha: target.blend.alpha.source.vk(),
                destination_alpha: target.blend.alpha.destination.vk(),
                alpha_op: target.blend.alpha.operation.raw(),
                write_mask: target.write_mask as u32,
            },
        );
        color_formats.push(target.format.vk());
        i += 1;
    }
    let states: Vec<i32> = vec![
        DYNAMIC_VIEWPORT_WITH_COUNT,
        DYNAMIC_SCISSOR_WITH_COUNT,
        DYNAMIC_DEPTH_TEST_ENABLE,
        DYNAMIC_DEPTH_WRITE_ENABLE,
        DYNAMIC_DEPTH_COMPARE_OP,
        DYNAMIC_STENCIL_TEST_ENABLE,
        DYNAMIC_STENCIL_OP,
        DYNAMIC_STENCIL_COMPARE_MASK,
        DYNAMIC_STENCIL_WRITE_MASK,
        DYNAMIC_STENCIL_REFERENCE,
    ];
    RasterPipeline {
        stages,
        rasterization: make_rasterization_info(rasterization_state),
        attachments,
        color_formats,
        depth_format: depth_format.vk(),
        stencil_format: stencil_format.vk(),
        dynamic_states: states,
        vertex_input: !mesh,
    }
}

impl<'a> GraphicsPSODesc<'a> {
    /// The pipeline to create.
    pub fn pipeline(&self) -> (r: RasterPipeline<'a>)
        requires
            self.color_targets@.len() <= MAX_COLOR_ATTACHMENTS,
        ensures
            r.stages@ == shader_stages(self.vertex_spirv, self.fragment_spirv, false),
            r.rasterization == rasterization_info(self.rasterization),
            r.attachments@ == self.color_targets@.map_values(
                |t: ColorTargetDesc| blend_attachment(t),
            ),
            r.color_formats@ == self.color_targets@.map_values(
                |t: ColorTargetDesc| t.format.spec_vk(),
            ),
            r.depth_format == self.depth_format.spec_vk(),
            r.stencil_format == self.stencil_format.spec_vk(),
            r.dynamic_states@ == dynamic_states(),
            r.vertex_input,
    {
        create_raster_pso(
            self.vertex_spirv,
            self.fragment_spirv,
            self.color_targets,
            self.depth_format,
            self.stencil_format,
            &self.rasterization,
            false,
        )
    }
}

impl<'a> MeshPSODesc<'a> {
    /// The pipeline to create.
    pub fn pipeline(&self) -> (r: RasterPipeline<'a>)
        requires
            self.color_targets@.len() <= MAX_COLOR_ATTACHMENTS,
        ensures
            r.stages@ == shader_stages(self.mesh_spirv, self.fragment_spirv, true),
            r.rasterization == rasterization_info(self.rasterization),
            r.attachments@ == self.color_targets@.map_values(
                |t: ColorTargetDesc| blend_attachment(t),
            ),
            r.color_formats@ == self.color_targets@.map_values(
                |t: ColorTargetDesc| t.format.spec_vk(),
            ),
            r.depth_format == self.depth_format.spec_vk(),
            r.stencil_format == self.stencil_format.spec_vk(),
            r.dynamic_states@ == dynamic_states(),
            !r.vertex_input,
    {
        create_raster_pso(
            self.mesh_spirv,
            self.fragment_spirv,
            self.color_targets,
            self.depth_format,
            self.stencil_format,
            &self.rasterization,
            true,
        )
    }
}

/// The shader of a compute pipeline.
pub fn compute_stage<'a>(compute_spirv: &'a [u32]) -> (r: ShaderStage<'a>)
    ensures
        r == (ShaderStage {
            stage: SHADER_STAGE_COMPUTE,
            entry: COMPUTE_ENTRY,
            code: compute_spirv,
        }),
{
    ShaderStage { stage: SHADER_STAGE_COMPUTE, entry: COMPUTE_ENTRY, code: compute_spirv }
}

/// A pipeline that could not be created.
#[derive(Clone, Copy, Debug, PartialEq, Eq, Structural)]
pub struct PipelineFailure {
    /// A pipeline that is left over and must be destroyed.
    pub left_pipeline: Option<u64>,
    pub failure: Failure,
}

/// The creation of a pipeline ended with a code.
pub open spec fn pipeline_result(code: i32, pipeline: u64, bind_point: i32) -> Result<
    PSO,
    PipelineFailure,
> {
    if code == RESULT_SUCCESS {
        Ok(PSO { pso: pipeline, bind_point })
    } else {
        Err(
            PipelineFailure {
                left_pipeline: if pipeline == 0 {
                    None
                } else {
                    Some(pipeline)
                },
                failure: failure_of(code),
            },
        )
    }
}

fn on_pipeline(code: i32, pipeline: u64, bind_point: i32) -> (r: Result<PSO, PipelineFailure>)
    ensures
        r == pipeline_result(code, pipeline, bind_point),
{
    if code != RESULT_SUCCESS {
        let left_pipeline = if pipeline == 0 {
            None
        } else {
            Some(pipeline)
        };
        return Err(PipelineFailure { left_pipeline, failure: Failure::from_code(code) });
    }
    Ok(PSO { pso: pipeline, bind_point })
}

/// The creation of a graphics pipeline ended with a code.
pub fn on_graphics_pipeline(code: i32, pipeline: u64) -> (r: Result<PSO, PipelineFailure>)
    ensures
        r == pipeline_result(code, pipeline, BIND_POINT_GRAPHICS),
{
    on_pipeline(code, pipeline, BIND_POINT_GRAPHICS)
}

/// The creation of a compute pipeline ended with a code.
pub fn on_compute_pipeline(code: i32, pipeline: u64) -> (r: Result<PSO, PipelineFailure>)
    ensures
        r == pipeline_result(code, pipeline, BIND_POINT_COMPUTE),
{
    on_pipeline(code, pipeline, BIND_POINT_COMPUTE)
}

impl PSO {
    /// Binds the pipeline.
    pub fn bind(&self) -> (r: Command<'static>)
        ensures
            r == (Command::BindPipeline { bind_point: self.bind_point, pipeline: self.pso }),
    {
        Command::BindPipeline { bind_point: self.bind_point, pipeline: self.pso }
    }
}

/// A sampler to describe.
#[derive(Clone, Copy, Debug, PartialEq, Eq, Structural)]
pub struct SamplerInfo {
    pub mag_filter: i32,
    pub min_filter: i32,
    pub mipmap_mode: i32,
    pub address_mode_u: i32,
    pub address_mode_v: i32,
    pub address_mode_w: i32,
    pub anisotropy_enable: bool,
    pub max_anisotropy: Float,
    pub compare_enable: bool,
    pub compare_op: i32,
    pub max_lod: Float,
}

/// The sampler of the description. It reaches all mip levels, and at most 4 samples where it is
/// anisotropic.
pub open spec fn sampler_info(desc: SamplerDesc) -> SamplerInfo {
    SamplerInfo {
        mag_filter: desc.mag_filter.spec_raw(),
        min_filter: desc.min_filter.spec_raw(),
        mipmap_mode: desc.mip_filter.spec_raw(),
        address_mode_u: desc.address_u.spec_raw(),
        address_mode_v: desc.address_v.spec_raw(),
        address_mode_w: desc.address_w.spec_raw(),
        anisotropy_enable: desc.anisotropic,
        max_anisotropy: if desc.anisotropic {
            Float(FOUR_BITS)
        } else {
            Float(ONE_BITS)
        },
        compare_enable: desc.compare_enabled,
        compare_op: desc.compare.spec_raw(),
        max_lod: Float(THOUSAND_BITS),
    }
}

/// The sampler of the description.
pub fn make_sampler_info(desc: &SamplerDesc) -> (r: SamplerInfo)
    ensures
        r == sampler_info(*desc),
{
    let max_anisotropy = if desc.anisotropic {
        Float(FOUR_BITS)
    } else {
        Float(ONE_BITS)
    };
    SamplerInfo {
        mag_filter: desc.mag_filter.raw(),
        min_filter: desc.min_filter.raw(),
        mipmap_mode: desc.mip_filter.raw(),
        address_mode_u: desc.address_u.raw(),
        address_mode_v: desc.address_v.raw(),
        address_mode_w: desc.address_w.raw(),
        anisotropy_enable: desc.anisotropic,
        max_anisotropy,
        compare_enable: desc.compare_enabled,
        compare_op: desc.compare.raw(),
        max_lod: Float(THOUSAND_BITS),
    }
}

/// Depth bias is off exactly if all of its terms are zero: one that is not zero switches it on by
/// itself. The terms are handed on as they are.
pub proof fn any_bias_switches_it_on(state: RasterizationState)
    ensures
        ({
            let info = rasterization_info(state);
            &&& !info.depth_bias_enable <==> {
                &&& state.depth_bias_constant.spec_is_zero()
                &&& state.depth_bias_clamp.spec_is_zero()
                &&& state.depth_bias_slope.spec_is_zero()
            }
            &&& info.depth_bias_constant == state.depth_bias_constant
            &&& info.depth_bias_clamp == state.depth_bias_clamp
            &&& info.depth_bias_slope == state.depth_bias_slope
            &&& info.line_width == Float(0x3f80_0000)
        }),
{
}

/// Culling drops back faces, and those are the triangles that wind the culled way: the other winding
/// is in front. Without culling nothing is dropped. Bias plays no part in it.
pub proof fn culled_triangles_face_away(state: RasterizationState, other: RasterizationState)
    ensures
        ({
            let info = rasterization_info(state);
            &&& info.cull_mode == CULL_NONE <==> state.cull is Off
            &&& info.cull_mode == CULL_BACK <==> !(state.cull is Off)
            &&& state.cull is Clockwise ==> info.front_face == FRONT_FACE_COUNTER_CLOCKWISE
            &&& state.cull is CounterClockwise ==> info.front_face == FRONT_FACE_CLOCKWISE
            &&& state.cull is Off ==> info.front_face == FRONT_FACE_COUNTER_CLOCKWISE
            &&& state.cull == other.cull ==> info.cull_mode == rasterization_info(other).cull_mode
                && info.front_face == rasterization_info(other).front_face
        }),
{
}

/// Color and alpha are blended each by its own part of the state: a target with the parts exchanged
/// has them exchanged. The rest is handed on.
pub proof fn color_and_alpha_blend_apart(target: ColorTargetDesc)
    ensures
        ({
            let exchanged = ColorTargetDesc {
                blend: crate::state::BlendState {
                    color: target.blend.alpha,
                    alpha: target.blend.color,
                    ..target.blend
                },
                ..target
            };
            let made = blend_attachment(target);
            &&& made.enabled == target.blend.enabled
            &&& made.write_mask == target.write_mask
            &&& made.source_color == target.blend.color.source.spec_vk()
            &&& made.destination_color == target.blend.color.destination.spec_vk()
            &&& made.color_op == target.blend.color.operation.spec_raw()
            &&& blend_attachment(exchanged) == (BlendAttachment {
                source_color: made.source_alpha,
                destination_color: made.destination_alpha,
                color_op: made.alpha_op,
                source_alpha: made.source_color,
                destination_alpha: made.destination_color,
                alpha_op: made.color_op,
                ..made
            })
        }),
{
}

/// A pipeline runs its first shader as a vertex or mesh shader, and its fragment shader where it has
/// one, each with its own code.
pub proof fn shaders_run_in_their_stages<'a>(first: &'a [u32], fragment: &'a [u32], mesh: bool)
    ensures
        ({
            let stages = shader_stages(first, fragment, mesh);
            &&& stages.len() == 1 <==> fragment@.len() == 0
            &&& stages.len() == 2 <==> fragment@.len() > 0
            &&& stages[0].code == first
            &&& stages[0].stage == SHADER_STAGE_MESH <==> mesh
            &&& stages[0].stage == SHADER_STAGE_VERTEX <==> !mesh
            &&& mesh ==> stages[0].entry == MESH_ENTRY
            &&& !mesh ==> stages[0].entry == VERTEX_ENTRY
            &&& fragment@.len() > 0 ==> {
                &&& stages[1].code == fragment
                &&& stages[1].stage == SHADER_STAGE_FRAGMENT
                &&& stages[1].entry == FRAGMENT_ENTRY
            }
        }),
{
}

/// What a recording can set without a new pipeline is left open by every pipeline: the viewport, the
/// scissor, and each part of the depth and stencil tests, each once.
pub proof fn tests_are_left_to_recordings()
    ensures
        dynamic_states().no_duplicates(),
        dynamic_states().contains(DYNAMIC_VIEWPORT_WITH_COUNT),
        dynamic_states().contains(DYNAMIC_SCISSOR_WITH_COUNT),
        dynamic_states().contains(DYNAMIC_DEPTH_TEST_ENABLE),
        dynamic_states().contains(DYNAMIC_DEPTH_WRITE_ENABLE),
        dynamic_states().contains(DYNAMIC_DEPTH_COMPARE_OP),
        dynamic_states().contains(DYNAMIC_STENCIL_TEST_ENABLE),
        dynamic_states().contains(DYNAMIC_STENCIL_OP),
        dynamic_states().contains(DYNAMIC_STENCIL_COMPARE_MASK),
        dynamic_states().contains(DYNAMIC_STENCIL_WRITE_MASK),
        dynamic_states().contains(DYNAMIC_STENCIL_REFERENCE),
        dynamic_states().len() == 10,
{
    let states = dynamic_states();
    assert(states[0] == DYNAMIC_VIEWPORT_WITH_COUNT);
    assert(states[1] == DYNAMIC_SCISSOR_WITH_COUNT);
    assert(states[2] == DYNAMIC_DEPTH_TEST_ENABLE);
    assert(states[3] == DYNAMIC_DEPTH_WRITE_ENABLE);
    assert(states[4] == DYNAMIC_DEPTH_COMPARE_OP);
    assert(states[5] == DYNAMIC_STENCIL_TEST_ENABLE);
    assert(states[6] == DYNAMIC_STENCIL_OP);
    assert(states[7] == DYNAMIC_STENCIL_COMPARE_MASK);
    assert(states[8] == DYNAMIC_STENCIL_WRITE_MASK);
    assert(states[9] == DYNAMIC_STENCIL_REFERENCE);
}

/// A pipeline is owned exactly if its creation succeeded, under the handle that was given. After a
/// failure a handle that was given nevertheless is handed back, so that none is lost.
pub proof fn pipelines_are_owned_or_handed_back(code: i32, pipeline: u64, bind_point: i32)
    ensures
        match pipeline_result(code, pipeline, bind_point) {
            Ok(pso) => code == 0 && pso.pso == pipeline && pso.bind_point == bind_point,
            Err(failed) => {
                &&& code != 0
                &&& failed.failure == failure_of(code)
                &&& failed.left_pipeline is Some <==> pipeline != 0
                &&& failed.left_pipeline matches Some(left) ==> left == pipeline
            },
        },
{
}

/// Each axis and each kind of filtering follows its own part of the description, comparison and
/// anisotropy are on exactly if they are asked for, and all mip levels are in reach.
pub proof fn samplers_follow_their_parts(desc: SamplerDesc, other: SamplerDesc)
    ensures
        ({
            let (made, next) = (sampler_info(desc), sampler_info(other));
            &&& made.min_filter == next.min_filter <==> desc.min_filter == other.min_filter
            &&& made.mag_filter == next.mag_filter <==> desc.mag_filter == other.mag_filter
            &&& made.mipmap_mode == next.mipmap_mode <==> desc.mip_filter == other.mip_filter
            &&& made.address_mode_u == next.address_mode_u <==> desc.address_u == other.address_u
            &&& made.address_mode_v == next.address_mode_v <==> desc.address_v == other.address_v
            &&& made.address_mode_w == next.address_mode_w <==> desc.address_w == other.address_w
            &&& made.compare_op == next.compare_op <==> desc.compare == other.compare
            &&& made.min_filter == made.mag_filter <==> desc.min_filter == desc.mag_filter
            &&& made.mipmap_mode == made.mag_filter <==> desc.mip_filter == desc.mag_filter
            &&& made.address_mode_u == made.address_mode_v <==> desc.address_u == desc.address_v
            &&& made.address_mode_w == made.address_mode_v <==> desc.address_w == desc.address_v
            &&& made.mag_filter == desc.mag_filter.spec_raw()
            &&& made.address_mode_v == desc.address_v.spec_raw()
            &&& made.compare_op == desc.compare.spec_raw()
            &&& made.compare_enable == desc.compare_enabled
            &&& made.anisotropy_enable == desc.anisotropic
            &&& desc.anisotropic ==> made.max_anisotropy == Float(0x4080_0000)
            &&& !desc.anisotropic ==> made.max_anisotropy == Float(0x3f80_0000)
            &&& made.max_lod == Float(0x447a_0000)
        }),
{
}

/// A graphics and a mesh pipeline of the same parts differ in their first shader and in having a
/// vertex input alone. Each target is written in its own format and by its own blend state, in order.
pub proof fn pipelines_are_of_their_parts<'a>(
    graphics: GraphicsPSODesc<'a>,
    mesh: MeshPSODesc<'a>,
    place: int,
    r: RasterPipeline<'a>,
    m: RasterPipeline<'a>,
)
    requires
        call_ensures(GraphicsPSODesc::<'a>::pipeline, (&graphics,), r),
        call_ensures(MeshPSODesc::<'a>::pipeline, (&mesh,), m),
    ensures
        r.vertex_input && !m.vertex_input,
        r.stages@[0].code == graphics.vertex_spirv && r.stages@[0].stage == SHADER_STAGE_VERTEX,
        m.stages@[0].code == mesh.mesh_spirv && m.stages@[0].stage == SHADER_STAGE_MESH,
        graphics.fragment_spirv@.len() > 0 ==> r.stages@[1].code == graphics.fragment_spirv,
        mesh.fragment_spirv@.len() > 0 ==> m.stages@[1].code == mesh.fragment_spirv,
        r.attachments@.len() == r.color_formats@.len() == graphics.color_targets@.len(),
        0 <= place < graphics.color_targets@.len() ==> {
            let target = graphics.color_targets@[place];
            &&& r.color_formats@[place] == target.format.spec_vk()
            &&& r.attachments@[place].enabled == target.blend.enabled
            &&& r.attachments@[place].write_mask == target.write_mask
        },
        r.depth_format == graphics.depth_format.spec_vk(),
        r.stencil_format == graphics.stencil_format.spec_vk(),
        m.depth_format == mesh.depth_format.spec_vk(),
        m.stencil_format == mesh.stencil_format.spec_vk(),
        r.rasterization.depth_bias_constant == graphics.rasterization.depth_bias_constant,
        graphics.rasterization == mesh.rasterization ==> r.rasterization == m.rasterization,
        graphics.color_targets == mesh.color_targets ==> r.attachments@ == m.attachments@
            && r.color_formats@ == m.color_formats@,
        r.dynamic_states@ == m.dynamic_states@,
{
}

/// A compute pipeline runs its code from its own entry point.
pub proof fn compute_shaders_run_their_code<'a>(code: &'a [u32], r: ShaderStage<'a>)
    requires
        call_ensures(compute_stage, (code,), r),
    ensures
        r.code == code,
        r.stage == SHADER_STAGE_COMPUTE,
        r.entry == COMPUTE_ENTRY,
{
}

/// Pipelines are bound where they run: those that draw and those that compute apart.
pub proof fn pipelines_are_bound_where_they_run(
    code: i32,
    pipeline: u64,
    graphics: Result<PSO, PipelineFailure>,
    compute: Result<PSO, PipelineFailure>,
)
    requires
        call_ensures(on_graphics_pipeline, (code, pipeline), graphics),
        call_ensures(on_compute_pipeline, (code, pipeline), compute),
    ensures
        graphics is Ok <==> code == 0,
        compute is Ok <==> code == 0,
        graphics matches Ok(pso) ==> pso.pso == pipeline && pso.bind_point == BIND_POINT_GRAPHICS,
        compute matches Ok(pso) ==> pso.pso == pipeline && pso.bind_point == BIND_POINT_COMPUTE,
{
}

} // verus!
