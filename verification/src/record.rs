//! What is recorded into command buffers.

use crate::enums::{LoadOp, StoreOp};
use crate::flags::{access_table, encoded, stage_table, Access, Stage};
use crate::heap::{GpuRange, HeapBinding};
use crate::state::{
    ClearColor, DepthStencilState, Float, Scissor, StencilFaceState, Viewport, ONE_BITS, ZERO_BITS,
};
use crate::texture::{CopyRegion, RenderView, Uint32x3};
use crate::vulkan::{
    ExtensionBits, STENCIL_FACE_BACK, STENCIL_FACE_FRONT, STENCIL_FACE_FRONT_AND_BACK,
};
use std::sync::Arc;
use vstd::prelude::*;

verus! {

/// The most color attachments of a render pass.
pub const MAX_COLOR_ATTACHMENTS: usize = 8;

/// A color attachment of a render pass.
#[derive(Clone, Debug)]
pub struct ColorAttachment {
    pub render_view: Option<Arc<RenderView>>,
    pub load: LoadOp,
    pub store: StoreOp,
    pub clear: ClearColor,
}

impl Default for ColorAttachment {
    fn default() -> (r: Self)
        ensures
            r.render_view is None,
            r.load == LoadOp::Load,
            r.store == StoreOp::Store,
            r.clear == ClearColor::spec_default(),
    {
        ColorAttachment {
            render_view: None,
            load: LoadOp::Load,
            store: StoreOp::Store,
            clear: ClearColor::default(),
        }
    }
}

/// The depth attachment of a render pass.
#[derive(Clone, Debug)]
pub struct DepthAttachment {
    pub render_view: Option<Arc<RenderView>>,
    pub load: LoadOp,
    pub store: StoreOp,
    pub clear: Float,
}

impl Default for DepthAttachment {
    fn default() -> (r: Self)
        ensures
            r.render_view is None,
            r.load == LoadOp::Load,
            r.store == StoreOp::Store,
            r.clear == Float(ONE_BITS),
    {
        DepthAttachment {
            render_view: None,
            load: LoadOp::Load,
            store: StoreOp::Store,
            clear: Float(ONE_BITS),
        }
    }
}

/// The stencil attachment of a render pass.
#[derive(Clone, Debug)]
pub struct StencilAttachment {
    pub render_view: Option<Arc<RenderView>>,
    pub load: LoadOp,
    pub store: StoreOp,
    pub clear: u8,
}

impl Default for StencilAttachment {
    fn default() -> (r: Self)
        ensures
            r.render_view is None,
            r.load == LoadOp::Load,
            r.store == StoreOp::Store,
            r.clear == 0,
    {
        StencilAttachment {
            render_view: None,
            load: LoadOp::Load,
            store: StoreOp::Store,
            clear: 0,
        }
    }
}

/// The attachments of a render pass.
#[derive(Clone, Debug)]
pub struct RenderingDesc<'a> {
    pub colors: &'a [ColorAttachment],
    pub depth: DepthAttachment,
    pub stencil: StencilAttachment,
}

impl<'a> Default for RenderingDesc<'a> {
    fn default() -> (r: Self)
        ensures
            r.colors@.len() == 0,
            r.depth.render_view is None,
            r.depth.load == LoadOp::Load,
            r.depth.store == StoreOp::Store,
            r.depth.clear == Float(ONE_BITS),
            r.stencil.render_view is None,
            r.stencil.load == LoadOp::Load,
            r.stencil.store == StoreOp::Store,
            r.stencil.clear == 0,
    {
        RenderingDesc {
            colors: &[],
            depth: DepthAttachment::default(),
            stencil: StencilAttachment::default(),
        }
    }
}

/// A layout transition of an image, within one queue family.
#[derive(Clone, Copy, Debug, PartialEq, Eq, Structural)]
pub struct ImageBarrier {
    pub source_stage: u64,
    pub source_access: u64,
    pub destination_stage: u64,
    pub destination_access: u64,
    pub old_layout: i32,
    pub new_layout: i32,
    pub image: u64,
    pub aspect_mask: u32,
    pub level_count: u32,
    pub layer_count: u32,
}

/// The value that an attachment is cleared to.
#[derive(Clone, Copy, Debug, PartialEq, Eq, Structural)]
pub enum ClearValue {
    Color(ClearColor),
    DepthStencil { depth: Float, stencil: u32 },
}

/// An attachment in the general layout.
#[derive(Clone, Copy, Debug, PartialEq, Eq, Structural)]
pub struct AttachmentInfo {
    pub view: u64,
    pub load_op: i32,
    pub store_op: i32,
    pub clear: ClearValue,
}

/// A render pass of one layer over an area that starts at the origin.
#[derive(Debug)]
pub struct RenderingInfo {
    pub width: u32,
    pub height: u32,
    pub colors: Vec<AttachmentInfo>,
    pub depth: Option<AttachmentInfo>,
    pub stencil: Option<AttachmentInfo>,
}

/// One command of a command buffer.
#[derive(Clone, Copy, Debug)]
pub enum Command<'a> {
    BindPipeline { bind_point: i32, pipeline: u64 },
    /// Resets the first `count` queries.
    ResetQueries { pool: u64, count: u32 },
    WriteTimestamp { stage: u64, pool: u64, query: u32 },
    /// Waits for a query and copies its 64-bit result to memory.
    CopyQueryResult { pool: u64, query: u32, address: u64 },
    MemoryBarrier {
        source_stage: u64,
        source_access: u64,
        destination_stage: u64,
        destination_access: u64,
    },
    BindTextureHeap(HeapBinding),
    BindSamplerHeap(HeapBinding),
    SetViewport(Viewport),
    /// Sets the viewport to an area at the origin, with the full depth range.
    SetViewportToArea { width: u32, height: u32 },
    SetScissor(Scissor),
    SetDepthTest(bool),
    SetDepthWrite(bool),
    SetDepthCompare(i32),
    SetStencilTest(bool),
    SetStencilOps { faces: u32, fail: i32, pass: i32, depth_fail: i32, compare: i32 },
    SetStencilCompareMask { faces: u32, mask: u32 },
    SetStencilWriteMask { faces: u32, mask: u32 },
    SetStencilReference { faces: u32, reference: u32 },
    EndRendering,
    PushData(&'a [u8]),
    Draw { vertex_count: u32, instance_count: u32, first_vertex: u32, first_instance: u32 },
    BindIndices { range: GpuRange, index_type: i32 },
    DrawIndexed {
        index_count: u32,
        instance_count: u32,
        first_index: u32,
        vertex_offset: i32,
        first_instance: u32,
    },
    DrawIndirect { range: GpuRange, stride: u64, draw_count: u32 },
    DrawIndexedIndirect { range: GpuRange, stride: u64, draw_count: u32 },
    Dispatch { groups: Uint32x3 },
    DispatchIndirect { range: GpuRange },
    DrawMeshTasks { groups: Uint32x3 },
    DrawMeshTasksIndirect { range: GpuRange, stride: u64, draw_count: u32 },
    CopyMemory { source: GpuRange, destination: GpuRange },
    CopyMemoryToImage { image: u64, region: CopyRegion },
    CopyImageToMemory { image: u64, region: CopyRegion },
}

/// Size of `ash::vk::DrawIndirectCommand`, by `std::mem::size_of`. The type is laid out as in C
/// and holds four numbers of 32 bits.
#[verifier::external_body]
pub(crate) fn draw_indirect_command_size() -> (r: u64)
    ensures
        r == 16,
{
    std::mem::size_of::<ash::vk::DrawIndirectCommand>() as u64
}

/// Size of `ash::vk::DrawIndexedIndirectCommand`, by `std::mem::size_of`. The type is laid out as
/// in C and holds five numbers of 32 bits.
#[verifier::external_body]
pub(crate) fn draw_indexed_indirect_command_size() -> (r: u64)
    ensures
        r == 20,
{
    std::mem::size_of::<ash::vk::DrawIndexedIndirectCommand>() as u64
}

/// Size of `ash::vk::DrawMeshTasksIndirectCommandEXT`, by `std::mem::size_of`. The type is laid
/// out as in C and holds three numbers of 32 bits.
#[verifier::external_body]
pub(crate) fn draw_mesh_tasks_indirect_command_size() -> (r: u64)
    ensures
        r == 12,
{
    std::mem::size_of::<ash::vk::DrawMeshTasksIndirectCommandEXT>() as u64
}

/// The distance of indirect arguments: as given, or tightly packed where it is 0.
pub open spec fn stride_or(stride: u32, packed: u64) -> u64 {
    if stride == 0 {
        packed
    } else {
        stride as u64
    }
}

/// The command that hands root data to shaders, unless there is none.
pub open spec fn root_data<'a>(root: &'a [u8]) -> Seq<Command<'a>> {
    if root@.len() == 0 {
        seq![]
    } else {
        seq![Command::PushData(root)]
    }
}

pub(crate) fn emit_root_data<'a>(root: &'a [u8]) -> (r: Vec<Command<'a>>)
    ensures
        r@ == root_data(root),
{
    let mut commands: Vec<Command<'a>> = Vec::new();
    if root.len() != 0 {
        commands.push(Command::PushData(root));
    }
    commands
}

/// The barrier between two stages and their accesses.
pub open spec fn barrier_command(
    before: Stage,
    before_access: Access,
    after: Stage,
    after_access: Access,
    ext: ExtensionBits,
) -> Command<'static> {
    Command::MemoryBarrier {
        source_stage: encoded(before.0, stage_table()),
        source_access: encoded(before_access.0, access_table(ext)),
        destination_stage: encoded(after.0, stage_table()),
        destination_access: encoded(after_access.0, access_table(ext)),
    }
}

pub(crate) fn barrier(
    before: Stage,
    before_access: Access,
    after: Stage,
    after_access: Access,
    ext: ExtensionBits,
) -> (r: Command<'static>)
    ensures
        r == barrier_command(before, before_access, after, after_access, ext),
{
    Command::MemoryBarrier {
        source_stage: before.vk(),
        source_access: before_access.vk(ext),
        destination_stage: after.vk(),
        destination_access: after_access.vk(ext),
    }
}

/// The commands that set the operations of a stencil face.
pub open spec fn stencil_ops(faces: u32, state: StencilFaceState) -> Command<'static> {
    Command::SetStencilOps {
        faces,
        fail: state.fail.spec_raw(),
        pass: state.pass.spec_raw(),
        depth_fail: state.depth_fail.spec_raw(),
        compare: state.compare.spec_raw(),
    }
}

/// The commands that set the depth test: its details count only where it is on.
pub open spec fn depth_commands(state: DepthStencilState) -> Seq<Command<'static>> {
    seq![Command::SetDepthTest(state.depth_test)] + if state.depth_test {
        seq![
            Command::SetDepthWrite(state.depth_write),
            Command::SetDepthCompare(state.depth_compare.spec_raw()),
        ]
    } else {
        seq![]
    }
}

/// The commands that set the stencil test: its details count only where it is on.
pub open spec fn stencil_commands(state: DepthStencilState) -> Seq<Command<'static>> {
    seq![Command::SetStencilTest(state.stencil_test)] + if state.stencil_test {
        seq![
            stencil_ops(STENCIL_FACE_FRONT, state.front),
            stencil_ops(STENCIL_FACE_BACK, state.back),
            Command::SetStencilCompareMask {
                faces: STENCIL_FACE_FRONT_AND_BACK,
                mask: state.stencil_read_mask as u32,
            },
            Command::SetStencilWriteMask {
                faces: STENCIL_FACE_FRONT_AND_BACK,
                mask: state.stencil_write_mask as u32,
            },
            Command::SetStencilReference {
                faces: STENCIL_FACE_FRONT,
                reference: state.front.reference as u32,
            },
            Command::SetStencilReference {
                faces: STENCIL_FACE_BACK,
                reference: state.back.reference as u32,
            },
        ]
    } else {
        seq![]
    }
}

fn make_stencil_ops(faces: u32, state: &StencilFaceState) -> (r: Command<'static>)
    ensures
        r == stencil_ops(faces, *state),
{
    Command::SetStencilOps {
        faces,
        fail: state.fail.raw(),
        pass: state.pass.raw(),
        depth_fail: state.depth_fail.raw(),
        compare: state.compare.raw(),
    }
}

pub(crate) fn set_depth_stencil(state: &DepthStencilState) -> (r: Vec<Command<'static>>)
    ensures
        r@ == depth_commands(*state) + stencil_commands(*state),
{
    let mut commands: Vec<Command<'static>> = Vec::new();
    commands.push(Command::SetDepthTest(state.depth_test));
    if state.depth_test {
        commands.push(Command::SetDepthWrite(state.depth_write));
        commands.push(Command::SetDepthCompare(state.depth_compare.raw()));
    }
    assert(commands@ =~= depth_commands(*state));
    commands.push(Command::SetStencilTest(state.stencil_test));
    if !state.stencil_test {
        return commands;
    }
    commands.push(make_stencil_ops(STENCIL_FACE_FRONT, &state.front));
    commands.push(make_stencil_ops(STENCIL_FACE_BACK, &state.back));
    commands.push(
        Command::SetStencilCompareMask {
            faces: STENCIL_FACE_FRONT_AND_BACK,
            mask: state.stencil_read_mask as u32,
        },
    );
    commands.push(
        Command::SetStencilWriteMask {
            faces: STENCIL_FACE_FRONT_AND_BACK,
            mask: state.stencil_write_mask as u32,
        },
    );
    commands.push(
        Command::SetStencilReference {
            faces: STENCIL_FACE_FRONT,
            reference: state.front.reference as u32,
        },
    );
    commands.push(
        Command::SetStencilReference {
            faces: STENCIL_FACE_BACK,
            reference: state.back.reference as u32,
        },
    );
    commands
}

impl<'a> RenderingDesc<'a> {
    /// The render pass has an attachment, not too many colors, and a view for each color.
    pub open spec fn wf(&self) -> bool {
        &&& self.colors@.len() <= MAX_COLOR_ATTACHMENTS
        &&& forall|i: int|
            0 <= i < self.colors@.len() ==> (#[trigger] self.colors@[i]).render_view is Some
        &&& self.area_view() is Some
    }

    /// The view whose size is the render area: that of the first color, else of depth, else of
    /// stencil.
    pub open spec fn area_view(&self) -> Option<Arc<RenderView>> {
        if self.colors@.len() > 0 {
            self.colors@[0].render_view
        } else if self.depth.render_view is Some {
            self.depth.render_view
        } else {
            self.stencil.render_view
        }
    }

    /// The color attachments.
    pub open spec fn color_infos(&self) -> Seq<AttachmentInfo> {
        self.colors@.map_values(
            |a: ColorAttachment|
                AttachmentInfo {
                    view: a.render_view->0.view,
                    load_op: a.load.spec_raw(),
                    store_op: a.store.spec_raw(),
                    clear: ClearValue::Color(a.clear),
                },
        )
    }

    /// The depth attachment, if there is one.
    pub open spec fn depth_info(&self) -> Option<AttachmentInfo> {
        match self.depth.render_view {
            Some(view) => Some(
                AttachmentInfo {
                    view: view.view,
                    load_op: self.depth.load.spec_raw(),
                    store_op: self.depth.store.spec_raw(),
                    clear: ClearValue::DepthStencil { depth: self.depth.clear, stencil: 0 },
                },
            ),
            None => None,
        }
    }

    /// The stencil attachment, if there is one.
    pub open spec fn stencil_info(&self) -> Option<AttachmentInfo> {
        match self.stencil.render_view {
            Some(view) => Some(
                AttachmentInfo {
                    view: view.view,
                    load_op: self.stencil.load.spec_raw(),
                    store_op: self.stencil.store.spec_raw(),
                    clear: ClearValue::DepthStencil {
                        depth: Float(ZERO_BITS),
                        stencil: self.stencil.clear as u32,
                    },
                },
            ),
            None => None,
        }
    }
}

/// The state that a render pass over an area starts with: the whole area, and no depth or stencil
/// test.
pub open spec fn initial_state(width: u32, height: u32) -> Seq<Command<'static>> {
    seq![
        Command::SetViewportToArea { width, height },
        Command::SetScissor(Scissor { x: 0, y: 0, width, height }),
        Command::SetDepthTest(false),
        Command::SetStencilTest(false),
    ]
}

pub(crate) fn begin_render_pass<'a>(desc: &RenderingDesc<'a>) -> (r: (
    RenderingInfo,
    Vec<Command<'static>>,
))
    requires
        desc.wf(),
    ensures
        r.0.width == desc.area_view()->0.width,
        r.0.height == desc.area_view()->0.height,
        r.0.colors@ == desc.color_infos(),
        r.0.depth == desc.depth_info(),
        r.0.stencil == desc.stencil_info(),
        r.1@ == initial_state(r.0.width, r.0.height),
{
    let (width, height): (u32, u32) = if desc.colors.len() > 0 {
        match &desc.colors[0].render_view {
            Some(view) => (view.width, view.height),
            None => (0, 0),
        }
    } else {
        match &desc.depth.render_view {
            Some(view) => (view.width, view.height),
            None => match &desc.stencil.render_view {
                Some(view) => (view.width, view.height),
                None => (0, 0),
            },
        }
    };
    let mut colors: Vec<AttachmentInfo> = Vec::new();
    let mut i: usize = 0;
    while i < desc.colors.len()
        invariant
            i <= desc.colors@.len(),
            desc.wf(),
            colors@ == desc.color_infos().take(i as int),
        decreases desc.colors@.len() - i,
    {
        let attachment = &desc.colors[i];
        if let Some(view) = &attachment.render_view {
            colors.push(
                AttachmentInfo {
                    view: view.view,
                    load_op: attachment.load.raw(),
                    store_op: attachment.store.raw(),
                    clear: ClearValue::Color(attachment.clear),
                },
            );
        }
        i += 1;
        assert(colors@ =~= desc.color_infos().take(i as int));
    }
    assert(colors@ =~= desc.color_infos());
    let depth = match &desc.depth.render_view {
        Some(view) => Some(
            AttachmentInfo {
                view: view.view,
                load_op: desc.depth.load.raw(),
                store_op: desc.depth.store.raw(),
                clear: ClearValue::DepthStencil { depth: desc.depth.clear, stencil: 0 },
            },
        ),
        None => None,
    };
    let stencil = match &desc.stencil.render_view {
        Some(view) => Some(
            AttachmentInfo {
                view: view.view,
                load_op: desc.stencil.load.raw(),
                store_op: desc.stencil.store.raw(),
                clear: ClearValue::DepthStencil {
                    depth: Float(ZERO_BITS),
                    stencil: desc.stencil.clear as u32,
                },
            },
        ),
        None => None,
    };
    let mut state: Vec<Command<'static>> = Vec::new();
    state.push(Command::SetViewportToArea { width, height });
    state.push(Command::SetScissor(Scissor { x: 0, y: 0, width, height }));
    let mut tests = set_depth_stencil(&DepthStencilState::default());
    state.append(&mut tests);
    assert(state@ =~= initial_state(width, height));
    (RenderingInfo { width, height, colors, depth, stencil }, state)
}

/// An attachment depends on its own description alone: render passes with the same description of
/// an attachment have the same attachment, whatever else they attach.
pub proof fn attachments_are_independent<'a, 'b>(
    a: RenderingDesc<'a>,
    b: RenderingDesc<'b>,
    i: int,
    j: int,
)
    requires
        0 <= i < a.colors@.len(),
        0 <= j < b.colors@.len(),
    ensures
        a.stencil == b.stencil ==> a.stencil_info() == b.stencil_info(),
        a.depth == b.depth ==> a.depth_info() == b.depth_info(),
        a.colors@[i] == b.colors@[j] ==> a.color_infos()[i] == b.color_infos()[j],
{
}

/// What the numbers of an attachment mean for its contents.
pub open spec fn carries_out(info: AttachmentInfo, load: LoadOp, store: StoreOp) -> bool {
    &&& info.load_op == 0 <==> load is Load
    &&& info.load_op == 1 <==> load is Clear
    &&& info.load_op == 2 <==> load is Discard
    &&& info.store_op == 0 <==> store is Store
    &&& info.store_op == 1 <==> store is Discard
}

/// Each attachment that is described is there, with its own view, and treats its contents as its
/// description asks: it is cleared exactly if that is asked for, to the value that is named.
pub proof fn attachments_do_as_described<'a>(desc: RenderingDesc<'a>, i: int)
    requires
        desc.wf(),
    ensures
        desc.color_infos().len() == desc.colors@.len(),
        0 <= i < desc.colors@.len() ==> {
            let (color, info) = (desc.colors@[i], desc.color_infos()[i]);
            &&& color.render_view matches Some(view) && info.view == view.view
            &&& carries_out(info, color.load, color.store)
            &&& info.clear == ClearValue::Color(color.clear)
        },
        desc.depth_info() is Some <==> desc.depth.render_view is Some,
        desc.depth_info() matches Some(info) ==> {
            &&& info.view == desc.depth.render_view->0.view
            &&& carries_out(info, desc.depth.load, desc.depth.store)
            &&& info.clear matches ClearValue::DepthStencil { depth, .. } && depth
                == desc.depth.clear
        },
        desc.stencil_info() is Some <==> desc.stencil.render_view is Some,
        desc.stencil_info() matches Some(info) ==> {
            &&& info.view == desc.stencil.render_view->0.view
            &&& carries_out(info, desc.stencil.load, desc.stencil.store)
            &&& info.clear matches ClearValue::DepthStencil { stencil, .. } && stencil
                == desc.stencil.clear
        },
{
}

/// The render area is that of the first color if there is one, else of depth, else of stencil. A
/// render pass with any attachment has one.
pub proof fn render_areas_follow_the_first_attachment<'a>(desc: RenderingDesc<'a>)
    ensures
        desc.colors@.len() > 0 ==> desc.area_view() == desc.colors@[0].render_view,
        desc.colors@.len() == 0 && desc.depth.render_view is Some ==> desc.area_view()
            == desc.depth.render_view,
        desc.colors@.len() == 0 && desc.depth.render_view is None ==> desc.area_view()
            == desc.stencil.render_view,
        desc.wf() ==> desc.colors@.len() <= 8,
        desc.wf() ==> desc.colors@.len() > 0 || desc.depth.render_view is Some
            || desc.stencil.render_view is Some,
        desc.colors@.len() == 0 && (desc.depth.render_view is Some || desc.stencil.render_view
            is Some) ==> desc.wf(),
        0 < desc.colors@.len() <= 8 && (forall|i: int|
            0 <= i < desc.colors@.len() ==> (#[trigger] desc.colors@[i]).render_view is Some)
            ==> desc.wf(),
{
}

/// A render pass starts with a viewport and a scissor over the whole area, and with the default
/// depth and stencil tests.
pub proof fn render_passes_start_with_defaults(width: u32, height: u32)
    ensures
        ({
            let start = initial_state(width, height);
            let tests = DepthStencilState::spec_default();
            &&& start[0] matches Command::SetViewportToArea { width: w, height: h } && w == width
                && h == height
            &&& start[1] matches Command::SetScissor(scissor) && scissor.x == 0 && scissor.y == 0
                && scissor.width == width && scissor.height == height
            &&& start.skip(2) =~= depth_commands(tests) + stencil_commands(tests)
            &&& start.contains(Command::SetDepthTest(false))
            &&& start.contains(Command::SetStencilTest(false))
        }),
{
    let start = initial_state(width, height);
    assert(start[2] == Command::SetDepthTest(false));
    assert(start[3] == Command::SetStencilTest(false));
}

/// The depth test is switched as the state says. Where it is on, what it writes and how it compares
/// are set too; where it is off, nothing else changes.
pub proof fn depth_tests_are_set(state: DepthStencilState, other: DepthStencilState)
    ensures
        ({
            let commands = depth_commands(state);
            &&& commands[0] == Command::SetDepthTest(state.depth_test)
            &&& commands.len() == if state.depth_test {
                3int
            } else {
                1
            }
            &&& state.depth_test ==> commands[1] == Command::SetDepthWrite(state.depth_write)
            &&& state.depth_test ==> commands[2] == Command::SetDepthCompare(
                state.depth_compare.spec_raw(),
            )
            &&& state.depth_test == other.depth_test && state.depth_write == other.depth_write
                && state.depth_compare == other.depth_compare ==> commands == depth_commands(other)
        }),
{
}

/// The stencil test is switched as the state says. Where it is on, each face gets its own
/// operations, comparison and reference, and both get the masks; where it is off, nothing else
/// changes.
pub proof fn stencil_tests_are_set(state: DepthStencilState)
    ensures
        ({
            let commands = stencil_commands(state);
            &&& commands[0] == Command::SetStencilTest(state.stencil_test)
            &&& !state.stencil_test ==> commands.len() == 1
            &&& state.stencil_test ==> {
                &&& commands.len() == 7
                &&& commands[1] matches Command::SetStencilOps {
                    faces,
                    fail,
                    pass,
                    depth_fail,
                    compare,
                } && faces == STENCIL_FACE_FRONT && fail == state.front.fail.spec_raw() && pass
                    == state.front.pass.spec_raw() && depth_fail
                    == state.front.depth_fail.spec_raw() && compare
                    == state.front.compare.spec_raw()
                &&& commands[2] matches Command::SetStencilOps {
                    faces,
                    fail,
                    pass,
                    depth_fail,
                    compare,
                } && faces == STENCIL_FACE_BACK && fail == state.back.fail.spec_raw() && pass
                    == state.back.pass.spec_raw() && depth_fail == state.back.depth_fail.spec_raw()
                    && compare == state.back.compare.spec_raw()
                &&& commands[3] matches Command::SetStencilCompareMask { faces, mask } && faces
                    == STENCIL_FACE_FRONT_AND_BACK && mask == state.stencil_read_mask
                &&& commands[4] matches Command::SetStencilWriteMask { faces, mask } && faces
                    == STENCIL_FACE_FRONT_AND_BACK && mask == state.stencil_write_mask
                &&& commands[5] matches Command::SetStencilReference { faces, reference } && faces
                    == STENCIL_FACE_FRONT && reference == state.front.reference
                &&& commands[6] matches Command::SetStencilReference { faces, reference } && faces
                    == STENCIL_FACE_BACK && reference == state.back.reference
            }
        }),
{
}

/// A barrier waits for what comes before and holds back what comes after: with the two exchanged,
/// source and destination are exchanged. What is named before is found in the source alone.
pub proof fn barriers_have_two_sides(
    before: Stage,
    before_access: Access,
    after: Stage,
    after_access: Access,
    ext: ExtensionBits,
)
    ensures
        barrier_command(before, before_access, after, after_access, ext) matches
            Command::MemoryBarrier {
                source_stage,
                source_access,
                destination_stage,
                destination_access,
            } && {
            &&& source_stage == encoded(before.0, stage_table())
            &&& source_access == encoded(before_access.0, access_table(ext))
            &&& barrier_command(after, after_access, before, before_access, ext) == (
            Command::MemoryBarrier {
                source_stage: destination_stage,
                source_access: destination_access,
                destination_stage: source_stage,
                destination_access: source_access,
            })
        },
{
}

/// A stride counts as it is given, and 0 stands for arguments without a gap: of `packed` bytes.
pub proof fn strides_count_unless_zero(stride: u32, packed: u64)
    ensures
        stride > 0 ==> stride_or(stride, packed) == stride,
        stride_or(0, packed) == packed,
{
}

/// Root data is pushed once and whole, and nothing is pushed without any.
pub proof fn root_data_is_pushed_once<'a>(root: &'a [u8])
    ensures
        root@.len() == 0 <==> root_data(root).len() == 0,
        root@.len() > 0 ==> root_data(root).len() == 1 && root_data(root)[0] == Command::PushData(
            root,
        ),
{
}

} // verus!
