//! Operations of the device that record commands.

use crate::commands::CommandBuffer;
use crate::device::Device;
use crate::enums::{IndexType, MemoryType};
use crate::flags::{encoded, stage_table, Access, Stage};
use crate::heap::{heap_bindable, heap_binding, make_heap_bind_info, GpuRange};
use crate::pipeline::PSO;
use crate::record::{
    barrier, barrier_command, begin_render_pass, depth_commands, draw_indexed_indirect_command_size,
    draw_indirect_command_size, draw_mesh_tasks_indirect_command_size, emit_root_data,
    initial_state, root_data, set_depth_stencil, stencil_commands, stride_or, Command,
    RenderingDesc, RenderingInfo,
};
use crate::state::{DepthStencilState, Scissor, Viewport};
use crate::texture::{
    copy_region, copyable, make_texture_copy_region, Texture, TextureCopyDesc, Uint32x3,
};
use vstd::prelude::*;

verus! {

/// Commands to record into a command buffer.
#[derive(Debug)]
pub struct Recording<'a> {
    pub command_buffer: u64,
    pub commands: Vec<Command<'a>>,
}

fn record_one(commands: &CommandBuffer, command: Command<'static>) -> (r: Recording<'static>)
    ensures
        r.command_buffer == commands.command_buffer,
        r.commands@ == seq![command],
{
    let mut list: Vec<Command<'static>> = Vec::new();
    list.push(command);
    assert(list@ =~= seq![command]);
    Recording { command_buffer: commands.command_buffer, commands: list }
}

impl Device {
    /// Binds a pipeline.
    pub fn bind_pso(&self, commands: &CommandBuffer, pso: &PSO) -> (r: Recording<'static>)
        ensures
            r.command_buffer == commands.command_buffer,
            r.commands@ == seq![
                Command::BindPipeline { bind_point: pso.bind_point, pipeline: pso.pso },
            ],
    {
        record_one(commands, pso.bind())
    }

    /// Writes the time at which a stage has finished, for a destination in memory.
    pub fn write_timestamp(
        &self,
        commands: &mut CommandBuffer,
        gpu_destination: u64,
        stage: Stage,
    ) -> (r: Recording<'static>)
        requires
            old(commands).wf(),
            old(commands).timestamp_count < old(commands).timestamp_destinations@.len(),
        ensures
            final(commands).wf(),
            r.command_buffer == old(commands).command_buffer,
            r.commands@ == seq![
                Command::WriteTimestamp {
                    stage: encoded(stage.0, stage_table()),
                    pool: old(commands).timestamp_pool,
                    query: old(commands).timestamp_count,
                },
            ],
            final(commands).timestamp_destinations@ == old(commands).timestamp_destinations@.update(
                old(commands).timestamp_count as int,
                gpu_destination,
            ),
            final(commands).timestamp_count == old(commands).timestamp_count + 1,
            *final(commands) == (CommandBuffer {
                timestamp_destinations: final(commands).timestamp_destinations,
                timestamp_count: final(commands).timestamp_count,
                ..*old(commands)
            }),
    {
        let command = commands.write_timestamp(gpu_destination, stage);
        record_one(commands, command)
    }

    /// Binds the descriptor heap of textures.
    pub fn set_texture_descriptor_heap(
        &self,
        commands: &CommandBuffer,
        heap: GpuRange,
    ) -> (r: Recording<'static>)
        requires
            heap_bindable(heap, self.heap_properties.texture_layout()),
        ensures
            r.command_buffer == commands.command_buffer,
            r.commands@ == seq![
                Command::BindTextureHeap(
                    heap_binding(heap, self.heap_properties.texture_layout()),
                ),
            ],
    {
        let layout = self.heap_properties.layout(MemoryType::TextureDescriptorHeap).unwrap();
        record_one(commands, Command::BindTextureHeap(make_heap_bind_info(heap, layout)))
    }

    /// Binds the descriptor heap of samplers.
    pub fn set_sampler_descriptor_heap(
        &self,
        commands: &CommandBuffer,
        heap: GpuRange,
    ) -> (r: Recording<'static>)
        requires
            heap_bindable(heap, self.heap_properties.sampler_layout()),
        ensures
            r.command_buffer == commands.command_buffer,
            r.commands@ == seq![
                Command::BindSamplerHeap(
                    heap_binding(heap, self.heap_properties.sampler_layout()),
                ),
            ],
    {
        let layout = self.heap_properties.layout(MemoryType::SamplerDescriptorHeap).unwrap();
        record_one(commands, Command::BindSamplerHeap(make_heap_bind_info(heap, layout)))
    }

    /// Sets the viewport.
    pub fn set_viewport(
        &self,
        commands: &CommandBuffer,
        viewport: &Viewport,
    ) -> (r: Recording<'static>)
        ensures
            r.command_buffer == commands.command_buffer,
            r.commands@ == seq![Command::SetViewport(*viewport)],
    {
        record_one(commands, Command::SetViewport(*viewport))
    }

    /// Sets the scissor.
    pub fn set_scissor(
        &self,
        commands: &CommandBuffer,
        scissor: &Scissor,
    ) -> (r: Recording<'static>)
        ensures
            r.command_buffer == commands.command_buffer,
            r.commands@ == seq![Command::SetScissor(*scissor)],
    {
        record_one(commands, Command::SetScissor(*scissor))
    }

    /// Sets the depth test and the stencil test.
    pub fn set_depth_stencil(
        &self,
        commands: &CommandBuffer,
        state: &DepthStencilState,
    ) -> (r: Recording<'static>)
        ensures
            r.command_buffer == commands.command_buffer,
            r.commands@ == depth_commands(*state) + stencil_commands(*state),
    {
        Recording {
            command_buffer: commands.command_buffer,
            commands: set_depth_stencil(state),
        }
    }

    /// Begins a render pass: what to begin, and the commands that set its initial state.
    pub fn begin_render_pass<'a>(
        &self,
        commands: &CommandBuffer,
        desc: &RenderingDesc<'a>,
    ) -> (r: (RenderingInfo, Recording<'static>))
        requires
            desc.wf(),
        ensures
            r.0.width == desc.area_view()->0.width,
            r.0.height == desc.area_view()->0.height,
            r.0.colors@ == desc.color_infos(),
            r.0.depth == desc.depth_info(),
            r.0.stencil == desc.stencil_info(),
            r.1.command_buffer == commands.command_buffer,
            r.1.commands@ == initial_state(r.0.width, r.0.height),
    {
        let (info, state) = begin_render_pass(desc);
        (info, Recording { command_buffer: commands.command_buffer, commands: state })
    }

    /// Ends a render pass.
    pub fn end_render_pass(&self, commands: &CommandBuffer) -> (r: Recording<'static>)
        ensures
            r.command_buffer == commands.command_buffer,
            r.commands@ == seq![Command::EndRendering],
    {
        record_one(commands, Command::EndRendering)
    }

    /// Orders memory accesses of stages.
    pub fn barrier(
        &self,
        commands: &CommandBuffer,
        before: Stage,
        before_access: Access,
        after: Stage,
        after_access: Access,
    ) -> (r: Recording<'static>)
        ensures
            r.command_buffer == commands.command_buffer,
            r.commands@ == seq![
                barrier_command(before, before_access, after, after_access, self.ext),
            ],
    {
        record_one(commands, barrier(before, before_access, after, after_access, self.ext))
    }

    /// Draws vertices.
    pub fn draw<'a>(
        &self,
        commands: &CommandBuffer,
        root: &'a [u8],
        vertex_count: u32,
        instance_count: u32,
        first_vertex: u32,
        first_instance: u32,
    ) -> (r: Recording<'a>)
        ensures
            r.command_buffer == commands.command_buffer,
            r.commands@ == root_data(root).push(
                (Command::Draw { vertex_count, instance_count, first_vertex, first_instance }),
            ),
    {
        let mut list = emit_root_data(root);
        list.push(Command::Draw { vertex_count, instance_count, first_vertex, first_instance });
        Recording { command_buffer: commands.command_buffer, commands: list }
    }

    /// Draws vertices by index.
    pub fn draw_indexed<'a>(
        &self,
        commands: &CommandBuffer,
        root: &'a [u8],
        indices: GpuRange,
        index_type: IndexType,
        index_count: u32,
        instance_count: u32,
        first_index: u32,
        vertex_offset: i32,
        first_instance: u32,
    ) -> (r: Recording<'a>)
        ensures
            r.command_buffer == commands.command_buffer,
            r.commands@ == root_data(root).push(
                (Command::BindIndices { range: indices, index_type: index_type.spec_raw() }),
            ).push(
                (Command::DrawIndexed {
                    index_count,
                    instance_count,
                    first_index,
                    vertex_offset,
                    first_instance,
                }),
            ),
    {
        let mut list = emit_root_data(root);
        list.push(Command::BindIndices { range: indices, index_type: index_type.raw() });
        list.push(
            Command::DrawIndexed {
                index_count,
                instance_count,
                first_index,
                vertex_offset,
                first_instance,
            },
        );
        Recording { command_buffer: commands.command_buffer, commands: list }
    }

    /// Draws by arguments in memory. A stride of 0 stands for tightly packed arguments.
    pub fn draw_indirect<'a>(
        &self,
        commands: &CommandBuffer,
        root: &'a [u8],
        arguments: GpuRange,
        draw_count: u32,
        stride: u32,
    ) -> (r: Recording<'a>)
        ensures
            r.command_buffer == commands.command_buffer,
            r.commands@ == root_data(root).push(
                (Command::DrawIndirect { range: arguments, stride: stride_or(stride, 16), draw_count }),
            ),
    {
        let mut list = emit_root_data(root);
        let stride = if stride == 0 {
            draw_indirect_command_size()
        } else {
            stride as u64
        };
        list.push(Command::DrawIndirect { range: arguments, stride, draw_count });
        Recording { command_buffer: commands.command_buffer, commands: list }
    }

    /// Draws by index and by arguments in memory. A stride of 0 stands for tightly packed
    /// arguments.
    pub fn draw_indexed_indirect<'a>(
        &self,
        commands: &CommandBuffer,
        root: &'a [u8],
        indices: GpuRange,
        index_type: IndexType,
        arguments: GpuRange,
        draw_count: u32,
        stride: u32,
    ) -> (r: Recording<'a>)
        ensures
            r.command_buffer == commands.command_buffer,
            r.commands@ == root_data(root).push(
                (Command::BindIndices { range: indices, index_type: index_type.spec_raw() }),
            ).push(
                (Command::DrawIndexedIndirect {
                    range: arguments,
                    stride: stride_or(stride, 20),
                    draw_count,
                }),
            ),
    {
        let mut list = emit_root_data(root);
        list.push(Command::BindIndices { range: indices, index_type: index_type.raw() });
        let stride = if stride == 0 {
            draw_indexed_indirect_command_size()
        } else {
            stride as u64
        };
        list.push(Command::DrawIndexedIndirect { range: arguments, stride, draw_count });
        Recording { command_buffer: commands.command_buffer, commands: list }
    }

    /// Runs compute groups.
    pub fn dispatch<'a>(
        &self,
        commands: &CommandBuffer,
        root: &'a [u8],
        group_count: Uint32x3,
    ) -> (r: Recording<'a>)
        ensures
            r.command_buffer == commands.command_buffer,
            r.commands@ == root_data(root).push((Command::Dispatch { groups: group_count })),
    {
        let mut list = emit_root_data(root);
        list.push(Command::Dispatch { groups: group_count });
        Recording { command_buffer: commands.command_buffer, commands: list }
    }

    /// Runs compute groups by arguments in memory.
    pub fn dispatch_indirect<'a>(
        &self,
        commands: &CommandBuffer,
        root: &'a [u8],
        arguments: GpuRange,
    ) -> (r: Recording<'a>)
        ensures
            r.command_buffer == commands.command_buffer,
            r.commands@ == root_data(root).push((Command::DispatchIndirect { range: arguments })),
    {
        let mut list = emit_root_data(root);
        list.push(Command::DispatchIndirect { range: arguments });
        Recording { command_buffer: commands.command_buffer, commands: list }
    }

    /// Runs mesh groups.
    pub fn draw_meshlets<'a>(
        &self,
        commands: &CommandBuffer,
        root: &'a [u8],
        group_count: Uint32x3,
    ) -> (r: Recording<'a>)
        ensures
            r.command_buffer == commands.command_buffer,
            r.commands@ == root_data(root).push((Command::DrawMeshTasks { groups: group_count })),
    {
        let mut list = emit_root_data(root);
        list.push(Command::DrawMeshTasks { groups: group_count });
        Recording { command_buffer: commands.command_buffer, commands: list }
    }

    /// Runs mesh groups by arguments in memory. A stride of 0 stands for tightly packed arguments.
    pub fn draw_meshlets_indirect<'a>(
        &self,
        commands: &CommandBuffer,
        root: &'a [u8],
        arguments: GpuRange,
        draw_count: u32,
        stride: u32,
    ) -> (r: Recording<'a>)
        ensures
            r.command_buffer == commands.command_buffer,
            r.commands@ == root_data(root).push(
                (Command::DrawMeshTasksIndirect {
                    range: arguments,
                    stride: stride_or(stride, 12),
                    draw_count,
                }),
            ),
    {
        let mut list = emit_root_data(root);
        let stride = if stride == 0 {
            draw_mesh_tasks_indirect_command_size()
        } else {
            stride as u64
        };
        list.push(Command::DrawMeshTasksIndirect { range: arguments, stride, draw_count });
        Recording { command_buffer: commands.command_buffer, commands: list }
    }

    /// Copies memory.
    pub fn copy_memory(
        &self,
        commands: &CommandBuffer,
        source: GpuRange,
        destination: GpuRange,
    ) -> (r: Recording<'static>)
        ensures
            r.command_buffer == commands.command_buffer,
            r.commands@ == seq![Command::CopyMemory { source, destination }],
    {
        record_one(commands, Command::CopyMemory { source, destination })
    }

    /// Copies memory into a texture.
    pub fn copy_memory_to_texture(
        &self,
        commands: &CommandBuffer,
        source: GpuRange,
        destination: &Texture,
        copy: &TextureCopyDesc,
    ) -> (r: Recording<'static>)
        requires
            copyable(destination, *copy),
        ensures
            r.command_buffer == commands.command_buffer,
            r.commands@ == seq![
                Command::CopyMemoryToImage {
                    image: destination.image,
                    region: copy_region(destination, *copy, source),
                },
            ],
    {
        record_one(
            commands,
            Command::CopyMemoryToImage {
                image: destination.image,
                region: make_texture_copy_region(destination, copy, source),
            },
        )
    }

    /// Copies a texture into memory.
    pub fn copy_texture_to_memory(
        &self,
        commands: &CommandBuffer,
        source: &Texture,
        destination: GpuRange,
        copy: &TextureCopyDesc,
    ) -> (r: Recording<'static>)
        requires
            copyable(source, *copy),
        ensures
            r.command_buffer == commands.command_buffer,
            r.commands@ == seq![
                Command::CopyImageToMemory {
                    image: source.image,
                    region: copy_region(source, *copy, destination),
                },
            ],
    {
        record_one(
            commands,
            Command::CopyImageToMemory {
                image: source.image,
                region: make_texture_copy_region(source, copy, destination),
            },
        )
    }
}

/// A recording is for the command buffer of `commands`, hands root data over first where there is
/// any, and has `count` commands besides.
pub open spec fn records_after_root<'a>(
    r: Recording<'a>,
    commands: &CommandBuffer,
    root: &'a [u8],
    count: int,
) -> bool {
    &&& r.command_buffer == commands.command_buffer
    &&& root@.len() == 0 ==> r.commands@.len() == count
    &&& root@.len() > 0 ==> r.commands@.len() == count + 1 && r.commands@[0] == Command::PushData(
        root,
    )
}

/// Indices are bound before the last command: those of the range, 16 or 32 bits wide.
pub open spec fn binds_indices<'a>(
    r: Recording<'a>,
    indices: GpuRange,
    index_type: IndexType,
) -> bool {
    r.commands@[r.commands@.len() - 2] matches Command::BindIndices { range, index_type: width }
        && {
        &&& range == indices
        &&& width == 0 <==> index_type is Uint16
        &&& width == 1 <==> index_type is Uint32
    }
}

/// A draw hands root data over and draws the vertices and instances that are asked for.
pub proof fn draws_are_as_asked<'a>(
    device: &Device,
    commands: &CommandBuffer,
    root: &'a [u8],
    vertices: (u32, u32),
    instances: (u32, u32),
    r: Recording<'a>,
)
    requires
        call_ensures(
            Device::draw,
            (device, commands, root, vertices.0, instances.0, vertices.1, instances.1),
            r,
        ),
    ensures
        records_after_root(r, commands, root, 1),
        r.commands@.last() matches Command::Draw {
            vertex_count,
            instance_count,
            first_vertex,
            first_instance,
        } && (vertex_count, first_vertex) == vertices && (instance_count, first_instance)
            == instances,
{
}

/// An indexed draw binds its indices first, and draws those and the instances that are asked for.
pub proof fn indexed_draws_are_as_asked<'a>(
    device: &Device,
    commands: &CommandBuffer,
    root: &'a [u8],
    indices: GpuRange,
    index_type: IndexType,
    drawn: (u32, u32),
    instances: (u32, u32),
    offset: i32,
    r: Recording<'a>,
)
    requires
        call_ensures(
            Device::draw_indexed,
            (
                device,
                commands,
                root,
                indices,
                index_type,
                drawn.0,
                instances.0,
                drawn.1,
                offset,
                instances.1,
            ),
            r,
        ),
    ensures
        records_after_root(r, commands, root, 2),
        binds_indices(r, indices, index_type),
        r.commands@.last() matches Command::DrawIndexed {
            index_count,
            instance_count,
            first_index,
            vertex_offset,
            first_instance,
        } && (index_count, first_index) == drawn && (instance_count, first_instance) == instances
            && vertex_offset == offset,
{
}

/// Draws by arguments in memory read as many as are asked for, the given stride apart, or one right
/// after the other where it is 0: of four numbers for vertices, five for indices, three for meshes.
pub proof fn indirect_draws_are_as_asked<'a>(
    device: &Device,
    commands: &CommandBuffer,
    root: &'a [u8],
    indices: GpuRange,
    index_type: IndexType,
    arguments: GpuRange,
    count: u32,
    stride: u32,
    plain: Recording<'a>,
    indexed: Recording<'a>,
    meshes: Recording<'a>,
)
    requires
        call_ensures(
            Device::draw_indirect,
            (device, commands, root, arguments, count, stride),
            plain,
        ),
        call_ensures(
            Device::draw_indexed_indirect,
            (device, commands, root, indices, index_type, arguments, count, stride),
            indexed,
        ),
        call_ensures(
            Device::draw_meshlets_indirect,
            (device, commands, root, arguments, count, stride),
            meshes,
        ),
    ensures
        records_after_root(plain, commands, root, 1),
        records_after_root(indexed, commands, root, 2),
        records_after_root(meshes, commands, root, 1),
        binds_indices(indexed, indices, index_type),
        plain.commands@.last() matches Command::DrawIndirect { range, stride: apart, draw_count }
            && range == arguments && draw_count == count && apart == if stride == 0 {
            4int * 4
        } else {
            stride as int
        },
        indexed.commands@.last() matches Command::DrawIndexedIndirect {
            range,
            stride: apart,
            draw_count,
        } && range == arguments && draw_count == count && apart == if stride == 0 {
            5int * 4
        } else {
            stride as int
        },
        meshes.commands@.last() matches Command::DrawMeshTasksIndirect {
            range,
            stride: apart,
            draw_count,
        } && range == arguments && draw_count == count && apart == if stride == 0 {
            3int * 4
        } else {
            stride as int
        },
{
}

/// Groups of compute and mesh shaders run as many times as is asked for, or as memory says.
pub proof fn groups_run_as_asked<'a>(
    device: &Device,
    commands: &CommandBuffer,
    root: &'a [u8],
    count: Uint32x3,
    arguments: GpuRange,
    compute: Recording<'a>,
    indirect: Recording<'a>,
    meshes: Recording<'a>,
)
    requires
        call_ensures(Device::dispatch, (device, commands, root, count), compute),
        call_ensures(Device::dispatch_indirect, (device, commands, root, arguments), indirect),
        call_ensures(Device::draw_meshlets, (device, commands, root, count), meshes),
    ensures
        records_after_root(compute, commands, root, 1),
        records_after_root(indirect, commands, root, 1),
        records_after_root(meshes, commands, root, 1),
        compute.commands@.last() matches Command::Dispatch { groups } && groups == count,
        indirect.commands@.last() matches Command::DispatchIndirect { range } && range == arguments,
        meshes.commands@.last() matches Command::DrawMeshTasks { groups } && groups == count,
{
}

/// Copies go from the source to the destination. One into a texture and one out of it, with the same
/// description and memory, cover the same region of the texture's image.
pub proof fn copies_go_both_ways(
    device: &Device,
    commands: &CommandBuffer,
    source: GpuRange,
    destination: GpuRange,
    texture: &Texture,
    copy: TextureCopyDesc,
    plain: Recording<'static>,
    upload: Recording<'static>,
    download: Recording<'static>,
)
    requires
        call_ensures(Device::copy_memory, (device, commands, source, destination), plain),
        call_ensures(
            Device::copy_memory_to_texture,
            (device, commands, source, texture, &copy),
            upload,
        ),
        call_ensures(
            Device::copy_texture_to_memory,
            (device, commands, texture, source, &copy),
            download,
        ),
    ensures
        plain.command_buffer == upload.command_buffer == download.command_buffer
            == commands.command_buffer,
        plain.commands@.len() == upload.commands@.len() == download.commands@.len() == 1,
        plain.commands@[0] matches Command::CopyMemory { source: from, destination: to } && from
            == source && to == destination,
        upload.commands@[0] matches Command::CopyMemoryToImage { image, region } && image
            == texture.image && region.address == source.gpu && region.mip_level == copy.mip_level
            && region.base_layer == copy.base_slice && download.commands@[0] == (
        Command::CopyImageToMemory { image, region }),
{
}

/// State is set as it is given, and a pipeline is bound where it belongs. Ending a render pass does
/// nothing else.
pub proof fn state_is_set_as_given(
    device: &Device,
    commands: &CommandBuffer,
    pso: &PSO,
    viewport: Viewport,
    scissor: Scissor,
    bound: Recording<'static>,
    viewed: Recording<'static>,
    cut: Recording<'static>,
    ended: Recording<'static>,
)
    requires
        call_ensures(Device::bind_pso, (device, commands, pso), bound),
        call_ensures(Device::set_viewport, (device, commands, &viewport), viewed),
        call_ensures(Device::set_scissor, (device, commands, &scissor), cut),
        call_ensures(Device::end_render_pass, (device, commands), ended),
    ensures
        bound.command_buffer == viewed.command_buffer == cut.command_buffer == ended.command_buffer
            == commands.command_buffer,
        bound.commands@.len() == viewed.commands@.len() == cut.commands@.len()
            == ended.commands@.len() == 1,
        bound.commands@[0] matches Command::BindPipeline { bind_point, pipeline } && bind_point
            == pso.bind_point && pipeline == pso.pso,
        viewed.commands@[0] matches Command::SetViewport(set) && set == viewport,
        cut.commands@[0] matches Command::SetScissor(set) && set == scissor,
        ended.commands@[0] is EndRendering,
{
}

/// Descriptor heaps are bound from their first byte on, each as what it is, with what its kind
/// reserves behind the usable bytes.
pub proof fn descriptor_heaps_are_bound_as_their_kind(
    device: &Device,
    commands: &CommandBuffer,
    heap: GpuRange,
    textures: Recording<'static>,
    samplers: Recording<'static>,
)
    requires
        call_ensures(Device::set_texture_descriptor_heap, (device, commands, heap), textures),
        call_ensures(Device::set_sampler_descriptor_heap, (device, commands, heap), samplers),
        heap_bindable(heap, device.heap_properties.texture_layout()),
        heap_bindable(heap, device.heap_properties.sampler_layout()),
    ensures
        textures.command_buffer == samplers.command_buffer == commands.command_buffer,
        textures.commands@.len() == samplers.commands@.len() == 1,
        textures.commands@[0] matches Command::BindTextureHeap(bound) && {
            &&& bound.address == heap.gpu
            &&& bound.reserved_offset >= heap.size
            &&& bound.reserved_size == device.heap_properties.min_resource_heap_reserved_range
        },
        samplers.commands@[0] matches Command::BindSamplerHeap(bound) && {
            &&& bound.address == heap.gpu
            &&& bound.reserved_offset >= heap.size
            &&& bound.reserved_size == device.heap_properties.min_sampler_heap_reserved_range
        },
{
    crate::heap::bindings_cover_heap_and_reserve(heap, device.heap_properties.texture_layout());
    crate::heap::bindings_cover_heap_and_reserve(heap, device.heap_properties.sampler_layout());
}

/// A barrier names the stages and accesses before it as its source and those after it as its
/// destination, and depth and stencil tests are set whole.
pub proof fn barriers_and_tests_are_recorded(
    device: &Device,
    commands: &CommandBuffer,
    before: (Stage, Access),
    after: (Stage, Access),
    state: DepthStencilState,
    ordered: Recording<'static>,
    tested: Recording<'static>,
)
    requires
        call_ensures(
            Device::barrier,
            (device, commands, before.0, before.1, after.0, after.1),
            ordered,
        ),
        call_ensures(Device::set_depth_stencil, (device, commands, &state), tested),
    ensures
        ordered.command_buffer == tested.command_buffer == commands.command_buffer,
        ordered.commands@.len() == 1,
        ordered.commands@[0] matches Command::MemoryBarrier {
            source_stage,
            source_access,
            destination_stage,
            destination_access,
        } && source_stage == encoded(before.0.0, stage_table()) && source_access == encoded(
            before.1.0,
            crate::flags::access_table(device.ext),
        ) && destination_stage == encoded(after.0.0, stage_table()) && destination_access
            == encoded(after.1.0, crate::flags::access_table(device.ext)),
        tested.commands@[0] == Command::SetDepthTest(state.depth_test),
        tested.commands@.contains(Command::SetStencilTest(state.stencil_test)),
        !state.depth_test && !state.stencil_test ==> tested.commands@.len() == 2,
        state.depth_test && state.stencil_test ==> tested.commands@.len() == 10,
{
    let place: int = if state.depth_test {
        3
    } else {
        1
    };
    assert(tested.commands@[place] == Command::SetStencilTest(state.stencil_test));
}

/// A render pass covers the view of its first attachment, and starts with a viewport and a scissor
/// of that size and without tests.
pub proof fn render_passes_cover_their_view<'a>(
    device: &Device,
    commands: &CommandBuffer,
    desc: RenderingDesc<'a>,
    r: (RenderingInfo, Recording<'static>),
)
    requires
        desc.wf(),
        call_ensures(Device::begin_render_pass, (device, commands, &desc), r),
    ensures
        r.1.command_buffer == commands.command_buffer,
        desc.colors@.len() > 0 ==> {
            let view = desc.colors@[0].render_view->0;
            r.0.width == view.width && r.0.height == view.height
        },
        desc.colors@.len() == 0 && desc.depth.render_view is Some ==> {
            let view = desc.depth.render_view->0;
            r.0.width == view.width && r.0.height == view.height
        },
        desc.colors@.len() == 0 && desc.depth.render_view is None ==> {
            let view = desc.stencil.render_view->0;
            r.0.width == view.width && r.0.height == view.height
        },
        r.0.colors@.len() == desc.colors@.len(),
        r.0.depth is Some <==> desc.depth.render_view is Some,
        r.0.stencil is Some <==> desc.stencil.render_view is Some,
        r.1.commands@.len() == 4,
        r.1.commands@[0] matches Command::SetViewportToArea { width, height } && width == r.0.width
            && height == r.0.height,
        r.1.commands@[1] == Command::SetScissor(
            Scissor { x: 0, y: 0, width: r.0.width, height: r.0.height },
        ),
        r.1.commands@[2] == Command::SetDepthTest(false),
        r.1.commands@[3] == Command::SetStencilTest(false),
{
}

} // verus!
