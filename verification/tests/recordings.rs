use no_graphics::device::DeviceParts;
use no_graphics::heap::{GpuRange, HeapProperties};
use no_graphics::memory::{MemoryHeapInfo, MemoryProperties, MemoryTypeInfo};
use no_graphics::pipeline::{compute_stage, create_raster_pso, make_sampler_info};
use no_graphics::record::{AttachmentInfo, ClearValue};
use no_graphics::startup::Candidate;
use no_graphics::vulkan::ExtensionBits;
use no_graphics::{
    Access, AddressMode, BlendComponentState, BlendFactor, BlendOp, BlendState, ClearColor,
    ColorAttachment, ColorTargetDesc, Command, CommandBuffer, CompareOp, CullMode,
    DepthAttachment, DepthStencilState, Device, DeviceDesc, Filter, Float, Format,
    GraphicsPSODesc, IndexType, LoadOp, MeshPSODesc, RasterizationState, RenderView,
    RenderingDesc, SamplerDesc, Scissor, Stage, StencilAttachment, StencilFaceState, StencilOp,
    StoreOp, Texture, TextureCopyDesc, TextureType, Uint32x3, Viewport, PSO,
};
use std::sync::Arc;

fn device() -> Device {
    let ext = ExtensionBits {
        sampler_heap_read: 1 << 57,
        resource_heap_read: 1 << 58,
        descriptor_heap_buffer: 1 << 28,
        tile_memory_heap: 1 << 3,
    };
    let parts = DeviceParts {
        device_name: String::new(),
        memory: MemoryProperties {
            types: vec![MemoryTypeInfo { property_flags: 7, heap_index: 0 }],
            heaps: vec![MemoryHeapInfo { size: 1 << 20, flags: 0 }],
        },
        heap_properties: HeapProperties {
            image_descriptor_size: 32,
            image_descriptor_alignment: 32,
            buffer_descriptor_alignment: 32,
            sampler_descriptor_size: 16,
            sampler_descriptor_alignment: 16,
            resource_heap_alignment: 64,
            sampler_heap_alignment: 64,
            min_resource_heap_reserved_range: 32,
            min_sampler_heap_reserved_range: 16,
            max_push_data_size: 128,
        },
        max_timeline_difference: 100,
        texture_heap_alignment: 1024,
        texture_memory_type: 0,
        format_features: vec![0; 47],
        timestamp_period_ns: Float(0),
        sub_texel_precision_bits: 8,
        ext,
    };
    let candidate = Candidate {
        physical_device: 1,
        queue_family: 0,
        discrete: true,
        unified_image_layouts: false,
        image_cube_array: false,
        texture_compression_bc: true,
        texture_compression_astc: false,
        texture_compression_etc2: false,
        storage_input_output16: true,
        khr_swapchain_maintenance1: true,
    };
    Device::new(&DeviceDesc::default(), &candidate, parts)
}

fn buffer() -> CommandBuffer {
    let mut commands = CommandBuffer::new();
    commands.command_buffer = 55;
    commands
}

fn range(gpu: u64, size: u64) -> GpuRange {
    GpuRange { gpu, size }
}

fn view(handle: u64, width: u32, height: u32) -> Option<Arc<RenderView>> {
    Some(Arc::new(RenderView { view: handle, width, height, swapchain_view: false }))
}

#[test]
fn draws_hand_over_root_data() {
    let (device, commands) = (device(), buffer());
    let plain = device.draw(&commands, &[], 3, 1, 4, 5);
    assert_eq!((plain.command_buffer, plain.commands.len()), (55, 1));
    assert!(matches!(
        plain.commands[0],
        Command::Draw { vertex_count: 3, instance_count: 1, first_vertex: 4, first_instance: 5 }
    ));
    let root = [1, 2, 3, 4];
    let rooted = device.draw(&commands, &root, 3, 1, 0, 0);
    assert_eq!(rooted.commands.len(), 2);
    let Command::PushData(data) = rooted.commands[0] else { panic!() };
    assert_eq!(data, &root);
    let indexed =
        device.draw_indexed(&commands, &root, range(64, 12), IndexType::Uint32, 3, 2, 1, -1, 7);
    assert_eq!(indexed.commands.len(), 3);
    let Command::BindIndices { range: indices, index_type } = indexed.commands[1] else {
        panic!()
    };
    assert_eq!((indices.gpu, indices.size, index_type), (64, 12, 1));
    assert!(matches!(
        indexed.commands[2],
        Command::DrawIndexed {
            index_count: 3,
            instance_count: 2,
            first_index: 1,
            vertex_offset: -1,
            first_instance: 7,
        }
    ));
}

#[test]
fn indirect_arguments_are_tightly_packed_by_default() {
    let (device, commands) = (device(), buffer());
    let arguments = range(128, 64);
    let stride = |stride| {
        let plain = device.draw_indirect(&commands, &[], arguments, 2, stride);
        let Command::DrawIndirect { stride: a, draw_count: 2, .. } = plain.commands[0] else {
            panic!()
        };
        let indices = range(64, 12);
        let indexed = device.draw_indexed_indirect(
            &commands,
            &[],
            indices,
            IndexType::Uint16,
            arguments,
            2,
            stride,
        );
        assert!(matches!(indexed.commands[0], Command::BindIndices { index_type: 0, .. }));
        let Command::DrawIndexedIndirect { stride: b, .. } = indexed.commands[1] else { panic!() };
        let mesh = device.draw_meshlets_indirect(&commands, &[], arguments, 2, stride);
        let Command::DrawMeshTasksIndirect { stride: c, .. } = mesh.commands[0] else { panic!() };
        (a, b, c)
    };
    assert_eq!(stride(0), (16, 20, 12));
    assert_eq!(stride(48), (48, 48, 48));
}

#[test]
fn groups_and_copies_are_recorded() {
    let (device, commands) = (device(), buffer());
    let groups = Uint32x3 { x: 4, y: 5, z: 6 };
    let root = [9];
    let compute = device.dispatch(&commands, &root, groups);
    assert!(matches!(
        compute.commands[1],
        Command::Dispatch { groups: Uint32x3 { x: 4, y: 5, z: 6 } }
    ));
    let mesh = device.draw_meshlets(&commands, &[], groups);
    assert!(matches!(mesh.commands[0], Command::DrawMeshTasks { .. }));
    let indirect = device.dispatch_indirect(&commands, &[], range(32, 12));
    let Command::DispatchIndirect { range: arguments } = indirect.commands[0] else { panic!() };
    assert_eq!((arguments.gpu, arguments.size), (32, 12));
    let copy = device.copy_memory(&commands, range(1, 8), range(2, 8));
    let Command::CopyMemory { source, destination } = copy.commands[0] else { panic!() };
    assert_eq!((source.gpu, destination.gpu), (1, 2));
    let texture = Texture {
        image: 9,
        width: 8,
        height: 4,
        depth: 1,
        layer_count: 1,
        texture_type: TextureType::TwoD,
        format: Format::Rgba8Unorm,
    };
    let whole = TextureCopyDesc::default();
    let up = device.copy_memory_to_texture(&commands, range(256, 128), &texture, &whole);
    let Command::CopyMemoryToImage { image: 9, region } = up.commands[0] else { panic!() };
    assert_eq!((region.address, region.width, region.height), (256, 8, 4));
    let down = device.copy_texture_to_memory(&commands, &texture, range(512, 128), &whole);
    let Command::CopyImageToMemory { image: 9, region } = down.commands[0] else { panic!() };
    assert_eq!((region.address, region.size), (512, 128));
}

#[test]
fn state_is_recorded() {
    let (device, commands) = (device(), buffer());
    let viewport = Viewport::default();
    let set = device.set_viewport(&commands, &viewport);
    let Command::SetViewport(recorded) = set.commands[0] else { panic!() };
    assert_eq!(recorded, viewport);
    let scissor = Scissor { x: -1, y: 2, width: 3, height: 4 };
    let set = device.set_scissor(&commands, &scissor);
    let Command::SetScissor(recorded) = set.commands[0] else { panic!() };
    assert_eq!(recorded, scissor);
    assert!(matches!(device.end_render_pass(&commands).commands[0], Command::EndRendering));
    let pso = PSO { pso: 77, bind_point: 1 };
    assert!(matches!(
        device.bind_pso(&commands, &pso).commands[0],
        Command::BindPipeline { bind_point: 1, pipeline: 77 }
    ));
    let barrier = device.barrier(
        &commands,
        Stage::transfer(),
        Access::transfer_write(),
        Stage::compute(),
        Access::descriptor_read(),
    );
    assert!(matches!(
        barrier.commands[0],
        Command::MemoryBarrier {
            source_stage: 0x1_0000_0000,
            source_access: 0x1000,
            destination_stage: 0x800,
            destination_access: 0x0600_0000_0000_0000,
        }
    ));
}

#[test]
fn timestamps_take_the_next_query() {
    let device = device();
    let mut commands = buffer();
    commands.timestamp_pool = 8;
    commands.timestamp_destinations = vec![0; 2];
    device.write_timestamp(&mut commands, 0x40, Stage::all_commands());
    let second = device.write_timestamp(&mut commands, 0x80, Stage::all_commands());
    assert!(matches!(
        second.commands[0],
        Command::WriteTimestamp { stage: 0x10000, pool: 8, query: 1 }
    ));
    assert_eq!(commands.timestamp_destinations, vec![0x40, 0x80]);
    assert_eq!(commands.timestamp_count, 2);
}

#[test]
fn descriptor_heaps_are_bound_with_their_reserved_range() {
    let (device, commands) = (device(), buffer());
    let textures = device.set_texture_descriptor_heap(&commands, range(0x1000, 336));
    let Command::BindTextureHeap(binding) = textures.commands[0] else { panic!() };
    assert_eq!((binding.address, binding.size), (0x1000, 384));
    assert_eq!((binding.reserved_offset, binding.reserved_size), (352, 32));
    let samplers = device.set_sampler_descriptor_heap(&commands, range(0x2000, 64));
    let Command::BindSamplerHeap(binding) = samplers.commands[0] else { panic!() };
    assert_eq!((binding.address, binding.size), (0x2000, 80));
    assert_eq!((binding.reserved_offset, binding.reserved_size), (64, 16));
}

#[test]
fn depth_and_stencil_details_count_only_where_tested() {
    let (device, commands) = (device(), buffer());
    let off = device.set_depth_stencil(&commands, &DepthStencilState::default());
    assert_eq!(off.commands.len(), 2);
    assert!(matches!(off.commands[0], Command::SetDepthTest(false)));
    assert!(matches!(off.commands[1], Command::SetStencilTest(false)));
    let state = DepthStencilState {
        depth_test: true,
        depth_write: true,
        depth_compare: CompareOp::Greater,
        stencil_test: true,
        stencil_read_mask: 0x0f,
        stencil_write_mask: 0xf0,
        front: StencilFaceState {
            compare: CompareOp::Equal,
            fail: StencilOp::Zero,
            pass: StencilOp::Replace,
            depth_fail: StencilOp::Invert,
            reference: 3,
        },
        back: StencilFaceState { reference: 4, ..StencilFaceState::default() },
    };
    let on = device.set_depth_stencil(&commands, &state).commands;
    assert_eq!(on.len(), 10);
    assert!(matches!(on[1], Command::SetDepthWrite(true)));
    assert!(matches!(on[2], Command::SetDepthCompare(4)));
    assert!(matches!(
        on[4],
        Command::SetStencilOps { faces: 1, fail: 1, pass: 2, depth_fail: 5, compare: 2 }
    ));
    assert!(matches!(
        on[5],
        Command::SetStencilOps { faces: 2, fail: 0, pass: 0, depth_fail: 0, compare: 7 }
    ));
    assert!(matches!(on[6], Command::SetStencilCompareMask { faces: 3, mask: 0x0f }));
    assert!(matches!(on[7], Command::SetStencilWriteMask { faces: 3, mask: 0xf0 }));
    assert!(matches!(on[8], Command::SetStencilReference { faces: 1, reference: 3 }));
    assert!(matches!(on[9], Command::SetStencilReference { faces: 2, reference: 4 }));
}

#[test]
fn render_passes_cover_their_first_attachment() {
    let (device, commands) = (device(), buffer());
    let red = ClearColor { x: Float(0x3f80_0000), ..ClearColor::default() };
    let colors = [
        ColorAttachment {
            render_view: view(5, 640, 480),
            load: LoadOp::Clear,
            clear: red,
            ..ColorAttachment::default()
        },
        ColorAttachment {
            render_view: view(6, 320, 240),
            store: StoreOp::Discard,
            ..ColorAttachment::default()
        },
    ];
    let desc = RenderingDesc {
        colors: &colors,
        depth: DepthAttachment {
            render_view: view(7, 1, 1),
            load: LoadOp::Discard,
            ..DepthAttachment::default()
        },
        stencil: StencilAttachment::default(),
    };
    let (info, recording) = device.begin_render_pass(&commands, &desc);
    assert_eq!((info.width, info.height), (640, 480));
    assert_eq!(
        info.colors[0],
        AttachmentInfo { view: 5, load_op: 1, store_op: 0, clear: ClearValue::Color(red) }
    );
    assert_eq!((info.colors[1].view, info.colors[1].load_op, info.colors[1].store_op), (6, 0, 1));
    assert_eq!(
        info.depth,
        Some(AttachmentInfo {
            view: 7,
            load_op: 2,
            store_op: 0,
            clear: ClearValue::DepthStencil { depth: Float(0x3f80_0000), stencil: 0 },
        })
    );
    assert_eq!(info.stencil, None);
    let state = recording.commands;
    assert_eq!((recording.command_buffer, state.len()), (55, 4));
    assert!(matches!(state[0], Command::SetViewportToArea { width: 640, height: 480 }));
    assert!(matches!(
        state[1],
        Command::SetScissor(Scissor { x: 0, y: 0, width: 640, height: 480 })
    ));
    assert!(matches!(state[2], Command::SetDepthTest(false)));
    assert!(matches!(state[3], Command::SetStencilTest(false)));
}

#[test]
fn render_passes_need_no_color() {
    let (device, commands) = (device(), buffer());
    let depth = RenderingDesc {
        depth: DepthAttachment { render_view: view(7, 20, 10), ..DepthAttachment::default() },
        stencil: StencilAttachment { render_view: view(8, 2, 1), ..StencilAttachment::default() },
        ..RenderingDesc::default()
    };
    let (info, _) = device.begin_render_pass(&commands, &depth);
    assert_eq!((info.width, info.height, info.colors.len()), (20, 10, 0));
    let stencil = RenderingDesc {
        stencil: StencilAttachment {
            render_view: view(8, 2, 1),
            clear: 9,
            ..StencilAttachment::default()
        },
        ..RenderingDesc::default()
    };
    let (info, _) = device.begin_render_pass(&commands, &stencil);
    assert_eq!((info.width, info.height, info.depth), (2, 1, None));
    assert_eq!(
        info.stencil.unwrap().clear,
        ClearValue::DepthStencil { depth: Float(0), stencil: 9 }
    );
}

#[test]
fn pipelines_have_their_stages() {
    let (vertex, fragment) = ([1_u32, 2], [3_u32]);
    let targets = [ColorTargetDesc {
        format: Format::Bgra8Srgb,
        blend: BlendState {
            enabled: true,
            color: BlendComponentState {
                source: BlendFactor::SourceAlpha,
                destination: BlendFactor::OneMinusSourceAlpha,
                operation: BlendOp::Maximum,
            },
            alpha: BlendComponentState::default(),
        },
        write_mask: 7,
    }];
    let desc = GraphicsPSODesc {
        vertex_spirv: &vertex,
        fragment_spirv: &fragment,
        color_targets: &targets,
        depth_format: Format::D32Float,
        rasterization: RasterizationState {
            cull: CullMode::CounterClockwise,
            depth_bias_slope: Float(0x3f80_0000),
            ..RasterizationState::default()
        },
        ..GraphicsPSODesc::default()
    };
    let pipeline = desc.pipeline();
    let stages: Vec<(u32, &str, &[u32])> =
        pipeline.stages.iter().map(|s| (s.stage, s.entry, s.code)).collect();
    assert_eq!(stages, vec![(1, "vertexMain", &vertex[..]), (16, "fragmentMain", &fragment[..])]);
    assert_eq!((pipeline.rasterization.cull_mode, pipeline.rasterization.front_face), (2, 1));
    assert!(pipeline.rasterization.depth_bias_enable && pipeline.vertex_input);
    let blend = pipeline.attachments[0];
    assert_eq!((blend.enabled, blend.write_mask), (true, 7));
    assert_eq!((blend.source_color, blend.destination_color, blend.color_op), (6, 7, 4));
    assert_eq!((blend.source_alpha, blend.destination_alpha, blend.alpha_op), (1, 0, 0));
    assert_eq!((pipeline.color_formats, pipeline.depth_format), (vec![50], 126));
    assert_eq!((pipeline.stencil_format, pipeline.dynamic_states.len()), (0, 10));
    // Culling clockwise faces.
    let clockwise = RasterizationState {
        cull: CullMode::Clockwise,
        depth_bias_clamp: Float(0x8000_0000),
        ..RasterizationState::default()
    };
    let none = Format::Undefined;
    let depth_only = create_raster_pso(&vertex, &[], &[], none, none, &clockwise, false);
    assert_eq!(depth_only.stages.len(), 1);
    let raster = depth_only.rasterization;
    assert_eq!((raster.cull_mode, raster.front_face), (2, 0));
    // A bias of minus zero is none.
    assert!(!raster.depth_bias_enable);
    assert_eq!(raster.line_width, Float(1.0_f32.to_bits()));
}

#[test]
fn mesh_and_compute_pipelines_have_their_own_entries() {
    let code = [7_u32];
    let mesh = MeshPSODesc { mesh_spirv: &code, ..MeshPSODesc::default() }.pipeline();
    assert_eq!((mesh.stages[0].stage, mesh.stages[0].entry), (0x80, "meshMain"));
    assert!(!mesh.vertex_input && mesh.rasterization.cull_mode == 0);
    let compute = compute_stage(&code);
    assert_eq!((compute.stage, compute.entry, compute.code), (0x20, "computeMain", &code[..]));
}

#[test]
fn samplers_are_described() {
    let plain = make_sampler_info(&SamplerDesc::default());
    assert_eq!((plain.mag_filter, plain.min_filter, plain.mipmap_mode), (1, 1, 1));
    assert_eq!((plain.address_mode_u, plain.compare_enable, plain.compare_op), (0, false, 3));
    assert_eq!((plain.anisotropy_enable, plain.max_anisotropy), (false, Float(1.0_f32.to_bits())));
    assert_eq!(plain.max_lod, Float(1000.0_f32.to_bits()));
    let desc = SamplerDesc {
        mag_filter: Filter::Nearest,
        address_w: AddressMode::ClampToEdge,
        anisotropic: true,
        compare_enabled: true,
        ..SamplerDesc::default()
    };
    let shadow = make_sampler_info(&desc);
    assert_eq!((shadow.mag_filter, shadow.min_filter, shadow.address_mode_w), (0, 1, 2));
    assert_eq!((shadow.anisotropy_enable, shadow.max_anisotropy), (true, Float(4.0_f32.to_bits())));
    assert!(shadow.compare_enable);
}
