use no_graphics::commands::{on_query_pool, ContextStep, SemaphoreRequest, Signal};
use no_graphics::device::{DeviceParts, ImageCreation, Presented, TextureFailure};
use no_graphics::heap::{BackingBuffer, HeapProperties, TextureHeapRequest};
use no_graphics::memory::{
    MemoryHeapInfo, MemoryProperties, MemoryRequirements, MemoryTypeInfo,
};
use no_graphics::pipeline::PipelineFailure;
use no_graphics::present::PresentPart;
use no_graphics::replace::{on_images, on_swapchain, on_view, Replacement};
use no_graphics::startup::Candidate;
use no_graphics::swapchain::{
    choose_composite_alpha, has_composite_alpha, swapchain_view_info, AcquireAction, AcquireEvent,
    AcquiredImage, Acquisition, SurfaceCapabilities, SurfaceFormat, SwapchainPlan,
};
use no_graphics::texture::ImageBinding;
use no_graphics::vulkan::{
    ExtensionBits, ERROR_DEVICE_LOST, ERROR_EXTENSION_NOT_PRESENT, ERROR_OUT_OF_DATE,
    FORMAT_B8G8R8A8_SRGB, LAYOUT_GENERAL, LAYOUT_PRESENT_SRC, LAYOUT_UNDEFINED,
};
use no_graphics::{
    Command, CommandBuffer, Device, DeviceDesc, Effect, Error, Failure, Float, Format, MemoryType,
    RenderViewDesc, SamplerDesc, TextureDesc, TextureDescriptorDesc, TextureDescriptorType,
    TextureUsage, TimelinePoint, Uint32x2, Uint32x3,
};
use std::sync::Arc;

const EXT: ExtensionBits = ExtensionBits {
    sampler_heap_read: 1 << 57,
    resource_heap_read: 1 << 58,
    descriptor_heap_buffer: 1 << 28,
    tile_memory_heap: 1 << 3,
};

const WINDOW: Uint32x2 = Uint32x2 { x: 640, y: 480 };

const SURFACE: SurfaceCapabilities = SurfaceCapabilities {
    min_image_count: 2,
    max_image_count: 0,
    current_extent: Uint32x2 { x: 640, y: 480 },
    min_image_extent: Uint32x2 { x: 1, y: 1 },
    max_image_extent: Uint32x2 { x: 4096, y: 4096 },
    current_transform: 1,
    supported_composite_alpha: 0xf,
    supported_usage: 0x1f,
};

fn parts() -> DeviceParts {
    DeviceParts {
        device_name: "device".to_string(),
        memory: MemoryProperties {
            types: vec![MemoryTypeInfo { property_flags: 7, heap_index: 0 }],
            heaps: vec![MemoryHeapInfo { size: 1 << 20, flags: 0 }],
        },
        heap_properties: HeapProperties {
            image_descriptor_size: 32,
            image_descriptor_alignment: 32,
            buffer_descriptor_alignment: 32,
            sampler_descriptor_size: 16,
            sampler_descriptor_alignment: 16,
            resource_heap_alignment: 64,
            sampler_heap_alignment: 64,
            min_resource_heap_reserved_range: 32,
            min_sampler_heap_reserved_range: 16,
            max_push_data_size: 128,
        },
        max_timeline_difference: 100,
        texture_heap_alignment: 1024,
        texture_memory_type: 0,
        format_features: vec![u64::MAX; 47],
        timestamp_period_ns: Float(0x3f80_0000),
        sub_texel_precision_bits: 8,
        ext: EXT,
    }
}

const CANDIDATE: Candidate = Candidate {
    physical_device: 1,
    queue_family: 0,
    discrete: true,
    unified_image_layouts: false,
    image_cube_array: false,
    texture_compression_bc: true,
    texture_compression_astc: false,
    texture_compression_etc2: false,
    storage_input_output16: true,
    khr_swapchain_maintenance1: true,
};

fn context(pool: u64) -> CommandBuffer {
    match on_query_pool(pool, pool + 1, 4, Ok(pool + 2)) {
        ContextStep::Done(context) => context,
        _ => panic!(),
    }
}

fn device(windowed: bool) -> Device {
    let desc = DeviceDesc {
        windowed,
        swapchain_format: Format::Bgra8Srgb,
        timestamp_query_count: 4,
        ..DeviceDesc::default()
    };
    let mut device = Device::new(&desc, &CANDIDATE, parts());
    device.create_command_retirement(Ok(900)).unwrap();
    device.grow_command_context_pool(context(10));
    device.grow_command_context_pool(context(20));
    for index in 0..device.presentation.contexts.len() {
        let base = 100 + 10 * index as u64;
        device.create_present_context(index, PresentPart::Acquired, Ok(base)).unwrap();
        device.create_present_context(index, PresentPart::Rendered, Ok(base + 1)).unwrap();
        device.create_present_context(index, PresentPart::Presented, Ok(base + 2)).unwrap();
    }
    device
}

fn replace(device: &mut Device, handle: u64, signaled: Vec<bool>) -> Vec<Effect> {
    let mut step = device.replace_swapchain(Ok(SURFACE), WINDOW);
    let mut next_view = handle + 3;
    loop {
        step = match step {
            Replacement::Formats { capabilities, extent } => {
                let srgb = SurfaceFormat { format: FORMAT_B8G8R8A8_SRGB, color_space: 0 };
                device.plan_swapchain(&capabilities, extent, &Ok(vec![srgb]))
            }
            Replacement::Create { plan } => {
                assert_eq!(plan.min_image_count, 2);
                on_swapchain(plan, Ok(handle))
            }
            Replacement::Images { plan, handle } => {
                on_images(plan, handle, Ok(vec![handle + 1, handle + 2]))
            }
            Replacement::View { plan, handle, images, views } => {
                next_view += 1;
                on_view(plan, handle, images, views, Ok(next_view - 1))
            }
            Replacement::Install { plan, handle, images, views } => {
                return device.install_swapchain(handle, images, &views, plan, &signaled);
            }
            _ => panic!(),
        };
    }
}

fn windowed() -> Device {
    let mut device = device(true);
    assert!(replace(&mut device, 1000, vec![false; 2]).is_empty());
    device
}

fn point(device: &mut Device, value: u64) -> TimelinePoint {
    TimelinePoint { semaphore: device.create_timeline_semaphore(Ok(77)).unwrap(), value }
}

fn acquire(device: &mut Device, image: u32) -> (u64, Vec<Effect>) {
    let mut acquisition = Acquisition { context: None };
    let (action, effects) = device.acquire(&mut acquisition, AcquireEvent::Asked(SURFACE), WINDOW);
    let AcquireAction::AskImage { semaphore, .. } = action else { panic!() };
    let handed = AcquiredImage { image_index: image, suboptimal: None };
    let (action, _) = device.acquire(&mut acquisition, AcquireEvent::Handed(Ok(handed)), WINDOW);
    let AcquireAction::Frame(frame) = action else { panic!() };
    assert_eq!(frame.extent, WINDOW);
    assert!(frame.render_view.swapchain_view);
    (semaphore, effects)
}

fn draw_frame(device: &mut Device, image: u32, completion: &TimelinePoint) -> Vec<Effect> {
    let (_, effects) = acquire(device, image);
    let counter = if device.wants_counter_to_begin() { Some(device.timeline.completed) } else { None };
    let (context, _) = device.acquire_command_context(counter);
    let begun = device.begin_commands(context.unwrap());
    device.submit_and_present(vec![begun.commands], completion, None);
    device.on_presented(Presented::Optimal, WINDOW);
    effects
}

#[test]
fn a_device_knows_what_it_can_do() {
    let device = device(false);
    let caps = device.get_device_caps();
    assert_eq!(caps.device_name, "device");
    assert_eq!((caps.max_push_data_size, caps.texture_heap_alignment), (128, 1024));
    assert_eq!((caps.texture_descriptor_size, caps.sampler_descriptor_size), (32, 16));
    assert!(caps.texture_compression_bc && !caps.texture_compression_astc);
    assert!(device.swapchain.is_none() && device.presentation.contexts.is_empty());
    assert!(device.supports_texture_format(Format::Bc7Srgb, TextureUsage::sampled()));
    assert!(!device.supports_texture_format(Format::Astc4x4Srgb, TextureUsage::sampled()));
    assert!(!device.supports_texture_format(Format::EacRg, TextureUsage::sampled()));
    let depth = TextureUsage::depth_stencil_attachment();
    assert!(device.supports_texture_format(Format::D16Unorm, depth));
    assert!(!device.supports_texture_format(Format::R8Unorm, depth));
    assert!(!device.supports_texture_format(Format::D16Unorm, TextureUsage::color_attachment()));
    assert!(device.supports_texture_format(Format::D16Unorm, TextureUsage::transfer_source()));
    assert!(
        !device.supports_texture_format(Format::D24UnormS8Uint, TextureUsage::transfer_source())
    );
}

#[test]
fn missing_features_are_not_supported() {
    let mut device = device(false);
    device.format_features[Format::R8Unorm.ordinal()] = 1;
    let sampled = TextureUsage::sampled();
    assert!(device.supports_texture_format(Format::R8Unorm, sampled));
    let storage = TextureUsage::storage();
    assert!(!device.supports_texture_format(Format::R8Unorm, storage));
    assert!(!device.supports_texture_format(Format::R8Unorm, sampled | storage));
}

#[test]
fn resources_belong_to_the_device_until_destroyed() {
    let mut device = device(false);
    let before = device.allocations.count();
    let semaphore = device.create_timeline_semaphore(Ok(5)).unwrap();
    assert_eq!(
        device.create_timeline_semaphore(Err(ERROR_DEVICE_LOST)).unwrap_err(),
        Failure::Reported(Error::DeviceLost)
    );
    let plan = device.create_gpu_heap(100, MemoryType::CpuVisible);
    let backing = BackingBuffer { buffer: 6, memory: 7, mapped: Some(1), address: 64 };
    let heap = device.own_gpu_heap(plan, backing);
    assert_eq!((heap.range().gpu, heap.range().size), (64, 100));
    let textures = device.create_texture_heap(4096, Ok(8)).unwrap();
    assert_eq!(textures.size(), 4096);
    assert!(device.create_texture_heap(4096, Err(ERROR_EXTENSION_NOT_PRESENT)).is_err());
    let graphics = device.create_graphics_pso(0, 9).unwrap();
    let mesh = device.create_mesh_pso(0, 10).unwrap();
    let compute = device.create_compute_pso(0, 11).unwrap();
    assert_eq!((graphics.bind_point, mesh.bind_point, compute.bind_point), (0, 0, 1));
    assert_eq!(
        device.create_compute_pso(ERROR_DEVICE_LOST, 12).unwrap_err(),
        PipelineFailure {
            left_pipeline: Some(12),
            failure: Failure::Reported(Error::DeviceLost)
        }
    );
    assert_eq!(device.create_graphics_pso(-3, 0).unwrap_err().left_pipeline, None);
    assert_eq!(device.allocations.count(), before + 6);
    assert_eq!(device.destroy_pso(compute), vec![Effect::DestroyPipeline(11)]);
    assert_eq!(device.destroy_pso(mesh), vec![Effect::DestroyPipeline(10)]);
    assert_eq!(device.destroy_pso(graphics), vec![Effect::DestroyPipeline(9)]);
    assert_eq!(device.destroy_texture_heap(textures), vec![Effect::FreeMemory(8)]);
    assert_eq!(
        device.destroy_gpu_heap(heap),
        vec![Effect::UnmapMemory(7), Effect::DestroyBuffer(6), Effect::FreeMemory(7)]
    );
    let semaphore = Arc::try_unwrap(semaphore).unwrap();
    assert_eq!(
        device.destroy_timeline_semaphore(semaphore),
        vec![Effect::DestroySemaphore(5)]
    );
    assert_eq!(device.allocations.count(), before);
}

#[test]
fn requests_hold_what_the_driver_is_asked_for() {
    let mut device = device(false);
    device.texture_memory_type = 3;
    assert_eq!(
        device.plan_texture_heap(4096),
        TextureHeapRequest { size: 4096, memory_type: 3 }
    );
    let heap = device.create_texture_heap(4096, Ok(8)).unwrap();
    assert_eq!(
        device.plan_texture_binding(40, &heap, 1024),
        ImageBinding { image: 40, memory: 8, offset: 1024 }
    );
    assert_eq!(device.plan_timeline_semaphore(17), SemaphoreRequest { initial_value: 17 });
    assert_eq!(device.plan_command_retirement(), SemaphoreRequest { initial_value: 0 });
}

#[test]
fn textures_wait_for_their_initialization() {
    let mut device = device(false);
    let desc = TextureDesc {
        extent: Uint32x3 { x: 64, y: 32, z: 1 },
        mip_levels: 3,
        layer_count: 2,
        format: Format::D24UnormS8Uint,
        ..TextureDesc::default()
    };
    let first = device.create_texture(&desc, ImageCreation::Bound { image: 40 }).unwrap();
    let second = device.create_texture(&desc, ImageCreation::Bound { image: 41 }).unwrap();
    assert_eq!((first.width, first.height, first.depth, first.layer_count), (64, 32, 1, 2));
    assert_eq!(
        device
            .create_texture(&desc, ImageCreation::Unbound { image: 42, code: ERROR_DEVICE_LOST })
            .unwrap_err(),
        TextureFailure {
            left_image: Some(42),
            failure: Failure::Reported(Error::DeviceLost)
        }
    );
    let failed = device.create_texture(&desc, ImageCreation::Failed { code: -1 }).unwrap_err();
    assert_eq!(failed, TextureFailure { left_image: None, failure: Failure::Exhausted });
    assert_eq!(device.pending_textures.len(), 2);
    assert_eq!(device.destroy_texture(first), vec![Effect::DestroyImage(40)]);
    assert_eq!(device.pending_textures.len(), 1);
    assert_eq!(device.pending_textures[0].image, 41);
    let (context, _) = device.acquire_command_context(None);
    let begun = device.begin_commands(context.unwrap());
    assert!(matches!(begun.reset, Some(Command::ResetQueries { pool: 12, count: 4 })));
    assert_eq!(begun.initializations.len(), 1);
    assert_eq!(begun.initializations[0].len(), 1);
    let barrier = begun.initializations[0][0];
    assert_eq!((barrier.image, barrier.aspect_mask), (41, 6));
    assert!(begun.transition.is_none() && !begun.commands.swapchain);
    assert!(device.pending_textures.is_empty());
    let (context, _) = device.acquire_command_context(None);
    let again = device.begin_commands(context.unwrap());
    assert!(again.initializations.is_empty());
    let view = device.create_render_view(
        &second,
        &RenderViewDesc { mip_level: 2, slice: 1 },
        Ok(50),
    );
    let view = Arc::try_unwrap(view.unwrap()).unwrap();
    assert_eq!((view.view, view.width, view.height), (50, 16, 8));
    assert_eq!(device.destroy_render_view(view), vec![Effect::DestroyImageView(50)]);
    let requirements = MemoryRequirements { size: 9, alignment: 8, memory_type_bits: 1 };
    let size = device.get_texture_size_align(&requirements);
    assert_eq!((size.size, size.align), (9, 8));
    let prepared = device.prepare_texture(&desc);
    assert_eq!(prepared.view_formats, vec![Format::D24UnormS8Uint.vk()]);
}

#[test]
fn descriptors_take_their_size() {
    let mut device = device(false);
    let texture = device
        .create_texture(&TextureDesc::default(), ImageCreation::Bound { image: 40 })
        .unwrap();
    let bytes = [0_u8; 40];
    let (descriptor, size) = device.write_texture_descriptor(
        &bytes,
        &texture,
        TextureDescriptorType::Sampled,
        &TextureDescriptorDesc::default(),
    );
    assert_eq!((size, descriptor.view.image), (32, 40));
    let (sampler, size) = device.write_sampler_descriptor(&bytes, &SamplerDesc::default());
    assert_eq!((size, sampler.max_anisotropy), (16, Float(0x3f80_0000)));
}

#[test]
fn submissions_count_and_wait() {
    let mut device = device(false);
    let completion = point(&mut device, 3);
    let (context, effects) = device.acquire_command_context(None);
    assert!(effects.is_empty());
    let begun = device.begin_commands(context.unwrap());
    let (submission, effects) = device.submit(vec![begun.commands], &completion, None);
    assert!(effects.is_empty());
    assert_eq!(submission.signals, vec![Signal { semaphore: 77, value: 3 }]);
    assert_eq!(submission.retirement, Signal { semaphore: 900, value: 1 });
    assert_eq!(
        device.wait_timeline(&completion),
        Effect::WaitSemaphore { semaphore: 77, value: 3 }
    );
    assert_eq!(device.poll_command_retirement(Some(1)), vec![Effect::ResetCommandPool(10)]);
    assert!(!device.wants_counter_to_submit());
    assert!(device.wait_idle().is_empty());
    assert_eq!(
        device.create_command_retirement(Err(ERROR_DEVICE_LOST)),
        Err(Failure::Reported(Error::DeviceLost))
    );
}

#[test]
fn frames_go_round_the_present_contexts() {
    let mut device = windowed();
    let completion = point(&mut device, 1);
    let (semaphore, effects) = acquire(&mut device, 1);
    assert_eq!(semaphore, 100);
    assert!(effects.is_empty());
    let (context, _) = device.acquire_command_context(None);
    let first = device.begin_commands(context.unwrap());
    let transition = first.transition.unwrap();
    assert_eq!((transition.image, transition.old_layout), (1002, LAYOUT_UNDEFINED));
    assert_eq!(transition.new_layout, LAYOUT_GENERAL);
    assert!(first.commands.swapchain);
    let (context, _) = device.acquire_command_context(None);
    let second = device.begin_commands(context.unwrap());
    assert!(second.transition.is_none() && !second.commands.swapchain);
    let commands = vec![first.commands, second.commands];
    let (present, effects) = device.submit_and_present(commands, &completion, None);
    assert!(effects.is_empty());
    assert_eq!(present.last_commands, 21);
    assert_eq!(
        (present.barrier.old_layout, present.barrier.new_layout, present.barrier.image),
        (LAYOUT_GENERAL, LAYOUT_PRESENT_SRC, 1002)
    );
    assert_eq!((present.fence, present.rendered), (102, 101));
    assert_eq!((present.swapchain, present.image_index), (1000, 1));
    assert_eq!(present.submission.wait, Some(100));
    assert_eq!(present.submission.signals[1], Signal { semaphore: 101, value: 0 });
    device.on_presented(Presented::Optimal, WINDOW);
    assert_eq!(device.presentation.next, 1);
    assert!(device.presentation.contexts[0].present_pending);
    assert_eq!(device.presentation.pending_fences(), vec![Some(102), None]);
    // The second frame uses the other context, the third waits for the first.
    device.poll_command_retirement(Some(1));
    assert!(draw_frame(&mut device, 0, &completion).is_empty());
    assert_eq!(device.presentation.next, 0);
    device.poll_command_retirement(Some(2));
    let (semaphore, effects) = acquire(&mut device, 1);
    assert_eq!(semaphore, 100);
    assert_eq!(effects, vec![Effect::WaitFence(102)]);
    // The image was presented before.
    let (context, _) = device.acquire_command_context(None);
    let begun = device.begin_commands(context.unwrap());
    assert_eq!(begun.transition.unwrap().old_layout, LAYOUT_PRESENT_SRC);
}

#[test]
fn a_replaced_swapchain_outlives_its_presents() {
    let mut device = windowed();
    let completion = point(&mut device, 1);
    draw_frame(&mut device, 0, &completion);
    // A present is under way: the old swapchain is kept.
    assert!(replace(&mut device, 2000, vec![false; 2]).is_empty());
    assert_eq!(device.presentation.retired.len(), 1);
    assert_eq!(device.swapchain.as_ref().unwrap().handle, 2000);
    assert!(!device.is_new_swapchain(0));
    assert!(!device.is_new_swapchain(1000));
    assert!(!device.is_new_swapchain(2000));
    assert!(device.is_new_swapchain(3000));
    // Everything is waited for: the old swapchain goes, its images first.
    let effects = device.wait_idle();
    assert_eq!(
        effects,
        vec![
            Effect::WaitSemaphore { semaphore: 900, value: 1 },
            Effect::ResetCommandPool(10),
            Effect::WaitFence(102),
            Effect::DestroyImageView(1003),
            Effect::DestroyImageView(1004),
            Effect::DestroySwapchain(1000),
        ]
    );
    assert!(device.presentation.retired.is_empty());
    assert_eq!(device.presentation.next, 0);
}

#[test]
fn a_finished_present_lets_its_swapchain_go() {
    let mut device = windowed();
    let completion = point(&mut device, 1);
    draw_frame(&mut device, 0, &completion);
    // The fence is signaled, but the work is not known to have completed.
    assert!(replace(&mut device, 2000, vec![true, false]).is_empty());
    assert!(device.presentation.retired.is_empty());
    assert_eq!(device.timeline.deferred.count(), 2);
    assert_eq!(
        device.poll_command_retirement(Some(1)),
        vec![
            Effect::ResetCommandPool(10),
            Effect::DestroyImageView(1003),
            Effect::DestroyImageView(1004),
            Effect::DestroySwapchain(1000),
        ]
    );
}

#[test]
fn a_swapchain_waits_for_all_of_its_presents() {
    let mut device = windowed();
    let completion = point(&mut device, 1);
    draw_frame(&mut device, 0, &completion);
    draw_frame(&mut device, 1, &completion);
    // One of the two presents has ended.
    assert!(replace(&mut device, 2000, vec![true, false]).is_empty());
    assert_eq!(device.presentation.retired.len(), 1);
    assert_eq!(device.timeline.deferred.count(), 0);
    // Both have ended: the swapchain waits for the submitted work now, and so does its successor.
    assert!(replace(&mut device, 3000, vec![false, true]).is_empty());
    assert!(device.presentation.retired.is_empty());
    assert_eq!(device.timeline.deferred.count(), 4);
    let effects = device.poll_command_retirement(Some(2));
    assert_eq!(
        effects,
        vec![
            Effect::ResetCommandPool(10),
            Effect::ResetCommandPool(20),
            Effect::DestroyImageView(1003),
            Effect::DestroyImageView(1004),
            Effect::DestroySwapchain(1000),
            Effect::DestroyImageView(2003),
            Effect::DestroyImageView(2004),
            Effect::DestroySwapchain(2000),
        ]
    );
}

#[test]
fn unfit_swapchains_are_replaced_before_a_frame() {
    let mut device = device(true);
    let mut acquisition = Acquisition { context: None };
    let (action, _) = device.acquire(&mut acquisition, AcquireEvent::Asked(SURFACE), WINDOW);
    assert!(matches!(action, AcquireAction::Replace));
    // The window has no area.
    let hidden = SurfaceCapabilities { current_extent: Uint32x2 { x: 0, y: 0 }, ..SURFACE };
    assert_eq!(device.replace_swapchain(Ok(hidden), WINDOW), Replacement::Hidden);
    let (action, _) = device.acquire(&mut acquisition, AcquireEvent::Replaced, WINDOW);
    assert!(matches!(action, AcquireAction::NoFrame));
    replace(&mut device, 1000, vec![false; 2]);
    let (action, _) = device.acquire(&mut acquisition, AcquireEvent::Replaced, WINDOW);
    assert!(matches!(action, AcquireAction::AskImage { swapchain: 1000, semaphore: 100 }));
    let (action, _) = device.acquire(
        &mut acquisition,
        AcquireEvent::Handed(Err(ERROR_OUT_OF_DATE)),
        WINDOW,
    );
    assert!(matches!(action, AcquireAction::Replace));
    assert!(device.swapchain.as_ref().unwrap().recreate_required);
    let (action, _) = device.acquire(
        &mut acquisition,
        AcquireEvent::Handed(Err(ERROR_DEVICE_LOST)),
        WINDOW,
    );
    assert!(matches!(action, AcquireAction::Fatal(ERROR_DEVICE_LOST)));
    replace(&mut device, 2000, vec![false; 2]);
    // A surface that has changed asks for a new swapchain after the frame.
    let turned = SurfaceCapabilities { current_transform: 2, ..SURFACE };
    let handed = AcquiredImage { image_index: 0, suboptimal: Some(turned) };
    let (action, _) = device.acquire(&mut acquisition, AcquireEvent::Handed(Ok(handed)), WINDOW);
    assert!(matches!(action, AcquireAction::Frame(_)));
    assert!(device.swapchain.as_ref().unwrap().recreate_required);
}

#[test]
fn hidden_windows_give_no_frame() {
    let nothing = Uint32x2 { x: 0, y: 0 };
    let open = SurfaceCapabilities {
        current_extent: Uint32x2 { x: u32::MAX, y: u32::MAX },
        ..SURFACE
    };
    let flat = SurfaceCapabilities { current_extent: Uint32x2 { x: 640, y: 0 }, ..SURFACE };
    for (capabilities, window) in [(open, nothing), (flat, WINDOW)] {
        // The swapchain is fit and known to be in order: the extent alone decides.
        let mut device = windowed();
        let mut acquisition = Acquisition { context: None };
        let asked = AcquireEvent::Asked(capabilities);
        let (action, effects) = device.acquire(&mut acquisition, asked, window);
        assert!(matches!(action, AcquireAction::NoFrame));
        assert!(effects.is_empty());
        assert_eq!(acquisition.context, None);
        let swapchain = device.swapchain.as_ref().unwrap();
        assert_eq!((swapchain.handle, swapchain.width, swapchain.height), (1000, 0, 0));
        assert!(!swapchain.acquired && swapchain.recreate_required);
        // With an area again, the swapchain is replaced before a frame.
        let asked = AcquireEvent::Asked(SURFACE);
        let (action, _) = device.acquire(&mut acquisition, asked, WINDOW);
        assert!(matches!(action, AcquireAction::Replace));
        replace(&mut device, 2000, vec![false; 2]);
        let (action, _) = device.acquire(&mut acquisition, AcquireEvent::Replaced, WINDOW);
        assert!(matches!(action, AcquireAction::AskImage { swapchain: 2000, .. }));
    }
}

#[test]
fn contexts_come_back_unmarked() {
    let mut device = windowed();
    let completion = point(&mut device, 1);
    draw_frame(&mut device, 0, &completion);
    assert!(device.timeline.contexts.iter().all(|context| !context.swapchain));
    device.wait_idle();
    // The image was presented before: its next frame starts from there, in one recording of two.
    acquire(&mut device, 0);
    let mut begun = Vec::new();
    for _ in 0..2 {
        let (context, _) = device.acquire_command_context(None);
        begun.push(device.begin_commands(context.unwrap()));
    }
    assert_eq!(begun[0].transition.unwrap().old_layout, LAYOUT_PRESENT_SRC);
    assert_eq!(begun[0].transition.unwrap().new_layout, LAYOUT_GENERAL);
    assert!(begun[0].commands.swapchain);
    assert!(begun[1].transition.is_none() && !begun[1].commands.swapchain);
    assert!(begun[1].initializations.is_empty());
}

#[test]
fn presents_report_the_surface() {
    for (presented, outdated) in [
        (Presented::Optimal, false),
        (Presented::Suboptimal(SURFACE), false),
        (Presented::Suboptimal(SurfaceCapabilities { current_transform: 4, ..SURFACE }), true),
        (Presented::OutOfDate, true),
    ] {
        let mut device = windowed();
        let completion = point(&mut device, 1);
        acquire(&mut device, 0);
        let (context, _) = device.acquire_command_context(None);
        let begun = device.begin_commands(context.unwrap());
        device.submit_and_present(vec![begun.commands], &completion, None);
        device.on_presented(presented, WINDOW);
        assert_eq!(device.swapchain.as_ref().unwrap().recreate_required, outdated);
    }
}

#[test]
fn drawable_extents_follow_the_surface_and_the_window() {
    assert_eq!(SURFACE.drawable_extent(Uint32x2 { x: 1, y: 1 }), WINDOW);
    let free = SurfaceCapabilities {
        current_extent: Uint32x2 { x: u32::MAX, y: u32::MAX },
        min_image_extent: Uint32x2 { x: 100, y: 100 },
        max_image_extent: Uint32x2 { x: 500, y: 500 },
        ..SURFACE
    };
    assert_eq!(free.drawable_extent(WINDOW), Uint32x2 { x: 500, y: 480 });
    assert_eq!(free.drawable_extent(Uint32x2 { x: 7, y: 200 }), Uint32x2 { x: 100, y: 200 });
    assert_eq!(free.drawable_extent(Uint32x2 { x: 7, y: 0 }), Uint32x2 { x: 0, y: 0 });
    let mut device = windowed();
    assert_eq!(device.get_drawable_extent(&SURFACE, WINDOW), WINDOW);
    assert!(!device.swapchain.as_ref().unwrap().recreate_required);
    device.get_drawable_extent(&free, WINDOW);
    assert!(device.swapchain.as_ref().unwrap().recreate_required);
    let mut headless = self::device(false);
    assert_eq!(headless.get_drawable_extent(&SURFACE, WINDOW), Uint32x2 { x: 0, y: 0 });
}

#[test]
fn surfaces_that_do_not_serve_are_refused() {
    let mut device = device(true);
    let unsupported = || Replacement::Failed(Failure::Reported(Error::Unsupported));
    assert_eq!(
        device.replace_swapchain(Err(ERROR_DEVICE_LOST), WINDOW),
        Replacement::Failed(Failure::Reported(Error::DeviceLost))
    );
    let no_color = SurfaceCapabilities { supported_usage: 0x7, ..SURFACE };
    assert_eq!(device.replace_swapchain(Ok(no_color), WINDOW), unsupported());
    let wanted = SurfaceFormat { format: FORMAT_B8G8R8A8_SRGB, color_space: 0 };
    let other = SurfaceFormat { format: 37, color_space: 0 };
    let any = SurfaceFormat { format: 0, color_space: 0 };
    let plan = |formats| device.plan_swapchain(&SURFACE, WINDOW, &formats);
    assert_eq!(plan(Err(-3)), Replacement::Failed(Failure::Reported(Error::DriverError)));
    assert_eq!(plan(Ok(vec![])), unsupported());
    assert_eq!(plan(Ok(vec![other])), unsupported());
    assert_eq!(plan(Ok(vec![SurfaceFormat { color_space: 1, ..wanted }])), unsupported());
    assert_eq!(plan(Ok(vec![wanted; 65])), unsupported());
    assert!(matches!(plan(Ok(vec![wanted; 64])), Replacement::Create { .. }));
    assert!(matches!(plan(Ok(vec![other, any])), Replacement::Create { .. }));
    let many = SurfaceCapabilities { min_image_count: 9, ..SURFACE };
    let formats = Ok(vec![wanted]);
    assert_eq!(device.plan_swapchain(&many, WINDOW, &formats), unsupported());
    let few = SurfaceCapabilities { min_image_count: 1, max_image_count: 1, ..SURFACE };
    let Replacement::Create { plan } = device.plan_swapchain(&few, WINDOW, &formats) else {
        panic!()
    };
    assert_eq!((plan.min_image_count, plan.format), (1, FORMAT_B8G8R8A8_SRGB));
    assert_eq!((plan.transform, plan.composite_alpha, plan.old_swapchain), (1, 1, 0));
    let view = swapchain_view_info(7, FORMAT_B8G8R8A8_SRGB);
    assert_eq!((view.image, view.mip_count, view.layer_count), (7, 1, 1));
}

#[test]
fn a_replacement_holds_what_was_made() {
    let plan = SwapchainPlan {
        min_image_count: 2,
        format: FORMAT_B8G8R8A8_SRGB,
        extent: WINDOW,
        transform: 1,
        composite_alpha: 1,
        old_swapchain: 0,
    };
    let unsupported = Failure::Reported(Error::Unsupported);
    let abandon = |made, views, failure| Replacement::Abandon { made, views, failure };
    assert_eq!(on_swapchain(plan, Err(-1)), abandon(None, vec![], Failure::Exhausted));
    assert_eq!(on_swapchain(plan, Ok(5)), Replacement::Images { plan, handle: 5 });
    assert_eq!(on_images(plan, 5, Ok(vec![])), abandon(Some(5), vec![], unsupported));
    assert_eq!(on_images(plan, 5, Ok(vec![1; 9])), abandon(Some(5), vec![], unsupported));
    assert_eq!(on_images(plan, 5, Err(-2)), abandon(Some(5), vec![], Failure::Exhausted));
    assert_eq!(
        on_images(plan, 5, Ok(vec![1; 8])),
        Replacement::View { plan, handle: 5, images: vec![1; 8], views: vec![] }
    );
    let images = vec![6, 7];
    assert_eq!(
        on_view(plan, 5, images.clone(), vec![], Ok(8)),
        Replacement::View { plan, handle: 5, images: images.clone(), views: vec![8] }
    );
    assert_eq!(
        on_view(plan, 5, images.clone(), vec![8], Ok(9)),
        Replacement::Install { plan, handle: 5, images: images.clone(), views: vec![8, 9] }
    );
    assert_eq!(
        on_view(plan, 5, images, vec![8], Err(ERROR_EXTENSION_NOT_PRESENT)),
        abandon(Some(5), vec![8], unsupported)
    );
}

#[test]
fn a_failed_replacement_gives_up_the_swapchain() {
    let mut device = windowed();
    let effects = device.abandon_swapchain(Some(2000), &vec![2003], &vec![false; 2]);
    assert_eq!(
        effects,
        vec![
            Effect::DestroyImageView(2003),
            Effect::DestroySwapchain(2000),
            Effect::DestroyImageView(1003),
            Effect::DestroyImageView(1004),
            Effect::DestroySwapchain(1000),
        ]
    );
    let swapchain = device.swapchain.as_ref().unwrap();
    assert_eq!((swapchain.handle, swapchain.width), (0, 0));
    assert!(device.abandon_swapchain(None, &vec![], &vec![false; 2]).is_empty());
}

#[test]
fn composite_alpha_prefers_opaque() {
    assert_eq!(choose_composite_alpha(0xf), 1);
    assert_eq!(choose_composite_alpha(0xe), 2);
    assert_eq!(choose_composite_alpha(0xc), 4);
    assert_eq!(choose_composite_alpha(0x8), 8);
    assert!(has_composite_alpha(0x8));
    assert!(!has_composite_alpha(0x10));
    assert!(!has_composite_alpha(0));
}

#[test]
fn surfaces_without_composite_alpha_matter_only_where_they_must() {
    let device = windowed();
    let swapchain = device.swapchain.as_ref().unwrap();
    let bare = SurfaceCapabilities { supported_composite_alpha: 0, ..SURFACE };
    assert!(swapchain.can_compare(&SURFACE, WINDOW));
    assert!(!swapchain.can_compare(&bare, WINDOW));
    let turned = SurfaceCapabilities { current_transform: 2, ..bare };
    assert!(swapchain.can_compare(&turned, WINDOW));
    assert!(swapchain.surface_configuration_changed(&turned, WINDOW));
    let wanted = SurfaceFormat { format: FORMAT_B8G8R8A8_SRGB, color_space: 0 };
    assert!(device.can_plan_swapchain(&SURFACE, &Ok(vec![wanted])));
    assert!(!device.can_plan_swapchain(&bare, &Ok(vec![wanted])));
    assert!(device.can_plan_swapchain(&bare, &Ok(vec![])));
    assert!(device.can_plan_swapchain(&bare, &Err(ERROR_DEVICE_LOST)));
}

#[test]
fn bounds_of_a_surface_matter_only_where_they_decide() {
    let twisted = SurfaceCapabilities { min_image_extent: Uint32x2 { x: 9999, y: 1 }, ..SURFACE };
    assert!(twisted.knows_extent(WINDOW));
    assert_eq!(twisted.drawable_extent(WINDOW), WINDOW);
    let open = SurfaceCapabilities {
        current_extent: Uint32x2 { x: u32::MAX, y: u32::MAX },
        ..twisted
    };
    assert!(!open.knows_extent(WINDOW));
    let hidden = Uint32x2 { x: 0, y: 5 };
    assert!(open.knows_extent(hidden));
    assert_eq!(open.drawable_extent(hidden), Uint32x2 { x: 0, y: 0 });
}

#[test]
fn only_the_first_recording_makes_the_image_drawable() {
    let mut device = windowed();
    acquire(&mut device, 1);
    let (first, _) = device.acquire_command_context(None);
    let first = device.begin_commands(first.unwrap());
    let (second, _) = device.acquire_command_context(None);
    let second = device.begin_commands(second.unwrap());
    assert!(first.transition.is_some() && first.commands.swapchain);
    assert!(second.transition.is_none() && !second.commands.swapchain);
    let transition = device.swapchain.as_ref().unwrap().transition_commands;
    assert_eq!(transition, Some(first.commands.command_buffer));
}

#[test]
fn shutting_down_destroys_everything_in_order() {
    let mut device = windowed();
    let completion = point(&mut device, 1);
    draw_frame(&mut device, 0, &completion);
    assert_eq!(device.abandon_recordings(), None);
    let effects = device.shut_down(false);
    assert_eq!(
        effects,
        vec![
            Effect::WaitSemaphore { semaphore: 900, value: 1 },
            Effect::ResetCommandPool(10),
            Effect::WaitFence(102),
            Effect::DestroyImageView(1003),
            Effect::DestroyImageView(1004),
            Effect::DestroySwapchain(1000),
            Effect::DestroySemaphore(900),
            Effect::DestroySemaphore(100),
            Effect::DestroySemaphore(101),
            Effect::DestroyFence(102),
            Effect::DestroySemaphore(110),
            Effect::DestroySemaphore(111),
            Effect::DestroyFence(112),
            Effect::DestroySemaphore(77),
            Effect::DestroyQueryPool(22),
            Effect::DestroyCommandPool(20),
            Effect::DestroyQueryPool(12),
            Effect::DestroyCommandPool(10),
        ]
    );
    assert_eq!(device.allocations.count(), 0);
    assert!(device.swapchain.is_none() && device.timeline.contexts.is_empty());
}

#[test]
fn shutting_down_consumes_an_unsubmitted_frame() {
    let mut device = windowed();
    acquire(&mut device, 1);
    let (context, _) = device.acquire_command_context(None);
    let begun = device.begin_commands(context.unwrap());
    assert_eq!(device.abandon_recordings(), Some(100));
    drop(begun);
    let effects = device.shut_down(true);
    // The command pool of the dropped recording goes too.
    assert!(effects.contains(&Effect::DestroyCommandPool(10)));
    assert!(effects.contains(&Effect::DestroySwapchain(1000)));
}

#[test]
fn failed_present_contexts_report_the_failure() {
    let mut device = device(true);
    assert_eq!(
        device.create_present_context(0, PresentPart::Presented, Err(ERROR_DEVICE_LOST)),
        Err(Failure::Reported(Error::DeviceLost))
    );
    assert_eq!(device.presentation.contexts[0].presented, 102);
}
