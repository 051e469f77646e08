use no_graphics::allocation::{Allocation, Allocations};
use no_graphics::heap::{
    make_heap_bind_info, plan_gpu_heap, supports_gpu_heap_memory, BackingBuffer, BackingRequest,
    BackingStep, DescriptorLayout, HeapBinding, HeapPlan, HeapProperties,
};
use no_graphics::memory::{
    align_up, MemoryHeapInfo, MemoryProperties, MemoryRequirements, MemoryTypeInfo, MemoryWish,
    CPU_VISIBLE_MEMORY_PROPERTIES, UNIVERSAL_BUFFER_USAGE,
};
use no_graphics::vulkan::{
    ExtensionBits, ERROR_DEVICE_LOST, ERROR_FEATURE_NOT_PRESENT, ERROR_OUT_OF_DEVICE_MEMORY,
    MEMORY_DEVICE_LOCAL, MEMORY_HOST_CACHED, MEMORY_HOST_COHERENT, MEMORY_HOST_VISIBLE,
    MEMORY_PROTECTED,
};
use no_graphics::{
    CommandBuffer, Device, Effect, Error, Failure, GpuHeap, GpuRange, MemoryType, RenderView,
    Texture, TextureHeap, TimelineSemaphore, PSO,
};
use std::sync::{Arc, Mutex};

const EXT: ExtensionBits = ExtensionBits {
    sampler_heap_read: 1 << 57,
    resource_heap_read: 1 << 58,
    descriptor_heap_buffer: 1 << 28,
    tile_memory_heap: 1 << 3,
};

const PROPERTIES: HeapProperties = HeapProperties {
    image_descriptor_size: 32,
    image_descriptor_alignment: 32,
    buffer_descriptor_alignment: 64,
    sampler_descriptor_size: 16,
    sampler_descriptor_alignment: 16,
    resource_heap_alignment: 256,
    sampler_heap_alignment: 8,
    min_resource_heap_reserved_range: 100,
    min_sampler_heap_reserved_range: 0,
    max_push_data_size: 256,
};

fn memory() -> MemoryProperties {
    MemoryProperties {
        types: vec![
            MemoryTypeInfo { property_flags: MEMORY_DEVICE_LOCAL, heap_index: 0 },
            MemoryTypeInfo { property_flags: CPU_VISIBLE_MEMORY_PROPERTIES, heap_index: 1 },
            MemoryTypeInfo {
                property_flags: CPU_VISIBLE_MEMORY_PROPERTIES | MEMORY_HOST_CACHED,
                heap_index: 1,
            },
            MemoryTypeInfo {
                property_flags: MEMORY_DEVICE_LOCAL | MEMORY_PROTECTED,
                heap_index: 0,
            },
            MemoryTypeInfo { property_flags: MEMORY_DEVICE_LOCAL, heap_index: 2 },
        ],
        heaps: vec![
            MemoryHeapInfo { size: 8000, flags: 1 },
            MemoryHeapInfo { size: 1000, flags: 0 },
            MemoryHeapInfo { size: 9000, flags: 1 << 3 },
        ],
    }
}

#[test]
fn owned_and_shared_resources_support_thread_transfer() {
    fn send<T: Send>() {}
    fn send_sync<T: Send + Sync>() {}
    send_sync::<Arc<Mutex<Device>>>();
    send_sync::<Arc<Mutex<CommandBuffer>>>();
    send_sync::<Arc<Mutex<GpuHeap>>>();
    send_sync::<Arc<RenderView>>();
    send_sync::<Arc<TimelineSemaphore>>();
    send::<Texture>();
    send::<TextureHeap>();
    send::<PSO>();
}

#[test]
fn mapping_exposes_only_usable_bytes_after_alignment_padding() {
    let mut allocation = [0xa5_u8; 32];
    let heap = GpuHeap {
        range: GpuRange { gpu: 16, size: 8 },
        backing: BackingBuffer { mapped: Some(1), ..Default::default() },
        mapped_offset: 16,
    };
    let bytes = heap.mapped_bytes(&mut allocation).unwrap();
    assert_eq!(bytes.len(), 8);
    for byte in bytes {
        *byte = 0x42;
    }
    let actual = allocation;
    assert_eq!(&actual[..16], &[0xa5; 16]);
    assert_eq!(&actual[16..24], &[0x42; 8]);
    assert_eq!(&actual[24..], &[0xa5; 8]);
}

#[test]
fn gpu_only_heap_has_no_cpu_mapping() {
    let heap = GpuHeap {
        range: GpuRange { gpu: 16, size: 8 },
        backing: BackingBuffer::default(),
        mapped_offset: 0,
    };
    assert!(heap.mapped_bytes::<u8>(&mut []).is_none());
}

#[test]
fn alignment_rounds_up_to_multiples() {
    assert_eq!(align_up(0, 16), 0);
    assert_eq!(align_up(1, 16), 16);
    assert_eq!(align_up(16, 16), 16);
    assert_eq!(align_up(17, 16), 32);
    assert_eq!(align_up(10, 3), 12);
    assert_eq!(align_up(align_up(10, 3), 3), 12);
    assert_eq!(align_up(u64::MAX, 1), u64::MAX);
}

#[test]
fn memory_types_are_ranked() {
    let memory = memory();
    let wish = MemoryWish {
        bits: 0x1f,
        required: MEMORY_DEVICE_LOCAL,
        preferred: 0,
        avoided: MEMORY_HOST_VISIBLE,
        minimum_heap_size: 1,
    };
    assert_eq!(memory.find_memory_type(wish, EXT), Some(0));
    // The larger heap loses to a type without what is avoided.
    assert_eq!(memory.find_memory_type(MemoryWish { bits: 0x1e, ..wish }, EXT), Some(1));
    // Equal ranks: the first type.
    let visible = MemoryWish { required: CPU_VISIBLE_MEMORY_PROPERTIES, avoided: 0, ..wish };
    assert_eq!(memory.find_memory_type(visible, EXT), Some(1));
    let cached = MemoryWish { preferred: MEMORY_HOST_CACHED, ..visible };
    assert_eq!(memory.find_memory_type(cached, EXT), Some(2));
    assert_eq!(memory.find_memory_type(MemoryWish { bits: 0x18, ..wish }, EXT), None);
    assert_eq!(
        memory.find_memory_type(MemoryWish { minimum_heap_size: 1001, ..visible }, EXT),
        None
    );
    // Without the tile memory bit, its heap is the largest.
    let plain = ExtensionBits { tile_memory_heap: 0, ..EXT };
    assert_eq!(memory.find_memory_type(wish, plain), Some(4));
    assert!(memory.is_usable_memory_type(0, EXT));
    assert!(!memory.is_usable_memory_type(3, EXT));
    assert!(!memory.is_usable_memory_type(4, EXT));
}

#[test]
fn heap_support_needs_every_kind_of_memory() {
    let memory = memory();
    let all = MemoryRequirements { size: 1, alignment: 1, memory_type_bits: 0x1f };
    assert!(supports_gpu_heap_memory(&memory, all, all, EXT));
    let local = MemoryRequirements { memory_type_bits: 1, ..all };
    assert!(!supports_gpu_heap_memory(&memory, local, all, EXT));
    assert!(!supports_gpu_heap_memory(&memory, all, local, EXT));
    let none = MemoryRequirements { memory_type_bits: 8, ..all };
    assert!(!supports_gpu_heap_memory(&memory, none, all, EXT));
}

#[test]
fn plain_heaps_are_planned_byte_for_byte() {
    let gpu = plan_gpu_heap(1000, MemoryType::GpuOnly, PROPERTIES, EXT);
    assert_eq!(gpu.byte_count, 1000);
    assert_eq!(gpu.alignment, 1);
    assert_eq!(
        gpu.backing,
        BackingRequest {
            size: 1000,
            usage: UNIVERSAL_BUFFER_USAGE,
            required: MEMORY_DEVICE_LOCAL,
            preferred: 0,
            avoided: MEMORY_HOST_VISIBLE,
        }
    );
    let cpu = plan_gpu_heap(1000, MemoryType::CpuVisible, PROPERTIES, EXT).backing;
    assert_eq!(cpu.required, MEMORY_DEVICE_LOCAL | MEMORY_HOST_VISIBLE | MEMORY_HOST_COHERENT);
    assert_eq!((cpu.preferred, cpu.avoided), (0, 0));
    let readback = plan_gpu_heap(1000, MemoryType::Readback, PROPERTIES, EXT).backing;
    assert_eq!(readback.required, CPU_VISIBLE_MEMORY_PROPERTIES);
    assert_eq!((readback.preferred, readback.avoided), (MEMORY_HOST_CACHED, 0));
}

#[test]
fn descriptor_heaps_hold_their_reserved_range() {
    let plan = plan_gpu_heap(1000, MemoryType::TextureDescriptorHeap, PROPERTIES, EXT);
    // 1000 bytes round up to 1024, 100 are reserved, and 255 align the whole.
    assert_eq!(plan.backing.size, 1024 + 100 + 255);
    assert_eq!(plan.alignment, 256);
    assert_eq!(plan.backing.usage, UNIVERSAL_BUFFER_USAGE | 1 << 28);
    let backing = BackingBuffer { buffer: 1, memory: 2, mapped: Some(3), address: 0x1010 };
    let heap = GpuHeap::new(plan, backing);
    assert_eq!(heap.range(), GpuRange { gpu: 0x1100, size: 1000 });
    assert_eq!(GpuRange::from(&heap), heap.range());
    assert_eq!(heap.mapped_offset, 0xf0);
    let layout = PROPERTIES.layout(MemoryType::TextureDescriptorHeap).unwrap();
    assert_eq!(
        layout,
        DescriptorLayout { reserved_alignment: 64, reserved_size: 100, heap_alignment: 256 }
    );
    let bound = make_heap_bind_info(heap.range(), layout);
    assert_eq!(
        bound,
        HeapBinding { address: 0x1100, size: 1124, reserved_offset: 1024, reserved_size: 100 }
    );
    assert!(bound.address + bound.size <= backing.address + plan.backing.size);
    let sampler = plan_gpu_heap(10, MemoryType::SamplerDescriptorHeap, PROPERTIES, EXT);
    assert_eq!(sampler.backing.size, 16 + 15);
    assert_eq!(sampler.alignment, 16);
    assert!(PROPERTIES.layout(MemoryType::CpuVisible).is_none());
}

#[test]
fn backing_buffers_come_step_by_step() {
    let request = plan_gpu_heap(500, MemoryType::CpuVisible, PROPERTIES, EXT).backing;
    let requirements = MemoryRequirements { size: 512, alignment: 64, memory_type_bits: 0x1f };
    let memory = memory();
    assert_eq!(request.on_buffer(Ok(7)), BackingStep::Requirements { buffer: 7 });
    assert_eq!(
        request.on_requirements(7, requirements, &memory, EXT),
        BackingStep::Allocate { buffer: 7, size: 512, memory_type: 1 }
    );
    assert_eq!(request.on_memory(7, Ok(8)), BackingStep::Bind { buffer: 7, memory: 8 });
    assert_eq!(request.on_bound(7, 8, Ok(())), BackingStep::MapMemory { buffer: 7, memory: 8 });
    assert_eq!(
        request.on_mapped(7, 8, Ok(0x9000)),
        BackingStep::Address { buffer: 7, memory: 8, mapped: Some(0x9000) }
    );
    assert_eq!(
        request.on_mapped(7, 8, Ok(0)),
        BackingStep::Address { buffer: 7, memory: 8, mapped: None }
    );
    assert_eq!(
        request.on_address(7, 8, Some(0x9000), 0x100),
        BackingStep::Done(BackingBuffer {
            buffer: 7,
            memory: 8,
            mapped: Some(0x9000),
            address: 0x100
        })
    );
    let local = plan_gpu_heap(500, MemoryType::GpuOnly, PROPERTIES, EXT).backing;
    assert_eq!(
        local.on_bound(7, 8, Ok(())),
        BackingStep::Address { buffer: 7, memory: 8, mapped: None }
    );
}

#[test]
fn failed_backing_buffers_leave_nothing() {
    let request = plan_gpu_heap(500, MemoryType::CpuVisible, PROPERTIES, EXT).backing;
    let memory = memory();
    let failed = request.on_buffer(Err(ERROR_DEVICE_LOST));
    assert_eq!(
        failed,
        BackingStep::Failed {
            left_buffer: None,
            left_memory: None,
            failure: Failure::Reported(Error::DeviceLost)
        }
    );
    assert!(failed.cleanup().is_empty());
    let none = MemoryRequirements { size: 5000, alignment: 1, memory_type_bits: 0x1f };
    let failed = request.on_requirements(7, none, &memory, EXT);
    assert_eq!(failed.cleanup(), vec![Effect::DestroyBuffer(7)]);
    assert!(matches!(
        failed,
        BackingStep::Failed { failure: Failure::Reported(Error::Unsupported), .. }
    ));
    let failed = request.on_memory(7, Err(ERROR_OUT_OF_DEVICE_MEMORY));
    assert_eq!(failed.cleanup(), vec![Effect::DestroyBuffer(7)]);
    assert!(matches!(failed, BackingStep::Failed { failure: Failure::Exhausted, .. }));
    let failed = request.on_bound(7, 8, Err(ERROR_FEATURE_NOT_PRESENT));
    assert_eq!(failed.cleanup(), vec![Effect::DestroyBuffer(7), Effect::FreeMemory(8)]);
    let failed = request.on_mapped(7, 8, Err(-5));
    assert_eq!(failed.cleanup(), vec![Effect::DestroyBuffer(7), Effect::FreeMemory(8)]);
    assert!(matches!(
        failed,
        BackingStep::Failed { failure: Failure::Reported(Error::DriverError), .. }
    ));
    assert!(request.on_buffer(Ok(7)).cleanup().is_empty());
}

#[test]
fn allocations_are_released_once_and_in_reverse() {
    let mut ledger = Allocations::new();
    let mut effects = Vec::new();
    ledger.record(Allocation::Buffer(1, 2, true));
    ledger.record(Allocation::Memory(3));
    ledger.record(Allocation::Image(4));
    ledger.record(Allocation::View(5));
    ledger.record(Allocation::Pipeline(6));
    ledger.record(Allocation::Semaphore(7));
    ledger.record(Allocation::Commands(8, 9));
    ledger.record(Allocation::Commands(10, 0));
    assert_eq!(ledger.count(), 8);
    assert!(ledger.owns(Allocation::Image(4)));
    ledger.release(Allocation::Image(4), &mut effects);
    assert_eq!(effects, vec![Effect::DestroyImage(4)]);
    assert!(!ledger.owns(Allocation::Image(4)));
    assert_eq!(ledger.count(), 7);
    effects.clear();
    ledger.release_all(&mut effects);
    assert_eq!(
        effects,
        vec![
            Effect::DestroyCommandPool(10),
            Effect::DestroyQueryPool(9),
            Effect::DestroyCommandPool(8),
            Effect::DestroySemaphore(7),
            Effect::DestroyPipeline(6),
            Effect::DestroyImageView(5),
            Effect::FreeMemory(3),
            Effect::UnmapMemory(2),
            Effect::DestroyBuffer(1),
            Effect::FreeMemory(2),
        ]
    );
    assert_eq!(ledger.count(), 0);
}

#[test]
fn releasing_what_was_recorded_restores_the_ledger() {
    let mut ledger = Allocations::new();
    let mut effects = Vec::new();
    ledger.record(Allocation::Memory(3));
    ledger.record(Allocation::Buffer(1, 2, false));
    ledger.release(Allocation::Buffer(1, 2, false), &mut effects);
    assert_eq!(effects, vec![Effect::DestroyBuffer(1), Effect::FreeMemory(2)]);
    assert_eq!(ledger.count(), 1);
    assert!(ledger.owns(Allocation::Memory(3)));
}

#[test]
fn heaps_that_overflow_are_not_planned() {
    assert!(PROPERTIES.can_plan(1000, MemoryType::TextureDescriptorHeap));
    assert!(!PROPERTIES.can_plan(u64::MAX, MemoryType::TextureDescriptorHeap));
    assert!(PROPERTIES.can_plan(u64::MAX, MemoryType::GpuOnly));
    let unaligned = HeapProperties { sampler_descriptor_alignment: 0, ..PROPERTIES };
    assert!(!unaligned.can_plan(16, MemoryType::SamplerDescriptorHeap));
    assert!(unaligned.can_plan(16, MemoryType::TextureDescriptorHeap));
}

#[test]
fn heaps_that_overflow_are_not_bound() {
    let layout = PROPERTIES.layout(MemoryType::TextureDescriptorHeap).unwrap();
    assert!(layout.can_bind(GpuRange { gpu: 0, size: 1000 }));
    assert!(!layout.can_bind(GpuRange { gpu: 0, size: u64::MAX }));
    let unaligned = DescriptorLayout { reserved_alignment: 0, ..layout };
    assert!(!unaligned.can_bind(GpuRange { gpu: 0, size: 0 }));
}

#[test]
fn usable_bytes_lie_in_their_buffer() {
    for memory in [MemoryType::TextureDescriptorHeap, MemoryType::SamplerDescriptorHeap] {
        for address in [0, 1, 255, 256, 4097] {
            let plan = plan_gpu_heap(1000, memory, PROPERTIES, EXT);
            let heap = GpuHeap::new(plan, BackingBuffer { address, ..Default::default() });
            assert!(heap.mapped_offset as u64 + heap.range.size <= plan.backing.size);
            assert_eq!(heap.range.gpu % plan.alignment, 0);
        }
    }
    let plan = plan_gpu_heap(1000, MemoryType::CpuVisible, PROPERTIES, EXT);
    let heap = GpuHeap::new(plan, BackingBuffer { address: 77, ..Default::default() });
    assert_eq!((heap.mapped_offset, heap.range.gpu, plan.backing.size), (0, 77, 1000));
}

#[test]
fn heap_ranges_are_as_requested() {
    for memory in [
        MemoryType::CpuVisible,
        MemoryType::Readback,
        MemoryType::TextureDescriptorHeap,
        MemoryType::SamplerDescriptorHeap,
    ] {
        let plan = plan_gpu_heap(1000, memory, PROPERTIES, EXT);
        let backing = BackingBuffer { buffer: 1, memory: 2, mapped: Some(3), address: 0x1010 };
        assert!(plan.can_place(backing.address));
        let heap = GpuHeap::new(plan, backing);
        assert_eq!(heap.range().size, 1000);
        assert_eq!(GpuRange::from(&heap), heap.range());
        let mut mapping = vec![0u8; plan.backing.size as usize];
        assert_eq!(heap.mapped_bytes(&mut mapping).unwrap().len(), 1000);
    }
}

#[test]
fn heaps_behind_the_last_address_are_not_placed() {
    let plan = plan_gpu_heap(1000, MemoryType::TextureDescriptorHeap, PROPERTIES, EXT);
    assert!(plan.can_place(u64::MAX - 255));
    assert!(!plan.can_place(u64::MAX - 254));
    assert!(plan_gpu_heap(1000, MemoryType::GpuOnly, PROPERTIES, EXT).can_place(u64::MAX));
    assert!(!HeapPlan { alignment: 0, ..plan }.can_place(0));
}
