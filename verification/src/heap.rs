//! GPU heaps: what they ask for, how their buffers come about and what the host sees of them.

use crate::enums::MemoryType;
use crate::effect::Effect;
use crate::error::{failure_of, Error, Failure};
use crate::flags::has_all_u32;
use crate::memory::{
    align_up, aligned_up, aligned_up_bounds, MemoryProperties, MemoryRequirements, MemoryWish,
    CPU_VISIBLE_MEMORY_PROPERTIES, GPU_ALLOCATION_ALIGNMENT, UNIVERSAL_BUFFER_USAGE,
};
use crate::vulkan::{ExtensionBits, MEMORY_DEVICE_LOCAL, MEMORY_HOST_CACHED, MEMORY_HOST_VISIBLE};
use vstd::prelude::*;

verus! {

/// A range of GPU addresses.
#[derive(Clone, Copy, Debug, PartialEq, Eq, Structural)]
pub struct GpuRange {
    pub gpu: u64,
    pub size: u64,
}

impl Default for GpuRange {
    fn default() -> (r: Self)
        ensures
            r == (GpuRange { gpu: 0, size: 0 }),
    {
        GpuRange { gpu: 0, size: 0 }
    }
}

/// Sizes and alignments of descriptor heaps on the device.
#[derive(Clone, Copy, Debug, PartialEq, Eq, Structural)]
pub struct HeapProperties {
    pub image_descriptor_size: u64,
    pub image_descriptor_alignment: u64,
    pub buffer_descriptor_alignment: u64,
    pub sampler_descriptor_size: u64,
    pub sampler_descriptor_alignment: u64,
    pub resource_heap_alignment: u64,
    pub sampler_heap_alignment: u64,
    pub min_resource_heap_reserved_range: u64,
    pub min_sampler_heap_reserved_range: u64,
    pub max_push_data_size: u64,
}

/// The larger of two numbers.
pub open spec fn larger(a: u64, b: u64) -> u64 {
    if a >= b {
        a
    } else {
        b
    }
}

fn max_u64(a: u64, b: u64) -> (r: u64)
    ensures
        r == larger(a, b),
{
    if a >= b {
        a
    } else {
        b
    }
}

/// Layout of one kind of descriptor heap.
#[derive(Clone, Copy, Debug, PartialEq, Eq, Structural)]
pub struct DescriptorLayout {
    /// Alignment of the reserved range behind the descriptors.
    pub reserved_alignment: u64,
    /// Size of the reserved range.
    pub reserved_size: u64,
    /// Alignment of the heap itself.
    pub heap_alignment: u64,
}

impl HeapProperties {
    /// Layout of the texture descriptor heap.
    pub open spec fn texture_layout(self) -> DescriptorLayout {
        DescriptorLayout {
            reserved_alignment: larger(
                self.image_descriptor_alignment,
                self.buffer_descriptor_alignment,
            ),
            reserved_size: self.min_resource_heap_reserved_range,
            heap_alignment: self.resource_heap_alignment,
        }
    }

    /// Layout of the sampler descriptor heap.
    pub open spec fn sampler_layout(self) -> DescriptorLayout {
        DescriptorLayout {
            reserved_alignment: self.sampler_descriptor_alignment,
            reserved_size: self.min_sampler_heap_reserved_range,
            heap_alignment: self.sampler_heap_alignment,
        }
    }

    /// Layout of the descriptor heap that `memory` names, if it names one.
    pub open spec fn spec_layout(self, memory: MemoryType) -> Option<DescriptorLayout> {
        match memory {
            MemoryType::TextureDescriptorHeap => Some(self.texture_layout()),
            MemoryType::SamplerDescriptorHeap => Some(self.sampler_layout()),
            _ => None,
        }
    }

    /// Layout of the descriptor heap that `memory` names, if it names one.
    pub fn layout(self, memory: MemoryType) -> (r: Option<DescriptorLayout>)
        ensures
            r == self.spec_layout(memory),
    {
        match memory {
            MemoryType::TextureDescriptorHeap => Some(
                DescriptorLayout {
                    reserved_alignment: max_u64(
                        self.image_descriptor_alignment,
                        self.buffer_descriptor_alignment,
                    ),
                    reserved_size: self.min_resource_heap_reserved_range,
                    heap_alignment: self.resource_heap_alignment,
                },
            ),
            MemoryType::SamplerDescriptorHeap => Some(
                DescriptorLayout {
                    reserved_alignment: self.sampler_descriptor_alignment,
                    reserved_size: self.min_sampler_heap_reserved_range,
                    heap_alignment: self.sampler_heap_alignment,
                },
            ),
            _ => None,
        }
    }
}

/// A buffer to create, with what its memory must be like.
#[derive(Clone, Copy, Debug, PartialEq, Eq, Structural)]
pub struct BackingRequest {
    pub size: u64,
    pub usage: u32,
    pub required: u32,
    pub preferred: u32,
    pub avoided: u32,
}

/// A heap to create: its buffer, and the alignment of the range inside the buffer.
#[derive(Clone, Copy, Debug, PartialEq, Eq, Structural)]
pub struct HeapPlan {
    pub byte_count: u64,
    pub alignment: u64,
    pub backing: BackingRequest,
}

/// The bytes behind a descriptor heap of `byte_count` usable bytes: the usable bytes, padding, the
/// reserved range, and room to align the whole.
pub open spec fn descriptor_buffer_size(byte_count: u64, layout: DescriptorLayout) -> int {
    aligned_up(byte_count as int, layout.reserved_alignment as int) + layout.reserved_size + larger(
        layout.heap_alignment,
        GPU_ALLOCATION_ALIGNMENT,
    ) - 1
}

/// The plan for a heap of `byte_count` usable bytes.
pub open spec fn heap_plan(
    byte_count: u64,
    memory: MemoryType,
    properties: HeapProperties,
    ext: ExtensionBits,
) -> HeapPlan {
    match properties.spec_layout(memory) {
        Some(layout) => HeapPlan {
            byte_count,
            alignment: larger(layout.heap_alignment, GPU_ALLOCATION_ALIGNMENT),
            backing: BackingRequest {
                size: descriptor_buffer_size(byte_count, layout) as u64,
                usage: UNIVERSAL_BUFFER_USAGE | ext.descriptor_heap_buffer,
                required: CPU_VISIBLE_MEMORY_PROPERTIES,
                preferred: 0,
                avoided: 0,
            },
        },
        None => HeapPlan {
            byte_count,
            alignment: 1,
            backing: BackingRequest {
                size: byte_count,
                usage: UNIVERSAL_BUFFER_USAGE,
                required: if memory is GpuOnly {
                    MEMORY_DEVICE_LOCAL
                } else {
                    CPU_VISIBLE_MEMORY_PROPERTIES
                },
                preferred: if memory is Readback {
                    MEMORY_HOST_CACHED
                } else {
                    0
                },
                avoided: if memory is GpuOnly {
                    MEMORY_HOST_VISIBLE
                } else {
                    0
                },
            },
        },
    }
}

/// A descriptor heap of that size can be planned: its layout is sound and the sum fits.
pub open spec fn heap_plannable(
    byte_count: u64,
    memory: MemoryType,
    properties: HeapProperties,
) -> bool {
    properties.spec_layout(memory) matches Some(layout) ==> {
        &&& layout.reserved_alignment != 0
        &&& descriptor_buffer_size(byte_count, layout) <= u64::MAX
    }
}

impl HeapProperties {
    /// Whether a heap of that size can be planned.
    pub fn can_plan(self, byte_count: u64, memory: MemoryType) -> (r: bool)
        ensures
            r == heap_plannable(byte_count, memory, self),
    {
        match self.layout(memory) {
            Some(layout) => {
                if layout.reserved_alignment == 0 {
                    return false;
                }
                let end = wide_align_up(byte_count, layout.reserved_alignment);
                let alignment = max_u64(layout.heap_alignment, GPU_ALLOCATION_ALIGNMENT);
                end + layout.reserved_size as u128 + (alignment as u128 - 1) <= u64::MAX as u128
            },
            None => true,
        }
    }
}

/// The least multiple of `alignment` that is not below `value`, where it may have more bits.
fn wide_align_up(value: u64, alignment: u64) -> (r: u128)
    requires
        alignment != 0,
    ensures
        r == aligned_up(value as int, alignment as int),
        r < value + alignment,
{
    let (v, a): (u128, u128) = (value as u128, alignment as u128);
    proof {
        aligned_up_bounds(value as int, alignment as int);
    }
    (v + a - 1) / a * a
}

/// Plans a heap of `byte_count` usable bytes. A descriptor heap gets its reserved range behind the
/// usable bytes.
pub fn plan_gpu_heap(
    byte_count: u64,
    memory: MemoryType,
    properties: HeapProperties,
    ext: ExtensionBits,
) -> (r: HeapPlan)
    requires
        heap_plannable(byte_count, memory, properties),
    ensures
        r == heap_plan(byte_count, memory, properties, ext),
        r.alignment != 0,
{
    match properties.layout(memory) {
        Some(layout) => {
            let alignment = max_u64(layout.heap_alignment, GPU_ALLOCATION_ALIGNMENT);
            proof {
                aligned_up_bounds(byte_count as int, layout.reserved_alignment as int);
            }
            let size = align_up(byte_count, layout.reserved_alignment) + layout.reserved_size + (
            alignment - 1);
            HeapPlan {
                byte_count,
                alignment,
                backing: BackingRequest {
                    size,
                    usage: UNIVERSAL_BUFFER_USAGE | ext.descriptor_heap_buffer,
                    required: CPU_VISIBLE_MEMORY_PROPERTIES,
                    preferred: 0,
                    avoided: 0,
                },
            }
        },
        None => {
            let (required, preferred, avoided): (u32, u32, u32) = match memory {
                MemoryType::GpuOnly => (MEMORY_DEVICE_LOCAL, 0, MEMORY_HOST_VISIBLE),
                MemoryType::Readback => (CPU_VISIBLE_MEMORY_PROPERTIES, MEMORY_HOST_CACHED, 0),
                _ => (CPU_VISIBLE_MEMORY_PROPERTIES, 0, 0),
            };
            HeapPlan {
                byte_count,
                alignment: 1,
                backing: BackingRequest {
                    size: byte_count,
                    usage: UNIVERSAL_BUFFER_USAGE,
                    required,
                    preferred,
                    avoided,
                },
            }
        },
    }
}

/// A buffer with its memory, mapped where the host can see it.
#[derive(Clone, Copy, Debug, PartialEq, Eq, Structural)]
pub struct BackingBuffer {
    pub buffer: u64,
    pub memory: u64,
    /// Host address of the mapping.
    pub mapped: Option<u64>,
    /// GPU address of the buffer.
    pub address: u64,
}

impl Default for BackingBuffer {
    fn default() -> (r: Self)
        ensures
            r == (BackingBuffer { buffer: 0, memory: 0, mapped: None, address: 0 }),
    {
        BackingBuffer { buffer: 0, memory: 0, mapped: None, address: 0 }
    }
}

/// What the creation of a backing buffer needs next, or how it ended.
#[derive(Clone, Copy, Debug, PartialEq, Eq, Structural)]
pub enum BackingStep {
    /// Ask for the memory requirements of the buffer.
    Requirements { buffer: u64 },
    /// Allocate memory with a device address.
    Allocate { buffer: u64, size: u64, memory_type: u32 },
    /// Bind the memory to the buffer, at its start.
    Bind { buffer: u64, memory: u64 },
    /// Map the whole memory.
    MapMemory { buffer: u64, memory: u64 },
    /// Ask for the GPU address of the buffer.
    Address { buffer: u64, memory: u64, mapped: Option<u64> },
    /// The buffer is there.
    Done(BackingBuffer),
    /// Release the buffer and the memory that are left over, then fail.
    Failed { left_buffer: Option<u64>, left_memory: Option<u64>, failure: Failure },
}

impl BackingStep {
    /// The buffer and the memory that exist at this point and belong to the creation.
    pub open spec fn held(self) -> (Option<u64>, Option<u64>) {
        match self {
            BackingStep::Requirements { buffer } => (Some(buffer), None),
            BackingStep::Allocate { buffer, .. } => (Some(buffer), None),
            BackingStep::Bind { buffer, memory } => (Some(buffer), Some(memory)),
            BackingStep::MapMemory { buffer, memory } => (Some(buffer), Some(memory)),
            BackingStep::Address { buffer, memory, .. } => (Some(buffer), Some(memory)),
            BackingStep::Done(backing) => (Some(backing.buffer), Some(backing.memory)),
            BackingStep::Failed { left_buffer, left_memory, .. } => (left_buffer, left_memory),
        }
    }

    /// The calls that release what a failed creation leaves over: all that it holds.
    pub fn cleanup(&self) -> (r: Vec<Effect>)
        ensures
            r@ == (match *self {
                BackingStep::Failed { left_buffer, left_memory, .. } => (match left_buffer {
                    Some(buffer) => seq![Effect::DestroyBuffer(buffer)],
                    None => seq![],
                }) + (match left_memory {
                    Some(memory) => seq![Effect::FreeMemory(memory)],
                    None => seq![],
                }),
                _ => seq![],
            }),
    {
        let mut effects: Vec<Effect> = Vec::new();
        if let BackingStep::Failed { left_buffer, left_memory, .. } = *self {
            if let Some(buffer) = left_buffer {
                effects.push(Effect::DestroyBuffer(buffer));
            }
            if let Some(memory) = left_memory {
                effects.push(Effect::FreeMemory(memory));
            }
        }
        effects
    }
}

/// What is answered to the steps of a creation. An answer counts where its step is reached.
#[derive(Clone, Copy, Debug)]
pub struct BackingAnswers {
    pub buffer: Result<u64, i32>,
    /// The memory type that fits, if one does.
    pub memory_type: Option<u32>,
    pub memory: Result<u64, i32>,
    pub bound: Result<(), i32>,
    pub mapped: Result<u64, i32>,
    pub address: u64,
}

impl BackingRequest {
    /// The wish for a memory type that follows from the requirements of the buffer.
    pub open spec fn wish(self, requirements: MemoryRequirements) -> MemoryWish {
        MemoryWish {
            bits: requirements.memory_type_bits,
            required: self.required,
            preferred: self.preferred,
            avoided: self.avoided,
            minimum_heap_size: requirements.size,
        }
    }

    /// The step after the creation of the buffer.
    pub open spec fn after_buffer(self, result: Result<u64, i32>) -> BackingStep {
        match result {
            Ok(buffer) => BackingStep::Requirements { buffer },
            Err(code) => BackingStep::Failed {
                left_buffer: None,
                left_memory: None,
                failure: failure_of(code),
            },
        }
    }

    /// The end where no memory type fits.
    pub open spec fn without_memory(self, buffer: u64) -> BackingStep {
        BackingStep::Failed {
            left_buffer: Some(buffer),
            left_memory: None,
            failure: Failure::Reported(Error::Unsupported),
        }
    }

    /// The step after the allocation of the memory.
    pub open spec fn after_memory(self, buffer: u64, result: Result<u64, i32>) -> BackingStep {
        match result {
            Ok(memory) => BackingStep::Bind { buffer, memory },
            Err(code) => BackingStep::Failed {
                left_buffer: Some(buffer),
                left_memory: None,
                failure: failure_of(code),
            },
        }
    }

    /// The step after the memory was bound: memory that the host sees is mapped.
    pub open spec fn after_bound(
        self,
        buffer: u64,
        memory: u64,
        result: Result<(), i32>,
    ) -> BackingStep {
        match result {
            Ok(_) => if has_all_u32(self.required, MEMORY_HOST_VISIBLE) {
                BackingStep::MapMemory { buffer, memory }
            } else {
                BackingStep::Address { buffer, memory, mapped: None }
            },
            Err(code) => BackingStep::Failed {
                left_buffer: Some(buffer),
                left_memory: Some(memory),
                failure: failure_of(code),
            },
        }
    }

    /// The step after the memory was mapped. The null address counts as no mapping.
    pub open spec fn after_mapped(
        self,
        buffer: u64,
        memory: u64,
        result: Result<u64, i32>,
    ) -> BackingStep {
        match result {
            Ok(host) => BackingStep::Address {
                buffer,
                memory,
                mapped: if host == 0 {
                    None
                } else {
                    Some(host)
                },
            },
            Err(code) => BackingStep::Failed {
                left_buffer: Some(buffer),
                left_memory: Some(memory),
                failure: failure_of(code),
            },
        }
    }

    /// How the creation ends on those answers: one step after the other, up to the first that
    /// fails.
    pub open spec fn outcome(self, answers: BackingAnswers) -> BackingStep {
        match self.after_buffer(answers.buffer) {
            BackingStep::Requirements { buffer } => if answers.memory_type is None {
                self.without_memory(buffer)
            } else {
                match self.after_memory(buffer, answers.memory) {
                    BackingStep::Bind { buffer, memory } => {
                        let bound = self.after_bound(buffer, memory, answers.bound);
                        let last = if bound is MapMemory {
                            self.after_mapped(buffer, memory, answers.mapped)
                        } else {
                            bound
                        };
                        match last {
                            BackingStep::Address { buffer, memory, mapped } => BackingStep::Done(
                                BackingBuffer { buffer, memory, mapped, address: answers.address },
                            ),
                            failed => failed,
                        }
                    },
                    failed => failed,
                }
            },
            failed => failed,
        }
    }

    /// The buffer was created, or the creation failed with a code.
    pub fn on_buffer(self, result: Result<u64, i32>) -> (r: BackingStep)
        ensures
            r == self.after_buffer(result),
            r.held() == (match result {
                Ok(buffer) => (Some(buffer), None::<u64>),
                Err(_) => (None::<u64>, None::<u64>),
            }),
    {
        match result {
            Ok(buffer) => BackingStep::Requirements { buffer },
            Err(code) => BackingStep::Failed {
                left_buffer: None,
                left_memory: None,
                failure: Failure::from_code(code),
            },
        }
    }

    /// The requirements of the buffer are known: a memory type is chosen, or none fits.
    pub fn on_requirements(
        self,
        buffer: u64,
        requirements: MemoryRequirements,
        properties: &MemoryProperties,
        ext: ExtensionBits,
    ) -> (r: BackingStep)
        requires
            properties.wf(),
        ensures
            match r {
                BackingStep::Allocate { buffer: b, size, memory_type } => {
                    &&& b == buffer
                    &&& size == requirements.size
                    &&& properties.best(memory_type as int, self.wish(requirements), ext)
                },
                _ => {
                    &&& r == self.without_memory(buffer)
                    &&& forall|i: int|
                        !#[trigger] properties.eligible(i, self.wish(requirements), ext)
                },
            },
            r.held() == (Some(buffer), None::<u64>),
    {
        let wish = MemoryWish {
            bits: requirements.memory_type_bits,
            required: self.required,
            preferred: self.preferred,
            avoided: self.avoided,
            minimum_heap_size: requirements.size,
        };
        match properties.find_memory_type(wish, ext) {
            Some(memory_type) => BackingStep::Allocate {
                buffer,
                size: requirements.size,
                memory_type,
            },
            None => BackingStep::Failed {
                left_buffer: Some(buffer),
                left_memory: None,
                failure: Failure::Reported(Error::Unsupported),
            },
        }
    }

    /// The memory was allocated, or the allocation failed.
    pub fn on_memory(self, buffer: u64, result: Result<u64, i32>) -> (r: BackingStep)
        ensures
            r == self.after_memory(buffer, result),
            r.held() == (match result {
                Ok(memory) => (Some(buffer), Some(memory)),
                Err(_) => (Some(buffer), None::<u64>),
            }),
    {
        match result {
            Ok(memory) => BackingStep::Bind { buffer, memory },
            Err(code) => BackingStep::Failed {
                left_buffer: Some(buffer),
                left_memory: None,
                failure: Failure::from_code(code),
            },
        }
    }

    /// The memory was bound, or the binding failed. Host-visible memory is mapped next.
    pub fn on_bound(self, buffer: u64, memory: u64, result: Result<(), i32>) -> (r: BackingStep)
        ensures
            r == self.after_bound(buffer, memory, result),
            r.held() == (Some(buffer), Some(memory)),
    {
        match result {
            Ok(_) => if self.required & MEMORY_HOST_VISIBLE == MEMORY_HOST_VISIBLE {
                BackingStep::MapMemory { buffer, memory }
            } else {
                BackingStep::Address { buffer, memory, mapped: None }
            },
            Err(code) => BackingStep::Failed {
                left_buffer: Some(buffer),
                left_memory: Some(memory),
                failure: Failure::from_code(code),
            },
        }
    }

    /// The memory was mapped at a host address, or the mapping failed. The null address counts as
    /// no mapping.
    pub fn on_mapped(self, buffer: u64, memory: u64, result: Result<u64, i32>) -> (r: BackingStep)
        ensures
            r == self.after_mapped(buffer, memory, result),
            r.held() == (Some(buffer), Some(memory)),
    {
        match result {
            Ok(host) => {
                let mapped: Option<u64> = if host == 0 {
                    None
                } else {
                    Some(host)
                };
                BackingStep::Address { buffer, memory, mapped }
            },
            Err(code) => BackingStep::Failed {
                left_buffer: Some(buffer),
                left_memory: Some(memory),
                failure: Failure::from_code(code),
            },
        }
    }

    /// The GPU address is known: the buffer is complete.
    pub fn on_address(
        self,
        buffer: u64,
        memory: u64,
        mapped: Option<u64>,
        address: u64,
    ) -> (r: BackingStep)
        ensures
            r == BackingStep::Done(BackingBuffer { buffer, memory, mapped, address }),
            r.held() == (Some(buffer), Some(memory)),
    {
        BackingStep::Done(BackingBuffer { buffer, memory, mapped, address })
    }
}

/// A backing buffer comes whole or not at all. It is there if every step succeeds, with the
/// buffer and the memory that were made and a mapping where the host was to see the memory. Else
/// all that was made until then is left over for release, and nothing else.
pub proof fn backing_buffers_come_whole_or_not(request: BackingRequest, answers: BackingAnswers)
    ensures
        ({
            let mapping = has_all_u32(request.required, MEMORY_HOST_VISIBLE);
            let allocated = answers.buffer is Ok && answers.memory_type is Some
                && answers.memory is Ok;
            let complete = allocated && answers.bound is Ok && (mapping ==> answers.mapped is Ok);
            match request.outcome(answers) {
                BackingStep::Done(backing) => {
                    &&& complete
                    &&& backing.buffer == answers.buffer->Ok_0
                    &&& backing.memory == answers.memory->Ok_0
                    &&& backing.address == answers.address
                    &&& backing.mapped == (if mapping && answers.mapped->Ok_0 != 0 {
                        Some(answers.mapped->Ok_0)
                    } else {
                        None
                    })
                },
                BackingStep::Failed { left_buffer, left_memory, .. } => {
                    &&& !complete
                    &&& left_buffer == (if answers.buffer is Ok {
                        Some(answers.buffer->Ok_0)
                    } else {
                        None
                    })
                    &&& left_memory == (if allocated {
                        Some(answers.memory->Ok_0)
                    } else {
                        None
                    })
                },
                _ => false,
            }
        }),
{
}

/// Memory for GPU use: a range of a buffer, visible to the host where the buffer is mapped.
#[derive(Debug)]
pub struct GpuHeap {
    pub range: GpuRange,
    pub backing: BackingBuffer,
    /// Distance of the range from the start of the mapping.
    pub mapped_offset: usize,
}

impl HeapPlan {
    /// The planned range can be placed in a buffer at that address: its own address fits, and so
    /// does its distance from the start of the buffer.
    pub open spec fn placeable(self, address: u64) -> bool {
        let start = aligned_up(address as int, self.alignment as int);
        &&& self.alignment != 0
        &&& start <= u64::MAX
        &&& start - address <= usize::MAX
    }

    /// Whether the planned range can be placed in a buffer at that address.
    pub fn can_place(self, address: u64) -> (r: bool)
        ensures
            r == self.placeable(address),
    {
        if self.alignment == 0 {
            return false;
        }
        proof {
            aligned_up_bounds(address as int, self.alignment as int);
        }
        let start = wide_align_up(address, self.alignment);
        start <= u64::MAX as u128 && start - address as u128 <= usize::MAX as u128
    }
}

impl GpuHeap {
    /// The range starts in the buffer at the distance that the heap records.
    pub open spec fn wf(&self) -> bool {
        self.range.gpu == self.backing.address + self.mapped_offset
    }

    /// The heap is the planned range, placed in the buffer at the first aligned address.
    pub open spec fn is_placed(&self, plan: HeapPlan, backing: BackingBuffer) -> bool {
        &&& self.wf()
        &&& self.range.gpu == aligned_up(backing.address as int, plan.alignment as int)
        &&& self.range.size == plan.byte_count
        &&& self.backing == backing
    }

    /// The bytes of the mapping that belong to the heap.
    pub open spec fn window(&self) -> (int, int) {
        (self.mapped_offset as int, self.mapped_offset + self.range.size)
    }

    /// Places the planned range in a finished buffer.
    pub fn new(plan: HeapPlan, backing: BackingBuffer) -> (r: GpuHeap)
        requires
            plan.placeable(backing.address),
        ensures
            r.is_placed(plan, backing),
    {
        let gpu = align_up(backing.address, plan.alignment);
        proof {
            aligned_up_bounds(backing.address as int, plan.alignment as int);
        }
        let mapped_offset = (gpu - backing.address) as usize;
        GpuHeap { range: GpuRange { gpu, size: plan.byte_count }, backing, mapped_offset }
    }

    /// The usable GPU address range, without alignment padding and reserved bytes.
    pub fn range(&self) -> (r: GpuRange)
        ensures
            r == self.range,
    {
        self.range
    }

    /// The usable bytes, out of the whole mapping; nothing where the heap is not mapped. Each item
    /// of the mapping stands for one byte.
    pub fn mapped_bytes<'a, T>(&self, mapping: &'a mut [T]) -> (r: Option<&'a mut [T]>)
        requires
            self.backing.mapped is Some ==> self.window().1 <= old(mapping)@.len(),
        ensures
            r is Some <==> self.backing.mapped is Some,
            match r {
                Some(bytes) => {
                    let (start, end) = self.window();
                    &&& bytes@ == old(mapping)@.subrange(start, end)
                    &&& bytes@.len() == self.range.size
                    &&& final(mapping)@ == old(mapping)@.subrange(0, start) + final(bytes)@ + old(
                        mapping,
                    )@.subrange(end, old(mapping)@.len() as int)
                },
                None => final(mapping)@ == old(mapping)@,
            },
    {
        if self.backing.mapped.is_none() {
            return None;
        }
        let (_, tail) = mapping.split_at_mut(self.mapped_offset);
        let (bytes, _) = tail.split_at_mut(self.range.size as usize);
        Some(bytes)
    }
}

impl vstd::std_specs::convert::FromSpecImpl<&GpuHeap> for GpuRange {
    open spec fn obeys_from_spec() -> bool {
        true
    }

    open spec fn from_spec(heap: &GpuHeap) -> GpuRange {
        heap.range
    }
}

impl From<&GpuHeap> for GpuRange {
    fn from(heap: &GpuHeap) -> (r: GpuRange) {
        heap.range
    }
}

/// Memory to allocate for textures.
#[derive(Clone, Copy, Debug, PartialEq, Eq, Structural)]
pub struct TextureHeapRequest {
    pub size: u64,
    pub memory_type: u32,
}

/// Memory that textures are placed in.
#[derive(Debug)]
pub struct TextureHeap {
    pub size: u64,
    pub memory: u64,
}

impl TextureHeap {
    /// The number of bytes of the heap.
    pub fn size(&self) -> (r: u64)
        ensures
            r == self.size,
    {
        self.size
    }
}

/// How a descriptor heap is bound: its whole range, and the reserved range in it.
#[derive(Clone, Copy, Debug, PartialEq, Eq, Structural)]
pub struct HeapBinding {
    pub address: u64,
    pub size: u64,
    pub reserved_offset: u64,
    pub reserved_size: u64,
}

/// The binding of the descriptor heap with the usable range `heap`: the reserved range follows the
/// usable bytes, aligned.
pub open spec fn heap_binding(heap: GpuRange, layout: DescriptorLayout) -> HeapBinding {
    let offset = aligned_up(heap.size as int, layout.reserved_alignment as int);
    HeapBinding {
        address: heap.gpu,
        size: (offset + layout.reserved_size) as u64,
        reserved_offset: offset as u64,
        reserved_size: layout.reserved_size,
    }
}

/// The binding of a descriptor heap can be computed: its layout is sound and the sum fits.
pub open spec fn heap_bindable(heap: GpuRange, layout: DescriptorLayout) -> bool {
    &&& layout.reserved_alignment != 0
    &&& aligned_up(heap.size as int, layout.reserved_alignment as int) + layout.reserved_size
        <= u64::MAX
}

impl DescriptorLayout {
    /// Whether the binding of the descriptor heap can be computed.
    pub fn can_bind(self, heap: GpuRange) -> (r: bool)
        ensures
            r == heap_bindable(heap, self),
    {
        self.reserved_alignment != 0 && wide_align_up(heap.size, self.reserved_alignment)
            + self.reserved_size as u128 <= u64::MAX as u128
    }
}

/// The binding of the descriptor heap with the usable range `heap`.
pub fn make_heap_bind_info(heap: GpuRange, layout: DescriptorLayout) -> (r: HeapBinding)
    requires
        heap_bindable(heap, layout),
    ensures
        r == heap_binding(heap, layout),
{
    let offset = align_up(heap.size, layout.reserved_alignment);
    HeapBinding {
        address: heap.gpu,
        size: offset + layout.reserved_size,
        reserved_offset: offset,
        reserved_size: layout.reserved_size,
    }
}

/// A descriptor heap that was planned, created at any address and bound lies in its buffer: the
/// usable bytes come first, aligned as asked, and the reserved range behind them, within the
/// buffer and apart from the usable bytes.
pub proof fn descriptor_heap_layout(
    byte_count: u64,
    memory: MemoryType,
    properties: HeapProperties,
    ext: ExtensionBits,
    heap: GpuHeap,
)
    requires
        properties.spec_layout(memory) is Some,
        heap_plannable(byte_count, memory, properties),
        heap.range.size == byte_count,
        heap.range.gpu == aligned_up(
            heap.backing.address as int,
            heap_plan(byte_count, memory, properties, ext).alignment as int,
        ),
    ensures
        ({
            let plan = heap_plan(byte_count, memory, properties, ext);
            let layout = properties.spec_layout(memory)->0;
            let bound = heap_binding(heap.range, layout);
            &&& heap_bindable(heap.range, layout)
            &&& bound.address >= heap.backing.address
            &&& bound.address as int % plan.alignment as int == 0
            &&& plan.alignment >= layout.heap_alignment
            &&& bound.address + bound.size <= heap.backing.address + plan.backing.size
            &&& heap.range.size <= bound.reserved_offset
            &&& bound.reserved_offset + bound.reserved_size == bound.size
            &&& bound.reserved_offset as int % layout.reserved_alignment as int == 0
        }),
{
    let plan = heap_plan(byte_count, memory, properties, ext);
    let layout = properties.spec_layout(memory)->0;
    aligned_up_bounds(heap.backing.address as int, plan.alignment as int);
    aligned_up_bounds(byte_count as int, layout.reserved_alignment as int);
}

/// A heap of another kind is its buffer, byte for byte.
pub proof fn plain_heap_layout(
    byte_count: u64,
    memory: MemoryType,
    properties: HeapProperties,
    ext: ExtensionBits,
    address: u64,
)
    requires
        properties.spec_layout(memory) is None,
    ensures
        ({
            let plan = heap_plan(byte_count, memory, properties, ext);
            &&& plan.backing.size == byte_count
            &&& aligned_up(address as int, plan.alignment as int) == address
        }),
{
    assert(address as int % 1 == 0);
    crate::memory::aligned_up_of_multiple(address as int, 1);
}

/// The usable bytes of a heap that was planned and placed lie within its buffer, so within the
/// mapping of the buffer.
pub proof fn usable_bytes_are_in_buffer(
    byte_count: u64,
    memory: MemoryType,
    properties: HeapProperties,
    ext: ExtensionBits,
    heap: GpuHeap,
)
    requires
        heap_plannable(byte_count, memory, properties),
        heap.wf(),
        heap.range.size == byte_count,
        heap.range.gpu == aligned_up(
            heap.backing.address as int,
            heap_plan(byte_count, memory, properties, ext).alignment as int,
        ),
    ensures
        0 <= heap.window().0 <= heap.window().1 <= heap_plan(
            byte_count,
            memory,
            properties,
            ext,
        ).backing.size,
{
    if properties.spec_layout(memory) is Some {
        descriptor_heap_layout(byte_count, memory, properties, ext, heap);
    } else {
        plain_heap_layout(byte_count, memory, properties, ext, heap.backing.address);
    }
}

/// A planned heap can be placed in every buffer of the planned size that ends within the address
/// spaces of the GPU and the host.
pub proof fn planned_heaps_are_placeable(
    byte_count: u64,
    memory: MemoryType,
    properties: HeapProperties,
    ext: ExtensionBits,
    address: u64,
)
    requires
        heap_plannable(byte_count, memory, properties),
        address + heap_plan(byte_count, memory, properties, ext).backing.size <= u64::MAX,
        heap_plan(byte_count, memory, properties, ext).backing.size <= usize::MAX,
    ensures
        heap_plan(byte_count, memory, properties, ext).placeable(address),
{
    let plan = heap_plan(byte_count, memory, properties, ext);
    aligned_up_bounds(address as int, plan.alignment as int);
    if let Some(layout) = properties.spec_layout(memory) {
        aligned_up_bounds(byte_count as int, layout.reserved_alignment as int);
    }
}

/// The range of a heap that was planned and placed has exactly the requested size, whatever kind
/// of memory it is: padding and reserved bytes are no part of it. It is what the heap converts to,
/// and the usable bytes of a mapping of the buffer are as many, from the start of the range on.
pub proof fn heap_range_is_as_requested<T>(
    byte_count: u64,
    memory: MemoryType,
    properties: HeapProperties,
    ext: ExtensionBits,
    backing: BackingBuffer,
    heap: GpuHeap,
    mapping: Seq<T>,
)
    requires
        heap_plannable(byte_count, memory, properties),
        heap.is_placed(heap_plan(byte_count, memory, properties, ext), backing),
        heap_plan(byte_count, memory, properties, ext).backing.size <= mapping.len(),
    ensures
        heap.range.size == byte_count,
        <GpuRange as vstd::std_specs::convert::FromSpec<&GpuHeap>>::from_spec(&heap) == heap.range,
        0 <= heap.window().0 <= heap.window().1 <= mapping.len(),
        mapping.subrange(heap.window().0, heap.window().1).len() == byte_count,
        heap.range.gpu == backing.address + heap.window().0,
{
    usable_bytes_are_in_buffer(byte_count, memory, properties, ext, heap);
}

/// Whether the usable bytes of a heap come mapped follows from its kind: all but GPU-only heaps
/// ask for memory that the host sees.
pub proof fn mapped_kinds(
    byte_count: u64,
    memory: MemoryType,
    properties: HeapProperties,
    ext: ExtensionBits,
)
    ensures
        has_all_u32(
            heap_plan(byte_count, memory, properties, ext).backing.required,
            MEMORY_HOST_VISIBLE,
        ) <==> memory !is GpuOnly,
{
    assert((0x1u32 | 0x2u32 | 0x4u32) & 0x2u32 == 0x2u32) by (bit_vector);
    assert(0x1u32 & 0x2u32 != 0x2u32) by (bit_vector);
}

/// Memory that a buffer with the requirements can be given.
pub open spec fn servable(
    memory: &MemoryProperties,
    requirements: MemoryRequirements,
    required: u32,
    avoided: u32,
    ext: ExtensionBits,
) -> bool {
    exists|i: int| #[trigger]
        memory.eligible(
            i,
            MemoryWish {
                bits: requirements.memory_type_bits,
                required,
                preferred: 0,
                avoided,
                minimum_heap_size: requirements.size,
            },
            ext,
        )
}

fn can_serve(
    memory: &MemoryProperties,
    requirements: MemoryRequirements,
    required: u32,
    avoided: u32,
    ext: ExtensionBits,
) -> (r: bool)
    requires
        memory.wf(),
    ensures
        r == servable(memory, requirements, required, avoided, ext),
{
    let wish = MemoryWish {
        bits: requirements.memory_type_bits,
        required,
        preferred: 0,
        avoided,
        minimum_heap_size: requirements.size,
    };
    match memory.find_memory_type(wish, ext) {
        Some(index) => {
            assert(memory.eligible(index as int, wish, ext));
            true
        },
        None => false,
    }
}

/// Whether the device has memory for every kind of heap, given what ordinary buffers and
/// descriptor buffers ask for.
pub fn supports_gpu_heap_memory(
    memory: &MemoryProperties,
    ordinary: MemoryRequirements,
    descriptor: MemoryRequirements,
    ext: ExtensionBits,
) -> (r: bool)
    requires
        memory.wf(),
    ensures
        r <==> {
            &&& servable(memory, ordinary, CPU_VISIBLE_MEMORY_PROPERTIES, 0, ext)
            &&& servable(memory, ordinary, MEMORY_DEVICE_LOCAL, MEMORY_HOST_VISIBLE, ext)
            &&& servable(memory, descriptor, CPU_VISIBLE_MEMORY_PROPERTIES, 0, ext)
        },
{
    can_serve(memory, ordinary, CPU_VISIBLE_MEMORY_PROPERTIES, 0, ext) && can_serve(
        memory,
        ordinary,
        MEMORY_DEVICE_LOCAL,
        MEMORY_HOST_VISIBLE,
        ext,
    ) && can_serve(memory, descriptor, CPU_VISIBLE_MEMORY_PROPERTIES, 0, ext)
}

/// The larger of two numbers is one of them, and no smaller than either.
pub proof fn larger_is_one_of_both(a: u64, b: u64)
    ensures
        larger(a, b) >= a,
        larger(a, b) >= b,
        larger(a, b) == a || larger(a, b) == b,
{
}

/// The two kinds of descriptor heaps are laid out each by its own properties: that of textures
/// aligns what is reserved for images and for buffers, that of samplers for samplers. No other heap
/// has a layout.
pub proof fn descriptor_heaps_have_their_own_layout(properties: HeapProperties, memory: MemoryType)
    ensures
        ({
            let (textures, samplers) = (properties.texture_layout(), properties.sampler_layout());
            &&& textures.reserved_alignment >= properties.image_descriptor_alignment
            &&& textures.reserved_alignment >= properties.buffer_descriptor_alignment
            &&& textures.reserved_alignment == properties.image_descriptor_alignment
                || textures.reserved_alignment == properties.buffer_descriptor_alignment
            &&& textures.reserved_size == properties.min_resource_heap_reserved_range
            &&& textures.heap_alignment == properties.resource_heap_alignment
            &&& samplers.reserved_alignment == properties.sampler_descriptor_alignment
            &&& samplers.reserved_size == properties.min_sampler_heap_reserved_range
            &&& samplers.heap_alignment == properties.sampler_heap_alignment
            &&& properties.spec_layout(memory) is Some <==> memory is TextureDescriptorHeap
                || memory is SamplerDescriptorHeap
            &&& memory is TextureDescriptorHeap ==> properties.spec_layout(memory) == Some(textures)
            &&& memory is SamplerDescriptorHeap ==> properties.spec_layout(memory) == Some(samplers)
        }),
{
}

/// Each kind of heap gets its kind of memory: the host sees all but those for the GPU alone, which
/// avoid what the host sees, and those that are read back prefer what the host caches. Descriptor
/// heaps alone are used as such.
pub proof fn heaps_get_their_kind_of_memory(
    byte_count: u64,
    memory: MemoryType,
    properties: HeapProperties,
    ext: ExtensionBits,
)
    ensures
        ({
            let asked = heap_plan(byte_count, memory, properties, ext).backing;
            let descriptors = memory is TextureDescriptorHeap || memory is SamplerDescriptorHeap;
            &&& memory is GpuOnly <==> asked.required == MEMORY_DEVICE_LOCAL
            &&& memory is GpuOnly <==> asked.avoided == MEMORY_HOST_VISIBLE
            &&& !(memory is GpuOnly) ==> asked.required == CPU_VISIBLE_MEMORY_PROPERTIES
                && asked.avoided == 0
            &&& memory is Readback ==> asked.preferred == MEMORY_HOST_CACHED
            &&& !(memory is Readback) ==> asked.preferred == 0
            &&& !descriptors ==> asked.usage == UNIVERSAL_BUFFER_USAGE && asked.size == byte_count
            &&& descriptors ==> asked.usage == UNIVERSAL_BUFFER_USAGE | ext.descriptor_heap_buffer
        }),
{
    assert((0x1u32 | 0x2u32 | 0x4u32) != 0x1u32) by (bit_vector);
}

/// The buffer behind a descriptor heap has room for the usable bytes, the reserved ones, and the
/// alignment of both, and for nothing more.
pub proof fn descriptor_buffers_are_no_larger_than_needed(
    byte_count: u64,
    layout: DescriptorLayout,
)
    requires
        layout.reserved_alignment > 0,
    ensures
        ({
            let size = descriptor_buffer_size(byte_count, layout);
            let alignment = larger(layout.heap_alignment, GPU_ALLOCATION_ALIGNMENT);
            let needed = byte_count + layout.reserved_size + alignment - 1;
            &&& needed <= size < needed + layout.reserved_alignment
            &&& (size - layout.reserved_size - alignment + 1) % layout.reserved_alignment as int == 0
        }),
{
    aligned_up_bounds(byte_count as int, layout.reserved_alignment as int);
}

/// A descriptor heap is bound from its first usable byte on. The reserved range begins less than one
/// alignment behind the usable bytes and ends the binding.
pub proof fn bindings_cover_heap_and_reserve(heap: GpuRange, layout: DescriptorLayout)
    requires
        heap_bindable(heap, layout),
    ensures
        ({
            let bound = heap_binding(heap, layout);
            &&& bound.address == heap.gpu
            &&& heap.size <= bound.reserved_offset < heap.size + layout.reserved_alignment
            &&& bound.reserved_offset % layout.reserved_alignment == 0
            &&& bound.reserved_size == layout.reserved_size
            &&& bound.size == bound.reserved_offset + bound.reserved_size
        }),
{
    aligned_up_bounds(heap.size as int, layout.reserved_alignment as int);
}

/// A backing buffer looks for memory that suits the buffer, is as large as the buffer asks, and has
/// what the request says.
pub proof fn wishes_combine_buffer_and_request(
    request: BackingRequest,
    requirements: MemoryRequirements,
)
    ensures
        ({
            let wish = request.wish(requirements);
            &&& wish.bits == requirements.memory_type_bits
            &&& wish.minimum_heap_size == requirements.size
            &&& wish.required == request.required
            &&& wish.preferred == request.preferred
            &&& wish.avoided == request.avoided
        }),
{
}

} // verus!
