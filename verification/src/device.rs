//! The device: what it owns, and the operations on it.

use crate::allocation::{released, Allocation, Allocations};
use crate::commands::{
    CommandBuffer, SemaphoreRequest, Submission, Timeline, TimelinePoint, TimelineSemaphore, TimelineState,
};
use crate::effect::Effect;
use crate::enums::{MemoryType, TextureDescriptorType};
use crate::error::{failure_of, Failure};
use crate::flags::TextureUsage;
use crate::format::{aspects_of, image_aspects, Format, FORMAT_COUNT};
use crate::heap::{
    heap_plan, heap_plannable, plan_gpu_heap, BackingBuffer, GpuHeap, HeapPlan, HeapProperties,
    TextureHeap, TextureHeapRequest,
};
use crate::memory::{MemoryProperties, MemoryRequirements};
use crate::pipeline::{
    make_sampler_info, on_compute_pipeline, on_graphics_pipeline, pipeline_result, sampler_info,
    PipelineFailure, SamplerInfo, PSO,
};
use crate::present::{waits_on, PresentContext, PresentPart, Presentation, Window};
use crate::record::{Command, ImageBarrier};
use crate::startup::{Candidate, DeviceCaps, DeviceDesc};
use crate::state::{Float, SamplerDesc};
use crate::swapchain::{SurfaceCapabilities, Swapchain, SwapchainState};
use crate::texture::{
    image_info_of, is_usage, make_render_view, make_texture_descriptor, render_view_of,
    supports_texture_format, texture_descriptor, texture_format_supported, view_formats_of,
    Compression, ImageBinding, PreparedTexture, RenderView, RenderViewDesc, SizeAlign, Texture, TextureDesc,
    TextureDescriptor, TextureDescriptorDesc, TextureInitialization,
};
use crate::vulkan::{ExtensionBits, BIND_POINT_COMPUTE, BIND_POINT_GRAPHICS};
use std::sync::Arc;
use vstd::prelude::*;

verus! {

/// What is known of the physical device when the device is made.
#[derive(Debug)]
pub struct DeviceParts {
    pub device_name: String,
    pub memory: MemoryProperties,
    pub heap_properties: HeapProperties,
    pub max_timeline_difference: u64,
    /// The alignment that suits all textures.
    pub texture_heap_alignment: u64,
    pub texture_memory_type: u32,
    /// The features of each format.
    pub format_features: Vec<u64>,
    pub timestamp_period_ns: Float,
    pub sub_texel_precision_bits: u32,
    pub ext: ExtensionBits,
}

/// A device. Dropping it does not release what it owns: it is shut down first.
#[derive(Debug)]
pub struct Device {
    pub allocations: Allocations,
    pub timeline: Timeline,
    pub presentation: Presentation,
    pub swapchain: Option<Swapchain>,
    /// Textures that were created and not used yet.
    pub pending_textures: Vec<TextureInitialization>,
    pub memory: MemoryProperties,
    pub heap_properties: HeapProperties,
    pub texture_memory_type: u32,
    pub format_features: Vec<u64>,
    pub compression: Compression,
    pub caps: DeviceCaps,
    pub timestamp_query_count: u32,
    pub ext: ExtensionBits,
}

/// A recording that was begun, and what it starts with: the queries are reset, the textures that
/// were not used yet are made usable, and so is the acquired image.
#[derive(Debug)]
pub struct BegunCommands {
    pub commands: CommandBuffer,
    pub reset: Option<Command<'static>>,
    pub initializations: Vec<Vec<ImageBarrier>>,
    pub transition: Option<ImageBarrier>,
}

/// How the creation of an image for a texture went.
#[derive(Clone, Copy, Debug, PartialEq, Eq, Structural)]
pub enum ImageCreation {
    /// The image was created and bound to memory.
    Bound { image: u64 },
    /// The image was created, and binding it failed with a code.
    Unbound { image: u64, code: i32 },
    /// The creation failed with a code.
    Failed { code: i32 },
}

/// A texture that could not be created.
#[derive(Clone, Copy, Debug, PartialEq, Eq, Structural)]
pub struct TextureFailure {
    /// An image that is left over and must be destroyed.
    pub left_image: Option<u64>,
    pub failure: Failure,
}

/// A submission that ends in a present.
#[derive(Debug)]
pub struct PresentSubmission {
    /// The command buffer that makes the image presentable, before it is ended.
    pub last_commands: u64,
    pub barrier: ImageBarrier,
    /// The fence to reset, which the present sets.
    pub fence: u64,
    pub submission: Submission,
    pub swapchain: u64,
    pub image_index: u32,
    /// The semaphore that the present waits for.
    pub rendered: u64,
}

/// How a present went.
#[derive(Clone, Copy, Debug, PartialEq, Eq, Structural)]
pub enum Presented {
    /// The image was shown.
    Optimal,
    /// The image was shown, and the surface now looks so.
    Suboptimal(SurfaceCapabilities),
    /// The surface has changed too much.
    OutOfDate,
}

impl Device {
    /// The presents together with the timeline.
    pub open spec fn window(&self) -> Window {
        self.presentation.window(&self.timeline)
    }

    /// What holds between operations.
    pub open spec fn wf(&self) -> bool {
        &&& self.window().wf()
        &&& self.memory.wf()
        &&& self.format_features@.len() == FORMAT_COUNT
        &&& self.compression.bc == self.caps.texture_compression_bc
        &&& self.compression.astc == self.caps.texture_compression_astc
        &&& self.presentation.next < self.presentation.contexts@.len()
            || self.presentation.contexts@.len() == 0
        &&& self.swapchain matches Some(swapchain) ==> {
            &&& swapchain@.wf()
            &&& swapchain@.fits(self.window())
            &&& self.presentation.contexts@.len() > 0
        }
    }

    /// An image of the swapchain is acquired.
    pub open spec fn has_frame(&self) -> bool {
        self.swapchain matches Some(swapchain) && swapchain@.acquired
    }

    /// Nothing is being recorded or drawn.
    pub open spec fn is_quiet(&self) -> bool {
        &&& self.timeline@.active == 0
        &&& !self.has_frame()
    }

    /// Only the ledger differs.
    pub open spec fn same_but_ledger(&self, other: &Device) -> bool {
        *self == (Device { allocations: self.allocations, ..*other })
    }

    /// Assembles a device. Command contexts, present contexts and the swapchain come later.
    pub fn new(desc: &DeviceDesc, candidate: &Candidate, parts: DeviceParts) -> (r: Self)
        requires
            desc.wf(),
            parts.memory.wf(),
            parts.format_features@.len() == FORMAT_COUNT,
            parts.max_timeline_difference >= 1,
        ensures
            r.wf(),
            r.is_quiet(),
            r.allocations@.len() == 0,
            r.timeline@ == (TimelineState {
                contexts: Seq::empty(),
                deferred: Seq::empty(),
                retirement: 0,
                submitted: 0,
                completed: 0,
                max_difference: parts.max_timeline_difference,
                active: 0,
            }),
            r.presentation.contexts@.len() == desc.context_count(),
            forall|i: int|
                0 <= i < r.presentation.contexts@.len() ==> (
                #[trigger] r.presentation.contexts@[i]) == PresentContext::empty(),
            r.presentation.retired@.len() == 0,
            r.presentation.next == 0,
            r.swapchain is Some <==> desc.windowed,
            r.swapchain matches Some(swapchain) ==> swapchain@ == SwapchainState::unmade(
                desc.swapchain_format,
            ),
            r.pending_textures@.len() == 0,
            r.memory == parts.memory,
            r.heap_properties == parts.heap_properties,
            r.texture_memory_type == parts.texture_memory_type,
            r.format_features == parts.format_features,
            r.compression == (Compression {
                bc: candidate.texture_compression_bc,
                astc: candidate.texture_compression_astc,
                etc2: candidate.texture_compression_etc2,
            }),
            r.caps == (DeviceCaps {
                device_name: parts.device_name,
                max_push_data_size: parts.heap_properties.max_push_data_size,
                texture_heap_alignment: parts.texture_heap_alignment,
                texture_descriptor_size: parts.heap_properties.image_descriptor_size,
                sampler_descriptor_size: parts.heap_properties.sampler_descriptor_size,
                timestamp_period_ns: parts.timestamp_period_ns,
                sub_texel_precision_bits: parts.sub_texel_precision_bits,
                texture_compression_bc: candidate.texture_compression_bc,
                texture_compression_astc: candidate.texture_compression_astc,
                storage_input_output16: candidate.storage_input_output16,
            }),
            r.timestamp_query_count == desc.timestamp_query_count,
            r.ext == parts.ext,
    {
        let count = if desc.windowed {
            desc.desired_swapchain_image_count as usize
        } else {
            0
        };
        let swapchain = if desc.windowed {
            Some(Swapchain::new(desc.swapchain_format))
        } else {
            None
        };
        Device {
            allocations: Allocations::new(),
            timeline: Timeline::new(parts.max_timeline_difference),
            presentation: Presentation::new(count),
            swapchain,
            pending_textures: Vec::new(),
            memory: parts.memory,
            heap_properties: parts.heap_properties,
            texture_memory_type: parts.texture_memory_type,
            format_features: parts.format_features,
            compression: Compression {
                bc: candidate.texture_compression_bc,
                astc: candidate.texture_compression_astc,
                etc2: candidate.texture_compression_etc2,
            },
            caps: DeviceCaps {
                device_name: parts.device_name,
                max_push_data_size: parts.heap_properties.max_push_data_size,
                texture_heap_alignment: parts.texture_heap_alignment,
                texture_descriptor_size: parts.heap_properties.image_descriptor_size,
                sampler_descriptor_size: parts.heap_properties.sampler_descriptor_size,
                timestamp_period_ns: parts.timestamp_period_ns,
                sub_texel_precision_bits: parts.sub_texel_precision_bits,
                texture_compression_bc: candidate.texture_compression_bc,
                texture_compression_astc: candidate.texture_compression_astc,
                storage_input_output16: candidate.storage_input_output16,
            },
            timestamp_query_count: desc.timestamp_query_count,
            ext: parts.ext,
        }
    }

    /// What the device can do.
    pub fn get_device_caps(&self) -> (r: &DeviceCaps)
        ensures
            *r == self.caps,
    {
        &self.caps
    }

    /// Whether textures of the format can be used so.
    pub fn supports_texture_format(&self, format: Format, usage: TextureUsage) -> (r: bool)
        requires
            self.wf(),
            !(format is Undefined),
            is_usage(usage),
        ensures
            r == texture_format_supported(
                format,
                usage,
                self.format_features@,
                self.compression,
            ),
    {
        supports_texture_format(format, usage, &self.format_features, self.compression)
    }

    /// The timeline semaphore on which command buffers retire: nothing has retired at first.
    pub fn plan_command_retirement(&self) -> (r: SemaphoreRequest)
        ensures
            r == (SemaphoreRequest { initial_value: 0 }),
    {
        SemaphoreRequest { initial_value: 0 }
    }

    /// Takes the timeline semaphore on which command buffers retire.
    pub fn create_command_retirement(&mut self, result: Result<u64, i32>) -> (r: Result<
        (),
        Failure,
    >)
        requires
            old(self).wf(),
        ensures
            final(self).wf(),
            match result {
                Ok(semaphore) => {
                    &&& r is Ok
                    &&& final(self).timeline@ == (TimelineState {
                        retirement: semaphore,
                        ..old(self).timeline@
                    })
                    &&& *final(self) == (Device { timeline: final(self).timeline, ..*old(self) })
                },
                Err(code) => r == Err::<(), Failure>(failure_of(code)) && *final(self)
                    == *old(self),
            },
    {
        match result {
            Ok(semaphore) => {
                let ghost before = self.window();
                self.timeline.retirement = semaphore;
                assert(self.window().wf()) by {
                    assert(before.wf());
                }
                Ok(())
            },
            Err(code) => Err(Failure::from_code(code)),
        }
    }

    /// Takes a command context that was created: the device owns its pools.
    pub fn own_command_context(&mut self, context: &CommandBuffer)
        ensures
            final(self).same_but_ledger(old(self)),
            final(self).allocations@ == old(self).allocations@.push(
                Allocation::Commands(context.command_pool, context.timestamp_pool),
            ),
    {
        self.allocations.record(
            Allocation::Commands(context.command_pool, context.timestamp_pool),
        );
    }

    /// Keeps a command context that was created for later recordings.
    pub fn grow_command_context_pool(&mut self, context: CommandBuffer)
        requires
            old(self).wf(),
            context.retire_value == 0,
            context.is_clean(),
        ensures
            final(self).wf(),
            final(self).allocations@ == old(self).allocations@.push(
                Allocation::Commands(context.command_pool, context.timestamp_pool),
            ),
            final(self).timeline@ == (TimelineState {
                contexts: old(self).timeline@.contexts.push(context),
                ..old(self).timeline@
            }),
            *final(self) == (Device {
                allocations: final(self).allocations,
                timeline: final(self).timeline,
                ..*old(self)
            }),
    {
        self.own_command_context(&context);
        self.timeline.grow_command_context_pool(context);
    }

    /// Takes a part of a present context.
    pub fn create_present_context(
        &mut self,
        index: usize,
        part: PresentPart,
        result: Result<u64, i32>,
    ) -> (r: Result<(), Failure>)
        requires
            old(self).wf(),
            index < old(self).presentation.contexts@.len(),
            !old(self).presentation.contexts@[index as int].present_pending,
        ensures
            final(self).wf(),
            *final(self) == (Device { presentation: final(self).presentation, ..*old(self) }),
            final(self).presentation.retired == old(self).presentation.retired,
            final(self).presentation.next == old(self).presentation.next,
            match result {
                Ok(handle) => {
                    let before = old(self).presentation.contexts@;
                    &&& r is Ok
                    &&& final(self).presentation.contexts@ == before.update(
                        index as int,
                        before[index as int].with_part(part, handle),
                    )
                },
                Err(code) => {
                    &&& r == Err::<(), Failure>(failure_of(code))
                    &&& final(self).presentation.contexts == old(self).presentation.contexts
                },
            },
    {
        let ghost before = self.window();
        let r = self.presentation.create_present_context(index, part, result);
        proof {
            let after = self.window();
            assert forall|handle: u64|
                waits_on(before.contexts, handle) implies waits_on(
                after.contexts,
                handle,
            ) by {
                let i = choose|i: int|
                    0 <= i < before.contexts.len() && (#[trigger] before.contexts[i]).present_pending
                        && before.contexts[i].swapchain == handle;
                assert(after.contexts[i].present_pending && after.contexts[i].swapchain == handle);
            }
            assert(after.wf());
        }
        r
    }

    /// The timeline semaphore to create for a caller: it starts with the value that is asked for.
    pub fn plan_timeline_semaphore(&self, initial_value: u64) -> (r: SemaphoreRequest)
        ensures
            r == (SemaphoreRequest { initial_value }),
    {
        SemaphoreRequest { initial_value }
    }

    /// Takes a timeline semaphore that was created, or the code with which the creation failed.
    pub fn create_timeline_semaphore(&mut self, result: Result<u64, i32>) -> (r: Result<
        Arc<TimelineSemaphore>,
        Failure,
    >)
        ensures
            final(self).same_but_ledger(old(self)),
            match result {
                Ok(semaphore) => {
                    &&& r matches Ok(owned) && owned.semaphore == semaphore
                    &&& final(self).allocations@ == old(self).allocations@.push(
                        Allocation::Semaphore(semaphore),
                    )
                },
                Err(code) => {
                    &&& r == Err::<Arc<TimelineSemaphore>, Failure>(failure_of(code))
                    &&& final(self).allocations == old(self).allocations
                },
            },
    {
        match result {
            Ok(semaphore) => {
                self.allocations.record(Allocation::Semaphore(semaphore));
                Ok(Arc::new(TimelineSemaphore { semaphore }))
            },
            Err(code) => Err(Failure::from_code(code)),
        }
    }

    fn release(&mut self, allocation: Allocation) -> (r: Vec<Effect>)
        requires
            old(self).allocations@.contains(allocation),
        ensures
            final(self).same_but_ledger(old(self)),
            final(self).allocations@ == released(old(self).allocations@, allocation),
            r@ == allocation.destruction(),
    {
        let mut effects: Vec<Effect> = Vec::new();
        self.allocations.release(allocation, &mut effects);
        assert(effects@ =~= allocation.destruction());
        effects
    }

    /// Destroys a timeline semaphore of the device.
    pub fn destroy_timeline_semaphore(&mut self, semaphore: TimelineSemaphore) -> (r: Vec<Effect>)
        requires
            old(self).allocations@.contains(Allocation::Semaphore(semaphore.semaphore)),
        ensures
            final(self).same_but_ledger(old(self)),
            final(self).allocations@ == released(
                old(self).allocations@,
                Allocation::Semaphore(semaphore.semaphore),
            ),
            r@ == Allocation::Semaphore(semaphore.semaphore).destruction(),
    {
        self.release(Allocation::Semaphore(semaphore.semaphore))
    }

    /// The wait for a value of a timeline semaphore.
    pub fn wait_timeline(&self, point: &TimelinePoint) -> (r: Effect)
        ensures
            r == (Effect::WaitSemaphore {
                semaphore: point.semaphore.semaphore,
                value: point.value,
            }),
    {
        Effect::WaitSemaphore { semaphore: point.semaphore.semaphore, value: point.value }
    }

    /// Takes the value of the retirement semaphore, where it can say something new. This follows
    /// every wait for a timeline semaphore.
    pub fn poll_command_retirement(&mut self, counter: Option<u64>) -> (r: Vec<Effect>)
        requires
            old(self).wf(),
            old(self).timeline@.is_reading(counter, true),
        ensures
            final(self).wf(),
            *final(self) == (Device { timeline: final(self).timeline, ..*old(self) }),
            final(self).timeline@ == old(self).timeline@.polled(counter),
            r@ == old(self).timeline@.polling(counter),
    {
        let ghost before = self.window();
        let mut effects: Vec<Effect> = Vec::new();
        self.timeline.poll_command_retirement(counter, &mut effects);
        proof {
            before.polled_timeline_is_wf(counter);
        }
        assert(effects@ =~= before.timeline.polling(counter));
        effects
    }

    /// Waits for everything that was submitted and for every present.
    pub fn wait_idle(&mut self) -> (r: Vec<Effect>)
        requires
            old(self).wf(),
            old(self).is_quiet(),
        ensures
            final(self).wf(),
            final(self).window() == old(self).window().drain(),
            final(self).presentation.next == 0,
            *final(self) == (Device {
                timeline: final(self).timeline,
                presentation: final(self).presentation,
                ..*old(self)
            }),
            r@ == old(self).window().draining(),
    {
        let ghost before = self.window();
        let mut effects: Vec<Effect> = Vec::new();
        proof {
            before.drain_empties();
        }
        self.presentation.drain_contexts(&mut self.timeline, &mut effects);
        self.presentation.next = 0;
        assert(self.window() =~= before.drain());
        assert(effects@ =~= before.draining());
        effects
    }

    /// Plans a GPU heap. Descriptor heap ranges include exactly the requested usable bytes;
    /// reserved storage comes behind them.
    pub fn create_gpu_heap(&self, byte_count: u64, memory: MemoryType) -> (r: HeapPlan)
        requires
            heap_plannable(byte_count, memory, self.heap_properties),
        ensures
            r == heap_plan(byte_count, memory, self.heap_properties, self.ext),
            r.byte_count == byte_count,
            r.alignment != 0,
    {
        plan_gpu_heap(byte_count, memory, self.heap_properties, self.ext)
    }

    /// Takes the buffer of a planned heap: the device owns it.
    pub fn own_gpu_heap(&mut self, plan: HeapPlan, backing: BackingBuffer) -> (r: GpuHeap)
        requires
            plan.placeable(backing.address),
        ensures
            final(self).same_but_ledger(old(self)),
            final(self).allocations@ == old(self).allocations@.push(
                Allocation::Buffer(backing.buffer, backing.memory, backing.mapped is Some),
            ),
            r.is_placed(plan, backing),
    {
        self.allocations.record(
            Allocation::Buffer(backing.buffer, backing.memory, backing.mapped.is_some()),
        );
        GpuHeap::new(plan, backing)
    }

    /// Destroys a GPU heap of the device.
    pub fn destroy_gpu_heap(&mut self, heap: GpuHeap) -> (r: Vec<Effect>)
        requires
            old(self).allocations@.contains(heap_allocation(&heap)),
        ensures
            final(self).same_but_ledger(old(self)),
            final(self).allocations@ == released(old(self).allocations@, heap_allocation(&heap)),
            r@ == heap_allocation(&heap).destruction(),
    {
        self.release(
            Allocation::Buffer(
                heap.backing.buffer,
                heap.backing.memory,
                heap.backing.mapped.is_some(),
            ),
        )
    }

    /// The memory to allocate for a texture heap: as many bytes as are asked for, of the type that
    /// suits all textures.
    pub fn plan_texture_heap(&self, byte_count: u64) -> (r: TextureHeapRequest)
        ensures
            r == (TextureHeapRequest { size: byte_count, memory_type: self.texture_memory_type }),
    {
        TextureHeapRequest { size: byte_count, memory_type: self.texture_memory_type }
    }

    /// Takes the memory of a texture heap, or the code with which the allocation failed.
    pub fn create_texture_heap(&mut self, byte_count: u64, result: Result<u64, i32>) -> (r: Result<
        TextureHeap,
        Failure,
    >)
        ensures
            final(self).same_but_ledger(old(self)),
            match result {
                Ok(memory) => {
                    &&& r == Ok::<TextureHeap, Failure>(TextureHeap { size: byte_count, memory })
                    &&& final(self).allocations@ == old(self).allocations@.push(
                        Allocation::Memory(memory),
                    )
                },
                Err(code) => {
                    &&& r == Err::<TextureHeap, Failure>(failure_of(code))
                    &&& final(self).allocations == old(self).allocations
                },
            },
    {
        match result {
            Ok(memory) => {
                self.allocations.record(Allocation::Memory(memory));
                Ok(TextureHeap { size: byte_count, memory })
            },
            Err(code) => Err(Failure::from_code(code)),
        }
    }

    /// Destroys a texture heap of the device.
    pub fn destroy_texture_heap(&mut self, heap: TextureHeap) -> (r: Vec<Effect>)
        requires
            old(self).allocations@.contains(Allocation::Memory(heap.memory)),
        ensures
            final(self).same_but_ledger(old(self)),
            final(self).allocations@ == released(
                old(self).allocations@,
                Allocation::Memory(heap.memory),
            ),
            r@ == Allocation::Memory(heap.memory).destruction(),
    {
        self.release(Allocation::Memory(heap.memory))
    }

    /// Prepares the image of a texture.
    pub fn prepare_texture(&self, desc: &TextureDesc) -> (r: PreparedTexture)
        requires
            self.wf(),
        ensures
            r.view_formats@ == view_formats_of(*desc, self.format_features@),
            r.image_info == image_info_of(*desc, self.format_features@),
    {
        PreparedTexture::new(desc, &self.format_features)
    }

    /// The size and alignment of a texture, by what its image asks of memory.
    pub fn get_texture_size_align(&self, requirements: &MemoryRequirements) -> (r: SizeAlign)
        ensures
            r == (SizeAlign { size: requirements.size, align: requirements.alignment }),
    {
        SizeAlign { size: requirements.size, align: requirements.alignment }
    }

    /// Where the image of a texture is bound: to the memory of the heap, at the offset.
    pub fn plan_texture_binding(&self, image: u64, heap: &TextureHeap, offset: u64) -> (r:
        ImageBinding)
        ensures
            r == (ImageBinding { image, memory: heap.memory, offset }),
    {
        ImageBinding { image, memory: heap.memory, offset }
    }

    /// Takes the image of a texture: the device owns it, and it is initialized by the next
    /// recording.
    pub fn create_texture(&mut self, desc: &TextureDesc, creation: ImageCreation) -> (r: Result<
        Texture,
        TextureFailure,
    >)
        requires
            old(self).wf(),
            old(self).timeline@.active == 0,
        ensures
            final(self).wf(),
            *final(self) == (Device {
                allocations: final(self).allocations,
                pending_textures: final(self).pending_textures,
                ..*old(self)
            }),
            match creation {
                ImageCreation::Bound { image } => {
                    &&& r == Ok::<Texture, TextureFailure>(texture_of(*desc, image))
                    &&& final(self).allocations@ == old(self).allocations@.push(
                        Allocation::Image(image),
                    )
                    &&& final(self).pending_textures@ == old(self).pending_textures@.push(
                        initialization_of(*desc, image),
                    )
                },
                ImageCreation::Unbound { image, code } => {
                    &&& r == Err::<Texture, TextureFailure>(
                        TextureFailure { left_image: Some(image), failure: failure_of(code) },
                    )
                    &&& *final(self) == *old(self)
                },
                ImageCreation::Failed { code } => {
                    &&& r == Err::<Texture, TextureFailure>(
                        TextureFailure { left_image: None, failure: failure_of(code) },
                    )
                    &&& *final(self) == *old(self)
                },
            },
    {
        match creation {
            ImageCreation::Bound { image } => {
                self.allocations.record(Allocation::Image(image));
                self.pending_textures.push(
                    TextureInitialization {
                        image,
                        aspect_mask: image_aspects(desc.format),
                        mip_levels: desc.mip_levels,
                        array_layers: desc.layer_count,
                    },
                );
                Ok(
                    Texture {
                        image,
                        width: desc.extent.x,
                        height: desc.extent.y,
                        depth: desc.extent.z,
                        layer_count: desc.layer_count,
                        texture_type: desc.texture_type,
                        format: desc.format,
                    },
                )
            },
            ImageCreation::Unbound { image, code } => Err(
                TextureFailure { left_image: Some(image), failure: Failure::from_code(code) },
            ),
            ImageCreation::Failed { code } => Err(
                TextureFailure { left_image: None, failure: Failure::from_code(code) },
            ),
        }
    }

    /// Destroys a texture of the device. It is not initialized any more.
    pub fn destroy_texture(&mut self, texture: Texture) -> (r: Vec<Effect>)
        requires
            old(self).wf(),
            old(self).allocations@.contains(Allocation::Image(texture.image)),
        ensures
            final(self).wf(),
            *final(self) == (Device {
                allocations: final(self).allocations,
                pending_textures: final(self).pending_textures,
                ..*old(self)
            }),
            final(self).allocations@ == released(
                old(self).allocations@,
                Allocation::Image(texture.image),
            ),
            final(self).pending_textures@ == without_image(
                old(self).pending_textures@,
                texture.image,
            ),
            r@ == Allocation::Image(texture.image).destruction(),
    {
        let ghost start = self.pending_textures@;
        let mut kept: Vec<TextureInitialization> = Vec::new();
        let mut i: usize = 0;
        assert(start.take(0) =~= Seq::empty());
        while i < self.pending_textures.len()
            invariant
                i <= self.pending_textures@.len(),
                *self == *old(self),
                start == self.pending_textures@,
                kept@ == without_image(start.take(i as int), texture.image),
            decreases self.pending_textures@.len() - i,
        {
            assert(start.take(i + 1).drop_last() =~= start.take(i as int));
            let pending = self.pending_textures[i];
            if pending.image != texture.image {
                kept.push(pending);
            }
            i += 1;
        }
        assert(start.take(i as int) =~= start);
        self.pending_textures = kept;
        self.release(Allocation::Image(texture.image))
    }

    /// Takes a view for rendering, or the code with which its creation failed.
    pub fn create_render_view(
        &mut self,
        texture: &Texture,
        desc: &RenderViewDesc,
        result: Result<u64, i32>,
    ) -> (r: Result<Arc<RenderView>, Failure>)
        requires
            desc.mip_level < 32,
        ensures
            final(self).same_but_ledger(old(self)),
            match result {
                Ok(view) => {
                    &&& r matches Ok(owned) && *owned == render_view_of(texture, *desc, view)
                    &&& final(self).allocations@ == old(self).allocations@.push(
                        Allocation::View(view),
                    )
                },
                Err(code) => {
                    &&& r == Err::<Arc<RenderView>, Failure>(failure_of(code))
                    &&& final(self).allocations == old(self).allocations
                },
            },
    {
        match result {
            Ok(view) => {
                self.allocations.record(Allocation::View(view));
                Ok(Arc::new(make_render_view(texture, desc, view)))
            },
            Err(code) => Err(Failure::from_code(code)),
        }
    }

    /// Destroys a render view of the device. Views of the swapchain are not destroyed so.
    pub fn destroy_render_view(&mut self, view: RenderView) -> (r: Vec<Effect>)
        requires
            !view.swapchain_view,
            old(self).allocations@.contains(Allocation::View(view.view)),
        ensures
            final(self).same_but_ledger(old(self)),
            final(self).allocations@ == released(
                old(self).allocations@,
                Allocation::View(view.view),
            ),
            r@ == Allocation::View(view.view).destruction(),
    {
        self.release(Allocation::View(view.view))
    }

    /// The descriptor of a texture, and how many bytes of the destination it takes. Each item of
    /// the destination stands for one byte.
    pub fn write_texture_descriptor<T>(
        &self,
        cpu_destination: &[T],
        texture: &Texture,
        descriptor_type: TextureDescriptorType,
        desc: &TextureDescriptorDesc,
    ) -> (r: (TextureDescriptor, u64))
        requires
            cpu_destination@.len() >= self.heap_properties.image_descriptor_size,
        ensures
            r.0 == texture_descriptor(texture, descriptor_type, *desc),
            r.1 == self.heap_properties.image_descriptor_size,
            r.1 <= cpu_destination@.len(),
    {
        (
            make_texture_descriptor(texture, descriptor_type, desc),
            self.heap_properties.image_descriptor_size,
        )
    }

    /// The sampler to describe, and how many bytes of the destination its descriptor takes. Each
    /// item of the destination stands for one byte.
    pub fn write_sampler_descriptor<T>(&self, cpu_destination: &[T], desc: &SamplerDesc) -> (r: (
        SamplerInfo,
        u64,
    ))
        requires
            cpu_destination@.len() >= self.heap_properties.sampler_descriptor_size,
        ensures
            r.0 == sampler_info(*desc),
            r.1 == self.heap_properties.sampler_descriptor_size,
            r.1 <= cpu_destination@.len(),
    {
        (make_sampler_info(desc), self.heap_properties.sampler_descriptor_size)
    }

    /// Takes a graphics pipeline: the device owns it.
    pub fn create_graphics_pso(&mut self, code: i32, pipeline: u64) -> (r: Result<
        PSO,
        PipelineFailure,
    >)
        ensures
            final(self).same_but_ledger(old(self)),
            r == pipeline_result(code, pipeline, BIND_POINT_GRAPHICS),
            final(self).allocations@ == (if r is Ok {
                old(self).allocations@.push(Allocation::Pipeline(pipeline))
            } else {
                old(self).allocations@
            }),
    {
        let r = on_graphics_pipeline(code, pipeline);
        if r.is_ok() {
            self.allocations.record(Allocation::Pipeline(pipeline));
        }
        r
    }

    /// Takes a mesh pipeline: the device owns it.
    pub fn create_mesh_pso(&mut self, code: i32, pipeline: u64) -> (r: Result<
        PSO,
        PipelineFailure,
    >)
        ensures
            final(self).same_but_ledger(old(self)),
            r == pipeline_result(code, pipeline, BIND_POINT_GRAPHICS),
            final(self).allocations@ == (if r is Ok {
                old(self).allocations@.push(Allocation::Pipeline(pipeline))
            } else {
                old(self).allocations@
            }),
    {
        self.create_graphics_pso(code, pipeline)
    }

    /// Takes a compute pipeline: the device owns it.
    pub fn create_compute_pso(&mut self, code: i32, pipeline: u64) -> (r: Result<
        PSO,
        PipelineFailure,
    >)
        ensures
            final(self).same_but_ledger(old(self)),
            r == pipeline_result(code, pipeline, BIND_POINT_COMPUTE),
            final(self).allocations@ == (if r is Ok {
                old(self).allocations@.push(Allocation::Pipeline(pipeline))
            } else {
                old(self).allocations@
            }),
    {
        let r = on_compute_pipeline(code, pipeline);
        if r.is_ok() {
            self.allocations.record(Allocation::Pipeline(pipeline));
        }
        r
    }

    /// Destroys a pipeline of the device.
    pub fn destroy_pso(&mut self, pso: PSO) -> (r: Vec<Effect>)
        requires
            old(self).allocations@.contains(Allocation::Pipeline(pso.pso)),
        ensures
            final(self).same_but_ledger(old(self)),
            final(self).allocations@ == released(
                old(self).allocations@,
                Allocation::Pipeline(pso.pso),
            ),
            r@ == Allocation::Pipeline(pso.pso).destruction(),
    {
        self.release(Allocation::Pipeline(pso.pso))
    }
}

/// The entry of a heap in the ledger.
pub open spec fn heap_allocation(heap: &GpuHeap) -> Allocation {
    Allocation::Buffer(heap.backing.buffer, heap.backing.memory, heap.backing.mapped is Some)
}

/// The texture that the image is.
pub open spec fn texture_of(desc: TextureDesc, image: u64) -> Texture {
    Texture {
        image,
        width: desc.extent.x,
        height: desc.extent.y,
        depth: desc.extent.z,
        layer_count: desc.layer_count,
        texture_type: desc.texture_type,
        format: desc.format,
    }
}

/// The initialization that the texture needs.
pub open spec fn initialization_of(desc: TextureDesc, image: u64) -> TextureInitialization {
    TextureInitialization {
        image,
        aspect_mask: aspects_of(desc.format),
        mip_levels: desc.mip_levels,
        array_layers: desc.layer_count,
    }
}

/// The initializations but those of the image, in order.
pub open spec fn without_image(
    textures: Seq<TextureInitialization>,
    image: u64,
) -> Seq<TextureInitialization>
    decreases textures.len(),
{
    if textures.len() == 0 {
        seq![]
    } else {
        let rest = without_image(textures.drop_last(), image);
        if textures.last().image == image {
            rest
        } else {
            rest.push(textures.last())
        }
    }
}

/// A destroyed texture is not initialized any more, and every other one still is.
pub proof fn destroyed_textures_stay_untouched(
    textures: Seq<TextureInitialization>,
    image: u64,
    texture: TextureInitialization,
)
    ensures
        without_image(textures, image).contains(texture) <==> textures.contains(texture)
            && texture.image != image,
    decreases textures.len(),
{
    if textures.len() > 0 {
        let rest = textures.drop_last();
        destroyed_textures_stay_untouched(rest, image, texture);
        let kept = without_image(rest, image);
        if textures.contains(texture) {
            let i = choose|i: int| 0 <= i < textures.len() && textures[i] == texture;
            if i < rest.len() {
                assert(rest[i] == texture);
            }
        }
        if rest.contains(texture) {
            let i = choose|i: int| 0 <= i < rest.len() && rest[i] == texture;
            assert(textures[i] == texture);
        }
        assert(textures[textures.len() - 1] == textures.last());
        if kept.contains(texture) {
            let i = choose|i: int| 0 <= i < kept.len() && kept[i] == texture;
            assert(kept.push(textures.last())[i] == texture);
        }
        assert(kept.push(textures.last())[kept.len() as int] == textures.last());
        if without_image(textures, image).contains(texture) && textures.last().image != image {
            let all = kept.push(textures.last());
            let i = choose|i: int| 0 <= i < all.len() && all[i] == texture;
            if i < kept.len() {
                assert(kept[i] == texture);
            }
        }
    }
}

/// A texture is as large as its description, and its initialization covers its image whole: every
/// mip level and layer that the image is created with, in every aspect of its format.
pub proof fn textures_are_as_described(desc: TextureDesc, image: u64, features: Seq<u64>)
    ensures
        ({
            let (made, info) = (texture_of(desc, image), image_info_of(desc, features));
            let first = initialization_of(desc, image);
            &&& made.image == image
            &&& made.width == desc.extent.x == info.width
            &&& made.height == desc.extent.y == info.height
            &&& made.depth == desc.extent.z == info.depth
            &&& made.layer_count == desc.layer_count == info.array_layers
            &&& made.format == desc.format
            &&& made.texture_type == desc.texture_type
            &&& first.image == image
            &&& first.mip_levels == desc.mip_levels == info.mip_levels
            &&& first.array_layers == desc.layer_count
            &&& first.aspect_mask == aspects_of(desc.format)
        }),
{
}

/// A heap is released with its own buffer and memory, which are unmapped first exactly if they are
/// mapped.
pub proof fn heaps_release_what_they_hold(heap: &GpuHeap)
    ensures
        heap_allocation(heap).destruction() =~= (if heap.backing.mapped is Some {
            seq![Effect::UnmapMemory(heap.backing.memory)]
        } else {
            seq![]
        }) + seq![
            Effect::DestroyBuffer(heap.backing.buffer),
            Effect::FreeMemory(heap.backing.memory),
        ],
{
}

/// What is planned for the driver is what was asked for: heaps for textures of that size in the
/// memory that suits all textures, images at that offset of that heap, and semaphores that start
/// with that value. Waits name the semaphore and the value of their point.
pub proof fn plans_are_as_asked(
    device: &Device,
    byte_count: u64,
    image: u64,
    heap: &TextureHeap,
    offset: u64,
    initial_value: u64,
    point: &TimelinePoint,
    allocated: TextureHeapRequest,
    bound: ImageBinding,
    semaphore: SemaphoreRequest,
    wait: Effect,
)
    requires
        call_ensures(Device::plan_texture_heap, (device, byte_count), allocated),
        call_ensures(Device::plan_texture_binding, (device, image, heap, offset), bound),
        call_ensures(Device::plan_timeline_semaphore, (device, initial_value), semaphore),
        call_ensures(Device::wait_timeline, (device, point), wait),
    ensures
        allocated.size == byte_count,
        allocated.memory_type == device.texture_memory_type,
        bound.image == image,
        bound.memory == heap.memory,
        bound.offset == offset,
        semaphore.initial_value == initial_value,
        wait matches Effect::WaitSemaphore { semaphore: waited, value } && waited
            == point.semaphore.semaphore && value == point.value,
{
}

/// A descriptor takes as many bytes of its destination as the device says, and describes the texture
/// or sampler that it is written for.
pub proof fn descriptors_are_written_for_their_subject<T>(
    device: &Device,
    destination: &[T],
    texture: &Texture,
    kind: TextureDescriptorType,
    desc: TextureDescriptorDesc,
    sampler: SamplerDesc,
    shown: (TextureDescriptor, u64),
    sampled: (SamplerInfo, u64),
)
    requires
        call_ensures(
            Device::write_texture_descriptor::<T>,
            (device, destination, texture, kind, &desc),
            shown,
        ),
        call_ensures(
            Device::write_sampler_descriptor::<T>,
            (device, destination, &sampler),
            sampled,
        ),
    ensures
        shown.0.view.image == texture.image,
        shown.0.view.base_layer == desc.base_layer,
        shown.0.view.base_mip == desc.base_mip,
        shown.1 == device.heap_properties.image_descriptor_size,
        sampled.0.compare_enable == sampler.compare_enabled,
        sampled.0.anisotropy_enable == sampler.anisotropic,
        sampled.1 == device.heap_properties.sampler_descriptor_size,
{
}

/// A texture asks for as much memory as its image, as aligned.
pub proof fn textures_ask_for_what_images_ask(
    device: &Device,
    requirements: &MemoryRequirements,
    r: SizeAlign,
)
    requires
        call_ensures(Device::get_texture_size_align, (device, requirements), r),
    ensures
        r.size == requirements.size,
        r.align == requirements.alignment,
{
}

/// A device is assembled of what the physical device and the description say: nothing is owned yet,
/// its limits are those of the parts, and what it reports it can do is what the candidate has.
pub proof fn new_devices_are_of_their_parts(
    desc: &DeviceDesc,
    candidate: &Candidate,
    parts: DeviceParts,
    r: Device,
)
    requires
        call_ensures(Device::new, (desc, candidate, parts), r),
    ensures
        r.allocations@.len() == 0,
        r.timeline@.max_difference == parts.max_timeline_difference,
        r.timeline@.submitted == r.timeline@.completed == 0,
        r.presentation.contexts@.len() == if desc.windowed {
            desc.desired_swapchain_image_count as int
        } else {
            0
        },
        r.swapchain is Some <==> desc.windowed,
        r.swapchain matches Some(swapchain) ==> swapchain.format == desc.swapchain_format
            && swapchain.handle == 0,
        r.texture_memory_type == parts.texture_memory_type,
        r.timestamp_query_count == desc.timestamp_query_count,
        r.compression.bc == candidate.texture_compression_bc,
        r.compression.astc == candidate.texture_compression_astc,
        r.compression.etc2 == candidate.texture_compression_etc2,
        r.caps.device_name == parts.device_name,
        r.caps.max_push_data_size == parts.heap_properties.max_push_data_size,
        r.caps.texture_heap_alignment == parts.texture_heap_alignment,
        r.caps.texture_descriptor_size == parts.heap_properties.image_descriptor_size,
        r.caps.sampler_descriptor_size == parts.heap_properties.sampler_descriptor_size,
        r.caps.timestamp_period_ns == parts.timestamp_period_ns,
        r.caps.sub_texel_precision_bits == parts.sub_texel_precision_bits,
        r.caps.texture_compression_bc == candidate.texture_compression_bc,
        r.caps.texture_compression_astc == candidate.texture_compression_astc,
        r.caps.storage_input_output16 == candidate.storage_input_output16,
        r.ext == parts.ext,
{
}

/// A texture whose image was bound is owned and waits to be made usable. One whose image was not is
/// not owned: the image is handed back for destruction, and nothing else changes.
pub proof fn textures_are_owned_or_handed_back(
    device: &mut Device,
    desc: TextureDesc,
    creation: ImageCreation,
    r: Result<Texture, TextureFailure>,
)
    requires
        call_ensures(Device::create_texture, (device, &desc, creation), r),
    ensures
        match creation {
            ImageCreation::Bound { image } => {
                &&& r matches Ok(texture) && texture.image == image && texture.format == desc.format
                    && texture.layer_count == desc.layer_count && texture.width == desc.extent.x
                &&& final(device).allocations@.last() == Allocation::Image(image)
                &&& final(device).allocations@.len() == old(device).allocations@.len() + 1
                &&& final(device).pending_textures@.last().image == image
                &&& final(device).pending_textures@.len() == old(device).pending_textures@.len() + 1
            },
            ImageCreation::Unbound { image, code } => {
                &&& r matches Err(failed) && failed.left_image == Some(image) && failed.failure
                    == failure_of(code)
                &&& *final(device) == *old(device)
            },
            ImageCreation::Failed { code } => {
                &&& r matches Err(failed) && failed.left_image is None && failed.failure
                    == failure_of(code)
                &&& *final(device) == *old(device)
            },
        },
{
}

/// What was created is owned from then on, under the handle that the driver gave, and what failed is
/// not: it is told why.
pub proof fn created_resources_are_owned(
    device: &mut Device,
    byte_count: u64,
    result: Result<u64, i32>,
    r: Result<TextureHeap, Failure>,
)
    requires
        call_ensures(Device::create_texture_heap, (device, byte_count, result), r),
    ensures
        r is Ok <==> result is Ok,
        r matches Ok(heap) ==> {
            &&& heap.size == byte_count
            &&& heap.memory == result->Ok_0
            &&& final(device).allocations@.last() == Allocation::Memory(heap.memory)
            &&& final(device).allocations@.len() == old(device).allocations@.len() + 1
        },
        r matches Err(failure) ==> {
            &&& failure == failure_of(result->Err_0)
            &&& final(device).allocations == old(device).allocations
        },
{
}

/// A render view and a semaphore are owned as what they are, with what they were created for.
pub proof fn views_and_semaphores_are_owned(
    device: &mut Device,
    other: &mut Device,
    texture: &Texture,
    desc: RenderViewDesc,
    result: Result<u64, i32>,
    view: Result<Arc<RenderView>, Failure>,
    semaphore: Result<Arc<TimelineSemaphore>, Failure>,
)
    requires
        call_ensures(Device::create_render_view, (device, texture, &desc, result), view),
        call_ensures(Device::create_timeline_semaphore, (other, result), semaphore),
    ensures
        view is Ok <==> result is Ok,
        semaphore is Ok <==> result is Ok,
        result matches Ok(handle) ==> {
            &&& view->Ok_0.view == handle
            &&& !view->Ok_0.swapchain_view
            &&& semaphore->Ok_0.semaphore == handle
            &&& final(device).allocations@ == old(device).allocations@.push(
                Allocation::View(handle),
            )
            &&& final(other).allocations@ == old(other).allocations@.push(
                Allocation::Semaphore(handle),
            )
        },
        result matches Err(code) ==> {
            &&& view->Err_0 == failure_of(code)
            &&& semaphore->Err_0 == failure_of(code)
            &&& final(device).allocations == old(device).allocations
            &&& final(other).allocations == old(other).allocations
        },
{
}

/// A resource that is destroyed is owned no more, and is destroyed as what it is.
pub proof fn destroyed_resources_are_released(
    device: &mut Device,
    texture: Texture,
    pso: PSO,
    other: &mut Device,
    r: Vec<Effect>,
    p: Vec<Effect>,
)
    requires
        device.allocations@.contains(Allocation::Image(texture.image)),
        call_ensures(Device::destroy_texture, (device, texture), r),
        call_ensures(Device::destroy_pso, (other, pso), p),
    ensures
        r@ == seq![Effect::DestroyImage(texture.image)],
        p@ == seq![Effect::DestroyPipeline(pso.pso)],
        final(device).allocations@.len() == old(device).allocations@.len() - 1,
        forall|i: int|
            0 <= i < final(device).pending_textures@.len() ==> (
            #[trigger] final(device).pending_textures@[i]).image != texture.image,
{
    let ledger = device.allocations@;
    let allocation = Allocation::Image(texture.image);
    crate::allocation::release_takes_one(ledger, allocation);
    assert forall|i: int| 0 <= i < final(device).pending_textures@.len() implies (
    #[trigger] final(device).pending_textures@[i]).image != texture.image by {
        destroyed_textures_stay_untouched(
            device.pending_textures@,
            texture.image,
            final(device).pending_textures@[i],
        );
    }
}

} // verus!
