//! What a device is made of: the instance, the physical device and what is enabled on it.

use crate::error::Error;
use crate::flags::has_all_u32;
use crate::format::Format;
use crate::memory::{MemoryProperties, CPU_VISIBLE_MEMORY_PROPERTIES};
use crate::present::MAX_SWAPCHAIN_IMAGES;
use crate::state::Float;
use crate::vulkan::{ExtensionBits, QUEUE_COMPUTE, QUEUE_GRAPHICS};
use vstd::prelude::*;

verus! {

/// The most instance extensions that are looked at.
pub const MAX_INSTANCE_EXTENSIONS: usize = 256;

/// The most instance layers that are looked at.
pub const MAX_INSTANCE_LAYERS: usize = 64;

/// The most physical devices that are looked at.
pub const MAX_PHYSICAL_DEVICES: usize = 32;

/// The most device extensions that are looked at.
pub const MAX_DEVICE_EXTENSIONS: usize = 512;

/// The most queue families that are looked at.
pub const MAX_QUEUE_FAMILIES: usize = 64;

/// The width of timestamps.
pub const TIMESTAMP_BITS: u32 = 64;

pub const DESCRIPTOR_HEAP: &'static str = "VK_EXT_descriptor_heap";
pub const DEVICE_ADDRESS_COMMANDS: &'static str = "VK_KHR_device_address_commands";
pub const SHADER_UNTYPED_POINTERS: &'static str = "VK_KHR_shader_untyped_pointers";
pub const MESH_SHADER: &'static str = "VK_EXT_mesh_shader";
pub const UNIFIED_IMAGE_LAYOUTS: &'static str = "VK_KHR_unified_image_layouts";
pub const SWAPCHAIN: &'static str = "VK_KHR_swapchain";
pub const KHR_SWAPCHAIN_MAINTENANCE: &'static str = "VK_KHR_swapchain_maintenance1";
pub const EXT_SWAPCHAIN_MAINTENANCE: &'static str = "VK_EXT_swapchain_maintenance1";
pub const KHR_SURFACE_MAINTENANCE: &'static str = "VK_KHR_surface_maintenance1";
pub const EXT_SURFACE_MAINTENANCE: &'static str = "VK_EXT_surface_maintenance1";
pub const SURFACE_CAPABILITIES: &'static str = "VK_KHR_get_surface_capabilities2";
pub const DEBUG_UTILS: &'static str = "VK_EXT_debug_utils";
pub const VALIDATION_LAYER: &'static str = "VK_LAYER_KHRONOS_validation";

/// `ash::vk::make_api_version`: the four parts of a Vulkan version, each shifted to its place.
pub assume_specification [ash::vk::make_api_version](
    variant: u32,
    major: u32,
    minor: u32,
    patch: u32,
) -> (r: u32)
    ensures
        r == (variant << 29u32) | (major << 22u32) | (minor << 12u32) | patch,
;

/// The version of Vulkan that a device must have.
pub const REQUIRED_API_VERSION: u32 = 0x40_4000;

/// The version of Vulkan that a device must have: 1.4.
pub fn required_api_version() -> (r: u32)
    ensures
        r == REQUIRED_API_VERSION,
{
    assert((0u32 << 29u32) | (1u32 << 22u32) | (4u32 << 12u32) | 0u32 == 0x40_4000u32)
        by (bit_vector);
    ash::vk::make_api_version(0, 1, 4, 0)
}

/// The version that the engine and the application report: 0.1.
pub fn engine_version() -> (r: u32)
    ensures
        r == 0x1000,
{
    assert((0u32 << 29u32) | (0u32 << 22u32) | (1u32 << 12u32) | 0u32 == 0x1000u32)
        by (bit_vector);
    ash::vk::make_api_version(0, 0, 1, 0)
}

/// Whether a version of Vulkan suffices.
pub fn supports_version(version: u32) -> (r: bool)
    ensures
        r <==> version >= REQUIRED_API_VERSION,
{
    version >= required_api_version()
}

/// The name is in the list.
pub open spec fn listed(values: Seq<String>, name: Seq<char>) -> bool {
    exists|i: int| 0 <= i < values.len() && (#[trigger] values[i])@ == name
}

/// Whether the name is in the list.
pub fn has_name(values: &Vec<String>, name: &str) -> (r: bool)
    ensures
        r == listed(values@, name@),
{
    let wanted = name.to_owned();
    let mut i: usize = 0;
    while i < values.len()
        invariant
            i <= values@.len(),
            wanted@ == name@,
            forall|j: int| 0 <= j < i ==> (#[trigger] values@[j])@ != name@,
        decreases values@.len() - i,
    {
        if values[i] == wanted {
            return true;
        }
        i += 1;
    }
    false
}

/// The names of a list.
pub open spec fn names(values: Seq<String>) -> Seq<Seq<char>> {
    values.map_values(|value: String| value@)
}

pub(crate) fn push_name(values: &mut Vec<String>, name: &str)
    ensures
        names(final(values)@) == names(old(values)@).push(name@),
{
    values.push(name.to_owned());
    assert(names(values@) =~= names(old(values)@).push(name@));
}

/// Which extensions for the maintenance of surfaces the instance has, as far as they are wanted.
#[derive(Clone, Copy, Debug, PartialEq, Eq, Structural)]
pub struct SurfaceMaintenance {
    pub khr: bool,
    pub ext: bool,
}

/// The extensions for the maintenance of surfaces in a list.
pub open spec fn surface_maintenance(
    extensions: Seq<String>,
    presentation: bool,
) -> SurfaceMaintenance {
    SurfaceMaintenance {
        khr: presentation && listed(extensions, KHR_SURFACE_MAINTENANCE@),
        ext: presentation && listed(extensions, EXT_SURFACE_MAINTENANCE@),
    }
}

/// The instance serves: its extensions are not too many, and a window finds what it needs.
pub open spec fn instance_serves(extensions: Seq<String>, presentation: bool) -> bool {
    let maintenance = surface_maintenance(extensions, presentation);
    &&& extensions.len() <= MAX_INSTANCE_EXTENSIONS
    &&& presentation ==> {
        &&& maintenance.khr || maintenance.ext
        &&& listed(extensions, SURFACE_CAPABILITIES@)
    }
}

/// Looks at the extensions of the instance.
pub fn inspect_instance(extensions: &Vec<String>, presentation: bool) -> (r: Result<
    SurfaceMaintenance,
    Error,
>)
    ensures
        r == (if instance_serves(extensions@, presentation) {
            Ok::<SurfaceMaintenance, Error>(surface_maintenance(extensions@, presentation))
        } else {
            Err::<SurfaceMaintenance, Error>(Error::Unsupported)
        }),
{
    if extensions.len() > MAX_INSTANCE_EXTENSIONS {
        return Err(Error::Unsupported);
    }
    let khr = presentation && has_name(extensions, KHR_SURFACE_MAINTENANCE);
    let ext = presentation && has_name(extensions, EXT_SURFACE_MAINTENANCE);
    if presentation && (!(khr || ext) || !has_name(extensions, SURFACE_CAPABILITIES)) {
        return Err(Error::Unsupported);
    }
    Ok(SurfaceMaintenance { khr, ext })
}

/// All names of `wanted` are in the list.
pub open spec fn all_listed(values: Seq<String>, wanted: Seq<String>) -> bool {
    forall|i: int| 0 <= i < wanted.len() ==> listed(values, (#[trigger] wanted[i])@)
}

/// The extensions that a window needs: those of the window system, and those for its surface.
pub open spec fn window_names(
    window_extensions: Seq<String>,
    maintenance: SurfaceMaintenance,
) -> Seq<Seq<char>> {
    names(window_extensions) + seq![SURFACE_CAPABILITIES@] + (if maintenance.khr {
        seq![KHR_SURFACE_MAINTENANCE@]
    } else {
        seq![]
    }) + (if maintenance.ext {
        seq![EXT_SURFACE_MAINTENANCE@]
    } else {
        seq![]
    })
}

/// The instance extensions to enable for a window, if the instance has all that the window system
/// needs.
pub fn window_instance_extensions(
    extensions: &Vec<String>,
    window_extensions: &Vec<String>,
    maintenance: SurfaceMaintenance,
) -> (r: Result<Vec<String>, Error>)
    ensures
        match r {
            Ok(enabled) => {
                &&& all_listed(extensions@, window_extensions@)
                &&& names(enabled@) == window_names(window_extensions@, maintenance)
            },
            Err(error) => error == Error::Unsupported && !all_listed(
                extensions@,
                window_extensions@,
            ),
        },
{
    let mut enabled: Vec<String> = Vec::new();
    let mut i: usize = 0;
    while i < window_extensions.len()
        invariant
            i <= window_extensions@.len(),
            forall|j: int|
                0 <= j < i ==> listed(extensions@, (#[trigger] window_extensions@[j])@),
            names(enabled@) == names(window_extensions@).take(i as int),
        decreases window_extensions@.len() - i,
    {
        let name = window_extensions[i].as_str();
        if !has_name(extensions, name) {
            assert(!listed(extensions@, window_extensions@[i as int]@));
            return Err(Error::Unsupported);
        }
        push_name(&mut enabled, name);
        i += 1;
        assert(names(enabled@) =~= names(window_extensions@).take(i as int));
    }
    push_name(&mut enabled, SURFACE_CAPABILITIES);
    if maintenance.khr {
        push_name(&mut enabled, KHR_SURFACE_MAINTENANCE);
    }
    if maintenance.ext {
        push_name(&mut enabled, EXT_SURFACE_MAINTENANCE);
    }
    assert(names(enabled@) =~= window_names(window_extensions@, maintenance));
    Ok(enabled)
}

/// What helps to find mistakes.
#[derive(Clone, Copy, Debug, PartialEq, Eq, Structural)]
pub struct DebugAids {
    /// Report messages of the driver.
    pub messenger: bool,
    /// Enable the validation layer.
    pub validation: bool,
}

/// Looks for what helps to find mistakes, among the extensions and layers of the instance.
pub fn find_debug_aids(extensions: &Vec<String>, layers: &Vec<String>) -> (r: Result<
    DebugAids,
    Error,
>)
    ensures
        r == (if layers@.len() > MAX_INSTANCE_LAYERS {
            Err::<DebugAids, Error>(Error::Unsupported)
        } else {
            Ok::<DebugAids, Error>(
                DebugAids {
                    messenger: listed(extensions@, DEBUG_UTILS@),
                    validation: listed(layers@, VALIDATION_LAYER@),
                },
            )
        }),
{
    if layers.len() > MAX_INSTANCE_LAYERS {
        return Err(Error::Unsupported);
    }
    Ok(
        DebugAids {
            messenger: has_name(extensions, DEBUG_UTILS),
            validation: has_name(layers, VALIDATION_LAYER),
        },
    )
}

/// Features of a physical device, as far as they count.
#[derive(Clone, Copy, Debug, PartialEq, Eq, Structural)]
pub struct DeviceFeatures {
    pub image_cube_array: bool,
    pub sampler_anisotropy: bool,
    pub shader_int16: bool,
    pub depth_bias_clamp: bool,
    pub independent_blend: bool,
    pub texture_compression_bc: bool,
    pub texture_compression_astc_ldr: bool,
    pub texture_compression_etc2: bool,
    pub fragment_stores_and_atomics: bool,
    pub vertex_pipeline_stores_and_atomics: bool,
    pub shader_storage_image_read_without_format: bool,
    pub shader_storage_image_write_without_format: bool,
    pub multi_draw_indirect: bool,
    pub draw_indirect_first_instance: bool,
    pub storage_buffer16_bit_access: bool,
    pub storage_push_constant16: bool,
    pub storage_input_output16: bool,
    pub shader_draw_parameters: bool,
    pub shader_float16: bool,
    pub scalar_block_layout: bool,
    pub timeline_semaphore: bool,
    pub buffer_device_address: bool,
    pub synchronization2: bool,
    pub dynamic_rendering: bool,
    pub maintenance4: bool,
    pub maintenance5: bool,
    pub descriptor_heap: bool,
    pub device_address_commands: bool,
    pub shader_untyped_pointers: bool,
    pub unified_image_layouts: bool,
    pub mesh_shader: bool,
    pub swapchain_maintenance1: bool,
}

impl DeviceFeatures {
    /// No feature.
    pub fn none() -> (r: Self)
        ensures
            forall|other: DeviceFeatures| #[trigger] r.within(other),
    {
        DeviceFeatures {
            image_cube_array: false,
            sampler_anisotropy: false,
            shader_int16: false,
            depth_bias_clamp: false,
            independent_blend: false,
            texture_compression_bc: false,
            texture_compression_astc_ldr: false,
            texture_compression_etc2: false,
            fragment_stores_and_atomics: false,
            vertex_pipeline_stores_and_atomics: false,
            shader_storage_image_read_without_format: false,
            shader_storage_image_write_without_format: false,
            multi_draw_indirect: false,
            draw_indirect_first_instance: false,
            storage_buffer16_bit_access: false,
            storage_push_constant16: false,
            storage_input_output16: false,
            shader_draw_parameters: false,
            shader_float16: false,
            scalar_block_layout: false,
            timeline_semaphore: false,
            buffer_device_address: false,
            synchronization2: false,
            dynamic_rendering: false,
            maintenance4: false,
            maintenance5: false,
            descriptor_heap: false,
            device_address_commands: false,
            shader_untyped_pointers: false,
            unified_image_layouts: false,
            mesh_shader: false,
            swapchain_maintenance1: false,
        }
    }

    /// The features that every device needs.
    pub open spec fn has_required(self) -> bool {
        &&& self.shader_int16
        &&& self.sampler_anisotropy
        &&& self.depth_bias_clamp
        &&& self.independent_blend
        &&& self.fragment_stores_and_atomics
        &&& self.vertex_pipeline_stores_and_atomics
        &&& self.shader_storage_image_read_without_format
        &&& self.shader_storage_image_write_without_format
        &&& self.multi_draw_indirect
        &&& self.draw_indirect_first_instance
        &&& self.storage_buffer16_bit_access
        &&& self.storage_push_constant16
        &&& self.shader_draw_parameters
        &&& self.shader_float16
        &&& self.scalar_block_layout
        &&& self.buffer_device_address
        &&& self.timeline_semaphore
        &&& self.synchronization2
        &&& self.dynamic_rendering
        &&& self.maintenance4
        &&& self.maintenance5
        &&& self.descriptor_heap
        &&& self.device_address_commands
        &&& self.shader_untyped_pointers
        &&& self.mesh_shader
    }

    /// The features suffice: one family of compressed formats, and for a window the maintenance of
    /// swapchains, come on top of what every device needs.
    pub open spec fn suffice(self, presentation: bool) -> bool {
        &&& self.has_required()
        &&& self.texture_compression_bc || self.texture_compression_astc_ldr
        &&& presentation ==> self.swapchain_maintenance1
    }

    /// Whether the features suffice.
    pub fn suffices(&self, presentation: bool) -> (r: bool)
        ensures
            r == self.suffice(presentation),
    {
        self.shader_int16 && self.sampler_anisotropy && self.depth_bias_clamp
            && self.independent_blend && self.fragment_stores_and_atomics
            && self.vertex_pipeline_stores_and_atomics
            && self.shader_storage_image_read_without_format
            && self.shader_storage_image_write_without_format && self.multi_draw_indirect
            && self.draw_indirect_first_instance && self.storage_buffer16_bit_access
            && self.storage_push_constant16 && self.shader_draw_parameters && self.shader_float16
            && self.scalar_block_layout && self.buffer_device_address && self.timeline_semaphore
            && self.synchronization2 && self.dynamic_rendering && self.maintenance4
            && self.maintenance5 && self.descriptor_heap && self.device_address_commands
            && self.shader_untyped_pointers && self.mesh_shader && (self.texture_compression_bc
            || self.texture_compression_astc_ldr) && (!presentation
            || self.swapchain_maintenance1)
    }

    /// Every feature of `self` is one of `other`.
    pub open spec fn within(self, other: Self) -> bool {
        &&& self.image_cube_array ==> other.image_cube_array
        &&& self.sampler_anisotropy ==> other.sampler_anisotropy
        &&& self.shader_int16 ==> other.shader_int16
        &&& self.depth_bias_clamp ==> other.depth_bias_clamp
        &&& self.independent_blend ==> other.independent_blend
        &&& self.texture_compression_bc ==> other.texture_compression_bc
        &&& self.texture_compression_astc_ldr ==> other.texture_compression_astc_ldr
        &&& self.texture_compression_etc2 ==> other.texture_compression_etc2
        &&& self.fragment_stores_and_atomics ==> other.fragment_stores_and_atomics
        &&& self.vertex_pipeline_stores_and_atomics ==> other.vertex_pipeline_stores_and_atomics
        &&& self.shader_storage_image_read_without_format
            ==> other.shader_storage_image_read_without_format
        &&& self.shader_storage_image_write_without_format
            ==> other.shader_storage_image_write_without_format
        &&& self.multi_draw_indirect ==> other.multi_draw_indirect
        &&& self.draw_indirect_first_instance ==> other.draw_indirect_first_instance
        &&& self.storage_buffer16_bit_access ==> other.storage_buffer16_bit_access
        &&& self.storage_push_constant16 ==> other.storage_push_constant16
        &&& self.storage_input_output16 ==> other.storage_input_output16
        &&& self.shader_draw_parameters ==> other.shader_draw_parameters
        &&& self.shader_float16 ==> other.shader_float16
        &&& self.scalar_block_layout ==> other.scalar_block_layout
        &&& self.timeline_semaphore ==> other.timeline_semaphore
        &&& self.buffer_device_address ==> other.buffer_device_address
        &&& self.synchronization2 ==> other.synchronization2
        &&& self.dynamic_rendering ==> other.dynamic_rendering
        &&& self.maintenance4 ==> other.maintenance4
        &&& self.maintenance5 ==> other.maintenance5
        &&& self.descriptor_heap ==> other.descriptor_heap
        &&& self.device_address_commands ==> other.device_address_commands
        &&& self.shader_untyped_pointers ==> other.shader_untyped_pointers
        &&& self.unified_image_layouts ==> other.unified_image_layouts
        &&& self.mesh_shader ==> other.mesh_shader
        &&& self.swapchain_maintenance1 ==> other.swapchain_maintenance1
    }
}

/// A structure of features, as they are linked to a chain.
#[derive(Clone, Copy, Debug, PartialEq, Eq, Structural)]
pub enum FeatureGroup {
    Core,
    Vulkan11,
    Vulkan12,
    Vulkan13,
    Vulkan14,
    DescriptorHeap,
    AddressCommands,
    UntypedPointers,
    UnifiedImageLayouts,
    MeshShader,
    SwapchainMaintenance,
}

/// The chain of feature structures: unified image layouts and the maintenance of swapchains are
/// part of it only where they apply.
pub open spec fn feature_chain(presentation: bool, unified: bool) -> Seq<FeatureGroup> {
    seq![
        FeatureGroup::Core,
        FeatureGroup::Vulkan11,
        FeatureGroup::Vulkan12,
        FeatureGroup::Vulkan13,
        FeatureGroup::Vulkan14,
        FeatureGroup::DescriptorHeap,
        FeatureGroup::AddressCommands,
        FeatureGroup::UntypedPointers,
    ] + (if unified {
        seq![FeatureGroup::UnifiedImageLayouts]
    } else {
        seq![]
    }) + seq![FeatureGroup::MeshShader] + (if presentation {
        seq![FeatureGroup::SwapchainMaintenance]
    } else {
        seq![]
    })
}

/// The chain of feature structures.
pub fn link_features(presentation: bool, unified: bool) -> (r: Vec<FeatureGroup>)
    ensures
        r@ == feature_chain(presentation, unified),
{
    let mut chain: Vec<FeatureGroup> = Vec::new();
    chain.push(FeatureGroup::Core);
    chain.push(FeatureGroup::Vulkan11);
    chain.push(FeatureGroup::Vulkan12);
    chain.push(FeatureGroup::Vulkan13);
    chain.push(FeatureGroup::Vulkan14);
    chain.push(FeatureGroup::DescriptorHeap);
    chain.push(FeatureGroup::AddressCommands);
    chain.push(FeatureGroup::UntypedPointers);
    if unified {
        chain.push(FeatureGroup::UnifiedImageLayouts);
    }
    chain.push(FeatureGroup::MeshShader);
    if presentation {
        chain.push(FeatureGroup::SwapchainMaintenance);
    }
    assert(chain@ =~= feature_chain(presentation, unified));
    chain
}

/// What the extensions of a physical device offer.
#[derive(Clone, Copy, Debug, PartialEq, Eq, Structural)]
pub struct DeviceExtensions {
    pub unified_image_layouts: bool,
    pub khr_maintenance: bool,
    pub ext_maintenance: bool,
}

/// What the extensions of a physical device offer. The maintenance of swapchains takes the same
/// extension on the side of the instance.
pub open spec fn device_extensions_of(
    extensions: Seq<String>,
    maintenance: SurfaceMaintenance,
) -> DeviceExtensions {
    DeviceExtensions {
        unified_image_layouts: listed(extensions, UNIFIED_IMAGE_LAYOUTS@),
        khr_maintenance: maintenance.khr && listed(extensions, KHR_SWAPCHAIN_MAINTENANCE@),
        ext_maintenance: maintenance.ext && listed(extensions, EXT_SWAPCHAIN_MAINTENANCE@),
    }
}

/// The extensions of a physical device suffice.
pub open spec fn device_extensions_suffice(
    extensions: Seq<String>,
    maintenance: SurfaceMaintenance,
    presentation: bool,
) -> bool {
    let offered = device_extensions_of(extensions, maintenance);
    &&& extensions.len() <= MAX_DEVICE_EXTENSIONS
    &&& listed(extensions, DESCRIPTOR_HEAP@)
    &&& listed(extensions, DEVICE_ADDRESS_COMMANDS@)
    &&& listed(extensions, SHADER_UNTYPED_POINTERS@)
    &&& listed(extensions, MESH_SHADER@)
    &&& presentation ==> {
        &&& listed(extensions, SWAPCHAIN@)
        &&& offered.khr_maintenance || offered.ext_maintenance
    }
}

/// Looks at the extensions of a physical device.
pub fn inspect_device_extensions(
    extensions: &Vec<String>,
    maintenance: SurfaceMaintenance,
    presentation: bool,
) -> (r: Result<DeviceExtensions, Error>)
    ensures
        r == (if device_extensions_suffice(extensions@, maintenance, presentation) {
            Ok::<DeviceExtensions, Error>(device_extensions_of(extensions@, maintenance))
        } else {
            Err::<DeviceExtensions, Error>(Error::Unsupported)
        }),
{
    if extensions.len() > MAX_DEVICE_EXTENSIONS || !has_name(extensions, DESCRIPTOR_HEAP)
        || !has_name(extensions, DEVICE_ADDRESS_COMMANDS) || !has_name(
        extensions,
        SHADER_UNTYPED_POINTERS,
    ) || !has_name(extensions, MESH_SHADER) {
        return Err(Error::Unsupported);
    }
    let unified_image_layouts = has_name(extensions, UNIFIED_IMAGE_LAYOUTS);
    let khr_maintenance = maintenance.khr && has_name(extensions, KHR_SWAPCHAIN_MAINTENANCE);
    let ext_maintenance = maintenance.ext && has_name(extensions, EXT_SWAPCHAIN_MAINTENANCE);
    if presentation && (!has_name(extensions, SWAPCHAIN) || !(khr_maintenance
        || ext_maintenance)) {
        return Err(Error::Unsupported);
    }
    Ok(DeviceExtensions { unified_image_layouts, khr_maintenance, ext_maintenance })
}

/// The device has memory that the host can write.
pub open spec fn has_host_memory(memory: &MemoryProperties, ext: ExtensionBits) -> bool {
    exists|i: int|
        0 <= i < memory.types@.len() && #[trigger] memory.usable(i, ext) && has_all_u32(
            memory.types@[i].property_flags,
            CPU_VISIBLE_MEMORY_PROPERTIES,
        )
}

/// Whether the device has memory that the host can write.
pub fn inspect_memory(memory: &MemoryProperties, ext: ExtensionBits) -> (r: bool)
    requires
        memory.wf(),
    ensures
        r == has_host_memory(memory, ext),
{
    let mut i: u32 = 0;
    while (i as usize) < memory.types.len()
        invariant
            memory.wf(),
            i <= memory.types@.len(),
            forall|j: int|
                0 <= j < i && #[trigger] memory.usable(j, ext) ==> !has_all_u32(
                    memory.types@[j].property_flags,
                    CPU_VISIBLE_MEMORY_PROPERTIES,
                ),
        decreases memory.types@.len() - i,
    {
        if memory.is_usable_memory_type(i, ext) && memory.types[i as usize].property_flags
            & CPU_VISIBLE_MEMORY_PROPERTIES == CPU_VISIBLE_MEMORY_PROPERTIES {
            return true;
        }
        i += 1;
    }
    false
}

/// A family of queues.
#[derive(Clone, Copy, Debug, PartialEq, Eq, Structural)]
pub struct QueueFamily {
    pub queue_count: u32,
    pub timestamp_valid_bits: u32,
    pub queue_flags: u32,
}

impl QueueFamily {
    /// The family draws, computes and takes full timestamps.
    pub open spec fn qualifies(self) -> bool {
        &&& self.queue_count != 0
        &&& self.timestamp_valid_bits == TIMESTAMP_BITS
        &&& has_all_u32(self.queue_flags, QUEUE_GRAPHICS | QUEUE_COMPUTE)
    }
}

/// The first family from `from` on that qualifies.
pub open spec fn first_family(families: Seq<QueueFamily>, from: nat) -> Option<u32>
    decreases families.len() - from,
{
    if from >= families.len() {
        None
    } else if families[from as int].qualifies() {
        Some(from as u32)
    } else {
        first_family(families, from + 1)
    }
}

/// The first family from `from` on that qualifies.
pub fn next_queue_family(families: &Vec<QueueFamily>, from: u32) -> (r: Option<u32>)
    requires
        families@.len() <= MAX_QUEUE_FAMILIES,
    ensures
        r == first_family(families@, from as nat),
        r matches Some(index) ==> from <= index < families@.len()
            && families@[index as int].qualifies(),
{
    let mut index: u32 = from;
    while (index as usize) < families.len()
        invariant
            families@.len() <= MAX_QUEUE_FAMILIES,
            from <= index,
            first_family(families@, from as nat) == first_family(families@, index as nat),
        decreases families@.len() - index,
    {
        let family = families[index as usize];
        let wanted = QUEUE_GRAPHICS | QUEUE_COMPUTE;
        if family.queue_count != 0 && family.timestamp_valid_bits == TIMESTAMP_BITS
            && family.queue_flags & wanted == wanted {
            return Some(index);
        }
        index += 1;
    }
    None
}

/// A physical device that can be used.
#[derive(Clone, Copy, Debug, PartialEq, Eq, Structural)]
pub struct Candidate {
    pub physical_device: u64,
    pub queue_family: u32,
    /// Whether it is a discrete GPU.
    pub discrete: bool,
    pub unified_image_layouts: bool,
    pub image_cube_array: bool,
    pub texture_compression_bc: bool,
    pub texture_compression_astc: bool,
    pub texture_compression_etc2: bool,
    pub storage_input_output16: bool,
    pub khr_swapchain_maintenance1: bool,
}

/// The candidate that a physical device is.
pub open spec fn candidate_of(
    physical_device: u64,
    queue_family: u32,
    discrete: bool,
    features: DeviceFeatures,
    extensions: DeviceExtensions,
) -> Candidate {
    Candidate {
        physical_device,
        queue_family,
        discrete,
        unified_image_layouts: extensions.unified_image_layouts && features.unified_image_layouts,
        image_cube_array: features.image_cube_array,
        texture_compression_bc: features.texture_compression_bc,
        texture_compression_astc: features.texture_compression_astc_ldr,
        texture_compression_etc2: features.texture_compression_etc2,
        storage_input_output16: features.storage_input_output16,
        khr_swapchain_maintenance1: extensions.khr_maintenance,
    }
}

impl Candidate {
    /// A physical device that passed.
    pub fn new(
        physical_device: u64,
        queue_family: u32,
        discrete: bool,
        features: &DeviceFeatures,
        extensions: DeviceExtensions,
    ) -> (r: Self)
        ensures
            r == candidate_of(physical_device, queue_family, discrete, *features, extensions),
    {
        Candidate {
            physical_device,
            queue_family,
            discrete,
            unified_image_layouts: extensions.unified_image_layouts
                && features.unified_image_layouts,
            image_cube_array: features.image_cube_array,
            texture_compression_bc: features.texture_compression_bc,
            texture_compression_astc: features.texture_compression_astc_ldr,
            texture_compression_etc2: features.texture_compression_etc2,
            storage_input_output16: features.storage_input_output16,
            khr_swapchain_maintenance1: extensions.khr_maintenance,
        }
    }

    /// The features to enable: what every device needs, and what else the candidate has.
    pub open spec fn enabled(self, presentation: bool) -> DeviceFeatures {
        DeviceFeatures {
            image_cube_array: self.image_cube_array,
            sampler_anisotropy: true,
            shader_int16: true,
            depth_bias_clamp: true,
            independent_blend: true,
            texture_compression_bc: self.texture_compression_bc,
            texture_compression_astc_ldr: self.texture_compression_astc,
            texture_compression_etc2: self.texture_compression_etc2,
            fragment_stores_and_atomics: true,
            vertex_pipeline_stores_and_atomics: true,
            shader_storage_image_read_without_format: true,
            shader_storage_image_write_without_format: true,
            multi_draw_indirect: true,
            draw_indirect_first_instance: true,
            storage_buffer16_bit_access: true,
            storage_push_constant16: true,
            storage_input_output16: self.storage_input_output16,
            shader_draw_parameters: true,
            shader_float16: true,
            scalar_block_layout: true,
            timeline_semaphore: true,
            buffer_device_address: true,
            synchronization2: true,
            dynamic_rendering: true,
            maintenance4: true,
            maintenance5: true,
            descriptor_heap: true,
            device_address_commands: true,
            shader_untyped_pointers: true,
            unified_image_layouts: self.unified_image_layouts,
            mesh_shader: true,
            swapchain_maintenance1: presentation,
        }
    }

    /// The features to enable.
    pub fn enabled_features(&self, presentation: bool) -> (r: DeviceFeatures)
        ensures
            r == self.enabled(presentation),
    {
        DeviceFeatures {
            image_cube_array: self.image_cube_array,
            sampler_anisotropy: true,
            shader_int16: true,
            depth_bias_clamp: true,
            independent_blend: true,
            texture_compression_bc: self.texture_compression_bc,
            texture_compression_astc_ldr: self.texture_compression_astc,
            texture_compression_etc2: self.texture_compression_etc2,
            fragment_stores_and_atomics: true,
            vertex_pipeline_stores_and_atomics: true,
            shader_storage_image_read_without_format: true,
            shader_storage_image_write_without_format: true,
            multi_draw_indirect: true,
            draw_indirect_first_instance: true,
            storage_buffer16_bit_access: true,
            storage_push_constant16: true,
            storage_input_output16: self.storage_input_output16,
            shader_draw_parameters: true,
            shader_float16: true,
            scalar_block_layout: true,
            timeline_semaphore: true,
            buffer_device_address: true,
            synchronization2: true,
            dynamic_rendering: true,
            maintenance4: true,
            maintenance5: true,
            descriptor_heap: true,
            device_address_commands: true,
            shader_untyped_pointers: true,
            unified_image_layouts: self.unified_image_layouts,
            mesh_shader: true,
            swapchain_maintenance1: presentation,
        }
    }

    /// The names of the device extensions to enable.
    pub open spec fn extension_names(self, presentation: bool) -> Seq<Seq<char>> {
        seq![
            DESCRIPTOR_HEAP@,
            DEVICE_ADDRESS_COMMANDS@,
            SHADER_UNTYPED_POINTERS@,
            MESH_SHADER@,
        ] + (if self.unified_image_layouts {
            seq![UNIFIED_IMAGE_LAYOUTS@]
        } else {
            seq![]
        }) + (if presentation {
            seq![
                SWAPCHAIN@,
                if self.khr_swapchain_maintenance1 {
                    KHR_SWAPCHAIN_MAINTENANCE@
                } else {
                    EXT_SWAPCHAIN_MAINTENANCE@
                },
            ]
        } else {
            seq![]
        })
    }

    /// The device extensions to enable.
    pub fn enabled_extensions(&self, presentation: bool) -> (r: Vec<String>)
        ensures
            names(r@) == self.extension_names(presentation),
    {
        let mut enabled: Vec<String> = Vec::new();
        push_name(&mut enabled, DESCRIPTOR_HEAP);
        push_name(&mut enabled, DEVICE_ADDRESS_COMMANDS);
        push_name(&mut enabled, SHADER_UNTYPED_POINTERS);
        push_name(&mut enabled, MESH_SHADER);
        if self.unified_image_layouts {
            push_name(&mut enabled, UNIFIED_IMAGE_LAYOUTS);
        }
        if presentation {
            push_name(&mut enabled, SWAPCHAIN);
            if self.khr_swapchain_maintenance1 {
                push_name(&mut enabled, KHR_SWAPCHAIN_MAINTENANCE);
            } else {
                push_name(&mut enabled, EXT_SWAPCHAIN_MAINTENANCE);
            }
        }
        assert(names(enabled@) =~= self.extension_names(presentation));
        enabled
    }
}

/// Nothing is enabled that the device lacks: neither a feature nor an extension.
pub proof fn enabled_is_offered(
    physical_device: u64,
    queue_family: u32,
    discrete: bool,
    features: DeviceFeatures,
    extensions: Seq<String>,
    maintenance: SurfaceMaintenance,
    presentation: bool,
)
    requires
        device_extensions_suffice(extensions, maintenance, presentation),
        features.suffice(presentation),
    ensures
        ({
            let candidate = candidate_of(
                physical_device,
                queue_family,
                discrete,
                features,
                device_extensions_of(extensions, maintenance),
            );
            &&& candidate.enabled(presentation).within(features)
            &&& candidate.enabled(presentation).suffice(presentation)
            &&& forall|i: int|
                0 <= i < candidate.extension_names(presentation).len() ==> listed(
                    extensions,
                    #[trigger] candidate.extension_names(presentation)[i],
                )
        }),
{
}

/// The place of the first discrete GPU.
pub open spec fn is_first_discrete(candidates: Seq<Candidate>, place: int) -> bool {
    &&& 0 <= place < candidates.len()
    &&& candidates[place].discrete
    &&& forall|i: int| 0 <= i < place ==> !(#[trigger] candidates[i]).discrete
}

/// The candidate to use: the first discrete GPU, or else the first of all.
pub open spec fn is_selection(candidates: Seq<Candidate>, selected: Option<Candidate>) -> bool {
    match selected {
        None => candidates.len() == 0,
        Some(candidate) => if candidate.discrete {
            exists|i: int| is_first_discrete(candidates, i) && candidates[i] == candidate
        } else {
            &&& candidates.len() > 0
            &&& candidate == candidates[0]
            &&& forall|i: int| 0 <= i < candidates.len() ==> !(#[trigger] candidates[i]).discrete
        },
    }
}

/// Takes one more candidate. The result says whether the search is over.
pub fn consider_candidate(selected: &mut Option<Candidate>, candidate: Candidate) -> (r: bool)
    ensures
        *final(selected) == (if *old(selected) is None || candidate.discrete {
            Some(candidate)
        } else {
            *old(selected)
        }),
        r == candidate.discrete,
{
    if selected.is_none() || candidate.discrete {
        *selected = Some(candidate);
    }
    candidate.discrete
}

/// Taking the candidates one by one, until the search is over, selects the first discrete GPU, or
/// else the first candidate.
pub proof fn considering_selects(
    before: Seq<Candidate>,
    selected: Option<Candidate>,
    candidate: Candidate,
)
    requires
        is_selection(before, selected),
        selected matches Some(s) ==> !s.discrete,
    ensures
        is_selection(
            before.push(candidate),
            if selected is None || candidate.discrete {
                Some(candidate)
            } else {
                selected
            },
        ),
{
    let all = before.push(candidate);
    if candidate.discrete {
        assert(is_first_discrete(all, before.len() as int));
    }
}

/// Candidates after the first discrete GPU make no difference.
pub proof fn selection_is_final(
    candidates: Seq<Candidate>,
    more: Seq<Candidate>,
    selected: Candidate,
)
    requires
        is_selection(candidates, Some(selected)),
        selected.discrete,
    ensures
        is_selection(candidates + more, Some(selected)),
{
    let i = choose|i: int| is_first_discrete(candidates, i) && candidates[i] == selected;
    let all = candidates + more;
    assert(is_first_discrete(all, i) && all[i] == selected);
}

/// What a device can do.
#[derive(Clone, Debug)]
pub struct DeviceCaps {
    pub device_name: String,
    pub max_push_data_size: u64,
    pub texture_heap_alignment: u64,
    pub texture_descriptor_size: u64,
    pub sampler_descriptor_size: u64,
    pub timestamp_period_ns: Float,
    pub sub_texel_precision_bits: u32,
    pub texture_compression_bc: bool,
    pub texture_compression_astc: bool,
    pub storage_input_output16: bool,
}

impl Default for DeviceCaps {
    fn default() -> (r: Self)
        ensures
            r.device_name@ == Seq::<char>::empty(),
            r.max_push_data_size == 0,
            r.texture_heap_alignment == 0,
            r.texture_descriptor_size == 0,
            r.sampler_descriptor_size == 0,
            r.timestamp_period_ns == Float(0),
            r.sub_texel_precision_bits == 0,
            !r.texture_compression_bc,
            !r.texture_compression_astc,
            !r.storage_input_output16,
    {
        DeviceCaps {
            device_name: String::new(),
            max_push_data_size: 0,
            texture_heap_alignment: 0,
            texture_descriptor_size: 0,
            sampler_descriptor_size: 0,
            timestamp_period_ns: Float(0),
            sub_texel_precision_bits: 0,
            texture_compression_bc: false,
            texture_compression_astc: false,
            storage_input_output16: false,
        }
    }
}

/// A device to create.
#[derive(Clone, Copy, Debug, PartialEq, Eq, Structural)]
pub struct DeviceDesc {
    /// Whether the device draws to a window.
    pub windowed: bool,
    pub swapchain_format: Format,
    pub desired_swapchain_image_count: u32,
    pub timestamp_query_count: u32,
}

impl DeviceDesc {
    /// The number of swapchain images is within its bounds.
    pub open spec fn wf(self) -> bool {
        1 <= self.desired_swapchain_image_count <= MAX_SWAPCHAIN_IMAGES
    }

    /// The number of present contexts: one for each swapchain image, and none without a window.
    pub open spec fn context_count(self) -> int {
        if self.windowed {
            self.desired_swapchain_image_count as int
        } else {
            0
        }
    }
}

impl Default for DeviceDesc {
    fn default() -> (r: Self)
        ensures
            r == (DeviceDesc {
                windowed: false,
                swapchain_format: Format::Undefined,
                desired_swapchain_image_count: 2,
                timestamp_query_count: 256,
            }),
    {
        DeviceDesc {
            windowed: false,
            swapchain_format: Format::Undefined,
            desired_swapchain_image_count: 2,
            timestamp_query_count: 256,
        }
    }
}

/// What is always enabled suffices together with one family of compressed formats: a device is asked
/// for nothing that is not used, and all that is used is asked for.
pub proof fn needed_features_are_enabled(candidate: Candidate, presentation: bool)
    ensures
        candidate.enabled(presentation).suffice(presentation) <==> candidate.texture_compression_bc
            || candidate.texture_compression_astc,
        candidate.enabled(true).swapchain_maintenance1,
        !candidate.enabled(false).swapchain_maintenance1,
        candidate.enabled(presentation).image_cube_array == candidate.image_cube_array,
        candidate.enabled(presentation).unified_image_layouts == candidate.unified_image_layouts,
        candidate.enabled(presentation).storage_input_output16 == candidate.storage_input_output16,
        candidate.enabled(presentation).texture_compression_bc == candidate.texture_compression_bc,
        candidate.enabled(presentation).texture_compression_astc_ldr
            == candidate.texture_compression_astc,
        candidate.enabled(presentation).texture_compression_etc2
            == candidate.texture_compression_etc2,
{
}

/// Each feature that drawing, computing or recording relies on is needed: no device without it
/// suffices.
pub proof fn relied_on_features_are_needed(features: DeviceFeatures, presentation: bool)
    requires
        features.suffice(presentation),
    ensures
        features.sampler_anisotropy && features.shader_int16 && features.depth_bias_clamp
            && features.independent_blend,
        features.fragment_stores_and_atomics && features.vertex_pipeline_stores_and_atomics,
        features.shader_storage_image_read_without_format
            && features.shader_storage_image_write_without_format,
        features.multi_draw_indirect && features.draw_indirect_first_instance,
        features.storage_buffer16_bit_access && features.storage_push_constant16,
        features.shader_draw_parameters && features.shader_float16 && features.scalar_block_layout,
        features.timeline_semaphore && features.buffer_device_address && features.synchronization2,
        features.dynamic_rendering && features.maintenance4 && features.maintenance5,
        features.descriptor_heap && features.device_address_commands,
        features.shader_untyped_pointers && features.mesh_shader,
        features.texture_compression_bc || features.texture_compression_astc_ldr,
        presentation ==> features.swapchain_maintenance1,
{
}

/// More features never hurt, and a window asks for no less than no window.
pub proof fn more_features_suffice(fewer: DeviceFeatures, more: DeviceFeatures, presentation: bool)
    ensures
        fewer.within(more) && fewer.suffice(presentation) ==> more.suffice(presentation),
        fewer.suffice(true) ==> fewer.suffice(false),
        fewer.within(fewer),
        fewer.within(more) && more.within(fewer) ==> fewer == more,
{
}

/// Every group of features is asked for once, and those that need not be there only where they
/// apply.
pub proof fn feature_groups_are_linked_once(presentation: bool, unified: bool, group: FeatureGroup)
    ensures
        ({
            let chain = feature_chain(presentation, unified);
            &&& chain.no_duplicates()
            &&& chain[0] == FeatureGroup::Core
            &&& chain.contains(group) <==> {
                &&& group is UnifiedImageLayouts ==> unified
                &&& group is SwapchainMaintenance ==> presentation
            }
        }),
{
    let chain = feature_chain(presentation, unified);
    assert(chain[1] == FeatureGroup::Vulkan11);
    assert(chain[2] == FeatureGroup::Vulkan12);
    assert(chain[3] == FeatureGroup::Vulkan13);
    assert(chain[4] == FeatureGroup::Vulkan14);
    assert(chain[5] == FeatureGroup::DescriptorHeap);
    assert(chain[6] == FeatureGroup::AddressCommands);
    assert(chain[7] == FeatureGroup::UntypedPointers);
    let mesh: int = if unified {
        assert(chain[8] == FeatureGroup::UnifiedImageLayouts);
        9
    } else {
        8
    };
    assert(chain[mesh] == FeatureGroup::MeshShader);
    if presentation {
        assert(chain[mesh + 1] == FeatureGroup::SwapchainMaintenance);
    }
}

/// A device suffices by its extensions exactly if it lists those that every device needs, and for a
/// window can show images and lists the maintenance of swapchains that goes with that of the
/// instance.
pub proof fn needed_extensions_are_listed(
    extensions: Seq<String>,
    maintenance: SurfaceMaintenance,
    presentation: bool,
)
    ensures
        ({
            let offered = device_extensions_of(extensions, maintenance);
            let shows = {
                ||| maintenance.khr && listed(extensions, KHR_SWAPCHAIN_MAINTENANCE@)
                ||| maintenance.ext && listed(extensions, EXT_SWAPCHAIN_MAINTENANCE@)
            };
            &&& offered.unified_image_layouts <==> listed(extensions, UNIFIED_IMAGE_LAYOUTS@)
            &&& offered.khr_maintenance ==> maintenance.khr
            &&& offered.ext_maintenance ==> maintenance.ext
            &&& offered.khr_maintenance || offered.ext_maintenance <==> shows
            &&& offered.khr_maintenance <==> maintenance.khr && listed(
                extensions,
                KHR_SWAPCHAIN_MAINTENANCE@,
            )
            &&& device_extensions_suffice(extensions, maintenance, presentation) <==> {
                &&& extensions.len() <= 512
                &&& listed(extensions, DESCRIPTOR_HEAP@)
                &&& listed(extensions, DEVICE_ADDRESS_COMMANDS@)
                &&& listed(extensions, SHADER_UNTYPED_POINTERS@)
                &&& listed(extensions, MESH_SHADER@)
                &&& presentation ==> listed(extensions, SWAPCHAIN@) && shows
            }
        }),
{
}

/// An instance serves exactly if its extensions are not too many to look at and, for a window, it
/// can tell what surfaces can do and maintains them in one of two ways.
pub proof fn serving_instances_maintain_surfaces(extensions: Seq<String>, presentation: bool)
    ensures
        ({
            let maintenance = surface_maintenance(extensions, presentation);
            &&& instance_serves(extensions, presentation) <==> extensions.len() <= 256 && (
            presentation ==> listed(extensions, SURFACE_CAPABILITIES@) && (listed(
                extensions,
                KHR_SURFACE_MAINTENANCE@,
            ) || listed(extensions, EXT_SURFACE_MAINTENANCE@)))
            &&& !presentation ==> !maintenance.khr && !maintenance.ext
            &&& presentation ==> maintenance.khr == listed(extensions, KHR_SURFACE_MAINTENANCE@)
            &&& presentation ==> maintenance.ext == listed(extensions, EXT_SURFACE_MAINTENANCE@)
        }),
{
}

/// A name is listed exactly if one of the names is the same.
pub proof fn names_are_listed_by_text(values: Seq<String>, more: String, name: Seq<char>)
    ensures
        listed(values.push(more), name) <==> listed(values, name) || more@ == name,
        !listed(Seq::empty(), name),
        listed(values, name) <==> names(values).contains(name),
{
    let grown = values.push(more);
    if listed(values, name) {
        let i = choose|i: int| 0 <= i < values.len() && (#[trigger] values[i])@ == name;
        assert(grown[i]@ == name);
        assert(names(values)[i] == name);
    }
    assert(grown[values.len() as int] == more);
    if listed(grown, name) {
        let i = choose|i: int| 0 <= i < grown.len() && (#[trigger] grown[i])@ == name;
        if i < values.len() {
            assert(values[i]@ == name);
        }
    }
    if names(values).contains(name) {
        let i = choose|i: int| 0 <= i < names(values).len() && names(values)[i] == name;
        assert(values[i]@ == name);
    }
}

/// A candidate has what the device offers: unified layouts where the extension and the feature are
/// there, and each other part by its own feature.
pub proof fn candidates_have_what_is_offered(
    physical_device: u64,
    queue_family: u32,
    discrete: bool,
    features: DeviceFeatures,
    extensions: DeviceExtensions,
)
    ensures
        ({
            let made = candidate_of(
                physical_device,
                queue_family,
                discrete,
                features,
                extensions,
            );
            &&& made.physical_device == physical_device
            &&& made.queue_family == queue_family
            &&& made.discrete == discrete
            &&& made.unified_image_layouts <==> extensions.unified_image_layouts
                && features.unified_image_layouts
            &&& made.image_cube_array == features.image_cube_array
            &&& made.texture_compression_bc == features.texture_compression_bc
            &&& made.texture_compression_astc == features.texture_compression_astc_ldr
            &&& made.texture_compression_etc2 == features.texture_compression_etc2
            &&& made.storage_input_output16 == features.storage_input_output16
            &&& made.khr_swapchain_maintenance1 == extensions.khr_maintenance
        }),
{
}

/// The extensions of a device are enabled for what it does: four for every device, one for unified
/// layouts where it has them, and two to show images in a window, of which the second is the newer
/// maintenance of swapchains where it has that.
pub proof fn enabled_extensions_are_for_use(candidate: Candidate, presentation: bool)
    ensures
        ({
            let enabled = candidate.extension_names(presentation);
            let shown = enabled.len() - 2;
            &&& enabled.len() == 4 + (if candidate.unified_image_layouts {
                1int
            } else {
                0
            }) + (if presentation {
                2int
            } else {
                0
            })
            &&& enabled[0] == DESCRIPTOR_HEAP@
            &&& enabled[1] == DEVICE_ADDRESS_COMMANDS@
            &&& enabled[2] == SHADER_UNTYPED_POINTERS@
            &&& enabled[3] == MESH_SHADER@
            &&& candidate.unified_image_layouts ==> enabled[4] == UNIFIED_IMAGE_LAYOUTS@
            &&& presentation ==> enabled[shown] == SWAPCHAIN@
            &&& presentation && candidate.khr_swapchain_maintenance1 ==> enabled[shown + 1]
                == KHR_SWAPCHAIN_MAINTENANCE@
            &&& presentation && !candidate.khr_swapchain_maintenance1 ==> enabled[shown + 1]
                == EXT_SWAPCHAIN_MAINTENANCE@
        }),
{
}

/// The extensions that a window needs are those of the window system, then those for its surface.
pub proof fn windows_get_their_extensions(
    window: Seq<String>,
    maintenance: SurfaceMaintenance,
    place: int,
)
    ensures
        ({
            let enabled = window_names(window, maintenance);
            &&& 0 <= place < window.len() ==> enabled[place] == window[place]@
            &&& enabled[window.len() as int] == SURFACE_CAPABILITIES@
            &&& maintenance.khr ==> enabled[window.len() as int + 1] == KHR_SURFACE_MAINTENANCE@
            &&& maintenance.ext ==> enabled.last() == EXT_SURFACE_MAINTENANCE@
            &&& enabled.len() == window.len() + 1 + (if maintenance.khr {
                1int
            } else {
                0
            }) + (if maintenance.ext {
                1int
            } else {
                0
            })
        }),
{
}

/// The device has memory that the host can write exactly if a type satisfies the wish for it, of
/// whatever size.
pub proof fn host_memory_can_be_wished_for(memory: &MemoryProperties, ext: ExtensionBits)
    requires
        memory.wf(),
    ensures
        has_host_memory(memory, ext) <==> exists|i: int| #[trigger]
            memory.eligible(
                i,
                crate::memory::MemoryWish {
                    bits: u32::MAX,
                    required: CPU_VISIBLE_MEMORY_PROPERTIES,
                    preferred: 0,
                    avoided: 0,
                    minimum_heap_size: 0,
                },
                ext,
            ),
{
    let wish = crate::memory::MemoryWish {
        bits: u32::MAX,
        required: CPU_VISIBLE_MEMORY_PROPERTIES,
        preferred: 0,
        avoided: 0,
        minimum_heap_size: 0,
    };
    assert forall|i: int| 0 <= i < memory.types@.len() && #[trigger] memory.usable(i, ext)
        && has_all_u32(
        memory.types@[i].property_flags,
        CPU_VISIBLE_MEMORY_PROPERTIES,
    ) implies memory.eligible(i, wish, ext) by {
        let k = i as u32;
        assert(u32::MAX & (1u32 << k) != 0) by (bit_vector)
            requires
                k < 32,
        ;
    }
    assert forall|i: int| #[trigger] memory.eligible(i, wish, ext) implies memory.usable(i, ext) by {}
}

/// A queue family qualifies if it has a queue, draws and computes, and its timestamps are full.
pub proof fn qualified_families_draw_and_compute(family: QueueFamily)
    ensures
        family.qualifies() <==> {
            &&& family.queue_count > 0
            &&& family.timestamp_valid_bits == 64
            &&& family.queue_flags & 0x1 != 0
            &&& family.queue_flags & 0x2 != 0
        },
{
    let flags = family.queue_flags;
    assert(flags & (0x1u32 | 0x2u32) == (0x1u32 | 0x2u32) <==> flags & 0x1 != 0 && flags & 0x2
        != 0) by (bit_vector);
}

/// The family that is tried is the first one that qualifies, from the given place on.
pub proof fn first_family_is_first(families: Seq<QueueFamily>, from: nat)
    requires
        families.len() <= MAX_QUEUE_FAMILIES,
    ensures
        match first_family(families, from) {
            Some(index) => {
                &&& from <= index < families.len()
                &&& families[index as int].qualifies()
                &&& forall|i: int| from <= i < index ==> !(#[trigger] families[i]).qualifies()
            },
            None => forall|i: int|
                from <= i < families.len() ==> !(#[trigger] families[i]).qualifies(),
        },
    decreases families.len() - from,
{
    if from < families.len() && !families[from as int].qualifies() {
        first_family_is_first(families, from + 1);
    }
}

/// Candidates have one selection: a discrete GPU if there is any, and then the first of them.
pub proof fn selections_are_unique(
    candidates: Seq<Candidate>,
    a: Option<Candidate>,
    b: Option<Candidate>,
    place: int,
)
    requires
        is_selection(candidates, a),
        is_selection(candidates, b),
        0 <= place < candidates.len(),
    ensures
        a == b,
        a is Some,
        candidates[place].discrete ==> a->0.discrete,
        !a->0.discrete ==> a->0 == candidates[0],
{
}

/// A window has one present context for each image that is wished for, and no window none.
pub proof fn present_contexts_are_for_windows(desc: DeviceDesc)
    requires
        desc.wf(),
    ensures
        !desc.windowed ==> desc.context_count() == 0,
        desc.windowed ==> desc.context_count() == desc.desired_swapchain_image_count,
        0 <= desc.context_count() <= 8,
        desc.desired_swapchain_image_count > 0,
{
}

/// A candidate is taken if it is the first or a discrete GPU, and a discrete GPU ends the search.
pub proof fn candidates_are_taken_in_order(
    selected: &mut Option<Candidate>,
    candidate: Candidate,
    r: bool,
)
    requires
        call_ensures(consider_candidate, (selected, candidate), r),
    ensures
        r == candidate.discrete,
        *old(selected) is None ==> *final(selected) == Some(candidate),
        candidate.discrete ==> *final(selected) == Some(candidate),
        *old(selected) is Some && !candidate.discrete ==> *final(selected) == *old(selected),
{
}

} // verus!
