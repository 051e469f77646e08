//! The numbers of the Vulkan registry that the library encodes into.
//!
//! Every value here is part of the Vulkan binary interface. Handles are plain 64-bit numbers.

use vstd::prelude::*;

verus! {

// Texel formats.
pub const FORMAT_R8_SRGB: i32 = 15;
pub const FORMAT_R8G8_SRGB: i32 = 22;
pub const FORMAT_R8G8B8A8_SRGB: i32 = 43;
pub const FORMAT_B8G8R8A8_SRGB: i32 = 50;
pub const FORMAT_R4G4B4A4_UNORM_PACK16: i32 = 2;
pub const FORMAT_R5G5B5A1_UNORM_PACK16: i32 = 6;
pub const FORMAT_R5G6B5_UNORM_PACK16: i32 = 4;
pub const FORMAT_R8_UNORM: i32 = 9;
pub const FORMAT_R8G8_UNORM: i32 = 16;
pub const FORMAT_R8G8B8A8_UNORM: i32 = 37;
pub const FORMAT_B8G8R8A8_UNORM: i32 = 44;
pub const FORMAT_R16_UNORM: i32 = 70;
pub const FORMAT_R16G16_UNORM: i32 = 77;
pub const FORMAT_R16G16B16A16_UNORM: i32 = 91;
pub const FORMAT_R8_UINT: i32 = 13;
pub const FORMAT_R8G8_UINT: i32 = 20;
pub const FORMAT_R8G8B8A8_UINT: i32 = 41;
pub const FORMAT_B8G8R8A8_UINT: i32 = 48;
pub const FORMAT_R16_UINT: i32 = 74;
pub const FORMAT_R16G16_UINT: i32 = 81;
pub const FORMAT_R16G16B16A16_UINT: i32 = 95;
pub const FORMAT_R32_UINT: i32 = 98;
pub const FORMAT_R32G32_UINT: i32 = 101;
pub const FORMAT_R32G32B32_UINT: i32 = 104;
pub const FORMAT_R32G32B32A32_UINT: i32 = 107;
pub const FORMAT_R16_SFLOAT: i32 = 76;
pub const FORMAT_R16G16_SFLOAT: i32 = 83;
pub const FORMAT_R16G16B16A16_SFLOAT: i32 = 97;
pub const FORMAT_R32_SFLOAT: i32 = 100;
pub const FORMAT_R32G32_SFLOAT: i32 = 103;
pub const FORMAT_R32G32B32_SFLOAT: i32 = 106;
pub const FORMAT_R32G32B32A32_SFLOAT: i32 = 109;
pub const FORMAT_A2B10G10R10_UNORM_PACK32: i32 = 64;
pub const FORMAT_B10G11R11_UFLOAT_PACK32: i32 = 122;
pub const FORMAT_D16_UNORM: i32 = 124;
pub const FORMAT_D24_UNORM_S8_UINT: i32 = 129;
pub const FORMAT_D32_SFLOAT: i32 = 126;
pub const FORMAT_S8_UINT: i32 = 127;
pub const FORMAT_D32_SFLOAT_S8_UINT: i32 = 130;
pub const FORMAT_EAC_R11G11_UNORM_BLOCK: i32 = 155;
pub const FORMAT_ASTC_4X4_SRGB_BLOCK: i32 = 158;
pub const FORMAT_ASTC_4X4_UNORM_BLOCK: i32 = 157;
pub const FORMAT_BC3_SRGB_BLOCK: i32 = 138;
pub const FORMAT_BC3_UNORM_BLOCK: i32 = 137;
pub const FORMAT_BC5_UNORM_BLOCK: i32 = 141;
pub const FORMAT_BC7_SRGB_BLOCK: i32 = 146;
pub const FORMAT_BC7_UNORM_BLOCK: i32 = 145;
pub const FORMAT_UNDEFINED: i32 = 0;

// Blend factors.
pub const BLEND_FACTOR_ZERO: i32 = 0;
pub const BLEND_FACTOR_ONE: i32 = 1;
pub const BLEND_FACTOR_SRC_COLOR: i32 = 2;
pub const BLEND_FACTOR_ONE_MINUS_SRC_COLOR: i32 = 3;
pub const BLEND_FACTOR_DST_COLOR: i32 = 4;
pub const BLEND_FACTOR_ONE_MINUS_DST_COLOR: i32 = 5;
pub const BLEND_FACTOR_SRC_ALPHA: i32 = 6;
pub const BLEND_FACTOR_ONE_MINUS_SRC_ALPHA: i32 = 7;
pub const BLEND_FACTOR_DST_ALPHA: i32 = 8;
pub const BLEND_FACTOR_ONE_MINUS_DST_ALPHA: i32 = 9;
pub const BLEND_FACTOR_SRC_ALPHA_SATURATE: i32 = 14;

// Pipeline stages.
pub const STAGE_DRAW_INDIRECT: u64 = 0x2;
pub const STAGE_INDEX_INPUT: u64 = 0x1000000000;
pub const STAGE_VERTEX_SHADER: u64 = 0x8;
pub const STAGE_MESH_SHADER: u64 = 0x100000;
pub const STAGE_EARLY_FRAGMENT_TESTS: u64 = 0x100;
pub const STAGE_LATE_FRAGMENT_TESTS: u64 = 0x200;
pub const STAGE_FRAGMENT_SHADER: u64 = 0x80;
pub const STAGE_COLOR_ATTACHMENT_OUTPUT: u64 = 0x400;
pub const STAGE_COMPUTE_SHADER: u64 = 0x800;
pub const STAGE_COPY: u64 = 0x100000000;
pub const STAGE_HOST: u64 = 0x4000;
pub const STAGE_ALL_COMMANDS: u64 = 0x10000;

// Memory accesses.
pub const ACCESS_TRANSFER_READ: u64 = 0x800;
pub const ACCESS_TRANSFER_WRITE: u64 = 0x1000;
pub const ACCESS_SHADER_STORAGE_READ: u64 = 0x200000000;
pub const ACCESS_SHADER_SAMPLED_READ: u64 = 0x100000000;
pub const ACCESS_SHADER_STORAGE_WRITE: u64 = 0x400000000;
pub const ACCESS_COLOR_ATTACHMENT_READ: u64 = 0x80;
pub const ACCESS_COLOR_ATTACHMENT_WRITE: u64 = 0x100;
pub const ACCESS_DEPTH_STENCIL_ATTACHMENT_READ: u64 = 0x200;
pub const ACCESS_DEPTH_STENCIL_ATTACHMENT_WRITE: u64 = 0x400;
pub const ACCESS_INDIRECT_COMMAND_READ: u64 = 0x1;
pub const ACCESS_INDEX_READ: u64 = 0x2;
pub const ACCESS_HOST_READ: u64 = 0x2000;
pub const ACCESS_MEMORY_READ: u64 = 0x8000;
pub const ACCESS_MEMORY_WRITE: u64 = 0x10000;

// Format features.
pub const FEATURE_SAMPLED_IMAGE: u64 = 0x1;
pub const FEATURE_STORAGE_IMAGE: u64 = 0x2;
pub const FEATURE_STORAGE_READ_WITHOUT_FORMAT: u64 = 0x80000000;
pub const FEATURE_STORAGE_WRITE_WITHOUT_FORMAT: u64 = 0x100000000;
pub const FEATURE_COLOR_ATTACHMENT: u64 = 0x80;
pub const FEATURE_DEPTH_STENCIL_ATTACHMENT: u64 = 0x200;
pub const FEATURE_TRANSFER_SRC: u64 = 0x4000;
pub const FEATURE_TRANSFER_DST: u64 = 0x8000;

// Image usages.
pub const USAGE_SAMPLED: u32 = 0x4;
pub const USAGE_STORAGE: u32 = 0x8;
pub const USAGE_COLOR_ATTACHMENT: u32 = 0x10;
pub const USAGE_DEPTH_STENCIL_ATTACHMENT: u32 = 0x20;
pub const USAGE_TRANSFER_SRC: u32 = 0x1;
pub const USAGE_TRANSFER_DST: u32 = 0x2;

// Image aspects.
pub const ASPECT_DEPTH: u32 = 0x2;
pub const ASPECT_STENCIL: u32 = 0x4;
pub const ASPECT_COLOR: u32 = 0x1;

// Image types.
pub const IMAGE_TYPE_1D: i32 = 0;
pub const IMAGE_TYPE_3D: i32 = 2;
pub const IMAGE_TYPE_2D: i32 = 1;

// Image view types.
pub const VIEW_TYPE_1D: i32 = 0;
pub const VIEW_TYPE_2D: i32 = 1;
pub const VIEW_TYPE_3D: i32 = 2;
pub const VIEW_TYPE_CUBE: i32 = 3;
pub const VIEW_TYPE_2D_ARRAY: i32 = 5;
pub const VIEW_TYPE_CUBE_ARRAY: i32 = 6;

// Image creation flags.
pub const IMAGE_CREATE_CUBE_COMPATIBLE: u32 = 0x10;
pub const IMAGE_CREATE_MUTABLE_FORMAT: u32 = 0x8;

// Image layouts.
pub const LAYOUT_UNDEFINED: i32 = 0;
pub const LAYOUT_GENERAL: i32 = 1;
pub const LAYOUT_PRESENT_SRC: i32 = 1000001002;

// Buffer usages.
pub const BUFFER_USAGE_SHADER_DEVICE_ADDRESS: u32 = 0x20000;
pub const BUFFER_USAGE_STORAGE_BUFFER: u32 = 0x20;
pub const BUFFER_USAGE_INDEX_BUFFER: u32 = 0x40;
pub const BUFFER_USAGE_INDIRECT_BUFFER: u32 = 0x100;
pub const BUFFER_USAGE_TRANSFER_SRC: u32 = 0x1;
pub const BUFFER_USAGE_TRANSFER_DST: u32 = 0x2;

// Memory properties.
pub const MEMORY_DEVICE_LOCAL: u32 = 0x1;
pub const MEMORY_HOST_VISIBLE: u32 = 0x2;
pub const MEMORY_HOST_COHERENT: u32 = 0x4;
pub const MEMORY_LAZILY_ALLOCATED: u32 = 0x10;
pub const MEMORY_PROTECTED: u32 = 0x20;
pub const MEMORY_DEVICE_COHERENT: u32 = 0x40;
pub const MEMORY_DEVICE_UNCACHED: u32 = 0x80;
pub const MEMORY_HOST_CACHED: u32 = 0x8;

// Queue capabilities.
pub const QUEUE_GRAPHICS: u32 = 0x1;
pub const QUEUE_COMPUTE: u32 = 0x2;

// Result codes.
pub const ERROR_OUT_OF_HOST_MEMORY: i32 = -1;
pub const ERROR_OUT_OF_DEVICE_MEMORY: i32 = -2;
pub const ERROR_TOO_MANY_OBJECTS: i32 = -10;
pub const ERROR_DEVICE_LOST: i32 = -4;
pub const ERROR_LAYER_NOT_PRESENT: i32 = -6;
pub const ERROR_EXTENSION_NOT_PRESENT: i32 = -7;
pub const ERROR_FEATURE_NOT_PRESENT: i32 = -8;
pub const ERROR_INCOMPATIBLE_DRIVER: i32 = -9;
pub const ERROR_FORMAT_NOT_SUPPORTED: i32 = -11;
pub const RESULT_SUCCESS: i32 = 0;
pub const ERROR_OUT_OF_DATE: i32 = -1000001004;

// Composite alpha modes.
pub const COMPOSITE_ALPHA_OPAQUE: u32 = 0x1;
pub const COMPOSITE_ALPHA_PRE_MULTIPLIED: u32 = 0x2;
pub const COMPOSITE_ALPHA_POST_MULTIPLIED: u32 = 0x4;
pub const COMPOSITE_ALPHA_INHERIT: u32 = 0x8;

// Surface transforms.
pub const TRANSFORM_IDENTITY: u32 = 0x1;

// Color spaces.
pub const COLOR_SPACE_SRGB_NONLINEAR: i32 = 0;

// Cull modes.
pub const CULL_NONE: u32 = 0x0;
pub const CULL_BACK: u32 = 0x2;

// Front faces.
pub const FRONT_FACE_CLOCKWISE: i32 = 1;
pub const FRONT_FACE_COUNTER_CLOCKWISE: i32 = 0;

// Shader stages.
pub const SHADER_STAGE_MESH: u32 = 0x80;
pub const SHADER_STAGE_VERTEX: u32 = 0x1;
pub const SHADER_STAGE_FRAGMENT: u32 = 0x10;
pub const SHADER_STAGE_COMPUTE: u32 = 0x20;

// Pipeline bind points.
pub const BIND_POINT_GRAPHICS: i32 = 0;
pub const BIND_POINT_COMPUTE: i32 = 1;

// Dynamic pipeline state.
pub const DYNAMIC_VIEWPORT_WITH_COUNT: i32 = 1000267003;
pub const DYNAMIC_SCISSOR_WITH_COUNT: i32 = 1000267004;
pub const DYNAMIC_DEPTH_TEST_ENABLE: i32 = 1000267006;
pub const DYNAMIC_DEPTH_WRITE_ENABLE: i32 = 1000267007;
pub const DYNAMIC_DEPTH_COMPARE_OP: i32 = 1000267008;
pub const DYNAMIC_STENCIL_TEST_ENABLE: i32 = 1000267010;
pub const DYNAMIC_STENCIL_OP: i32 = 1000267011;
pub const DYNAMIC_STENCIL_COMPARE_MASK: i32 = 6;
pub const DYNAMIC_STENCIL_WRITE_MASK: i32 = 7;
pub const DYNAMIC_STENCIL_REFERENCE: i32 = 8;

// Descriptor types.
pub const DESCRIPTOR_SAMPLED_IMAGE: i32 = 2;
pub const DESCRIPTOR_STORAGE_IMAGE: i32 = 3;

// Stencil faces.
pub const STENCIL_FACE_FRONT: u32 = 0x1;
pub const STENCIL_FACE_BACK: u32 = 0x2;
pub const STENCIL_FACE_FRONT_AND_BACK: u32 = 0x3;

// Physical device types.
pub const DEVICE_TYPE_DISCRETE_GPU: i32 = 2;

/// Bits of Vulkan extensions that are too recent for the registry excerpt above. The Vulkan
/// bindings of the application supply them.
#[derive(Clone, Copy, Debug, PartialEq, Eq, Structural)]
pub struct ExtensionBits {
    /// Access bit: a shader reads the sampler heap.
    pub sampler_heap_read: u64,
    /// Access bit: a shader reads the resource heap.
    pub resource_heap_read: u64,
    /// Buffer usage bit: the buffer backs a descriptor heap.
    pub descriptor_heap_buffer: u32,
    /// Memory heap bit: the heap is tile memory.
    pub tile_memory_heap: u32,
}

/// Stands for every remaining mip level or array layer.
pub const REMAINING: u32 = 0xffff_ffff;

} // verus!
