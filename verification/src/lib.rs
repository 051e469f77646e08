//! Resource bookkeeping and Vulkan encodings for an explicit graphics API.
//!
//! The library decides: which memory a resource gets, what is recorded and submitted, when a
//! command context can be used again, and when a swapchain can be destroyed. It makes no Vulkan
//! call itself. An operation says which calls to make, as [`Effect`]s, [`Command`]s and
//! descriptions of what to create, and takes the driver's answers as plain values.
//!
//! The device owns its allocations and releases them when it is shut down. Resource values hold
//! handles and metadata. Destroy operations consume resources to release them early. Command
//! buffers move out of the device's pool and back into it on submission.

pub mod allocation;
pub mod commands;
pub mod deferred;
pub mod device;
pub mod effect;
pub mod enums;
pub mod error;
pub mod flags;
pub mod format;
pub mod frame;
pub mod heap;
pub mod inspect;
pub mod memory;
pub mod pipeline;
pub mod present;
pub mod probe;
pub mod record;
pub mod recording;
pub mod replace;
pub mod setup;
pub mod shutdown;
pub mod spirv;
pub mod startup;
pub mod state;
pub mod swapchain;
pub mod texture;
pub mod version;
pub mod vulkan;

pub use commands::{CommandBuffer, TimelinePoint, TimelineSemaphore};
pub use device::Device;
pub use effect::Effect;
pub use enums::{
    AddressMode, BlendFactor, BlendOp, CompareOp, CullMode, Filter, IndexType, LoadOp, MemoryType,
    StencilOp, StoreOp, TextureAspect, TextureDescriptorType, TextureType,
};
pub use error::{Error, Failure};
pub use flags::{Access, Stage, TextureUsage};
pub use format::{get_texture_format_info, Format, TextureFormatInfo, Uint32x2};
pub use heap::{GpuHeap, GpuRange, TextureHeap};
pub use pipeline::{GraphicsPSODesc, MeshPSODesc, PSO};
pub use record::{ColorAttachment, Command, DepthAttachment, RenderingDesc, StencilAttachment};
pub use startup::{DeviceCaps, DeviceDesc};
pub use state::{
    BlendComponentState, BlendState, ClearColor, ColorTargetDesc, DepthStencilState, Float,
    RasterizationState, SamplerDesc, Scissor, StencilFaceState, Viewport,
};
pub use swapchain::SwapchainFrame;
pub use texture::{
    RenderView, RenderViewDesc, SizeAlign, Texture, TextureCopyDesc, TextureDesc,
    TextureDescriptorDesc, Uint32x3,
};
