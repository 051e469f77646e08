//! Vulkan calls that the library decides on and the application carries out, in order.
//!
//! None of them answers anything that the library waits for. A call that can fail is one whose
//! failure the application treats as fatal.

use vstd::prelude::*;

verus! {

/// One call.
#[derive(Clone, Copy, Debug, PartialEq, Eq, Structural)]
pub enum Effect {
    UnmapMemory(u64),
    DestroyBuffer(u64),
    FreeMemory(u64),
    DestroyImage(u64),
    DestroyImageView(u64),
    DestroyPipeline(u64),
    DestroySemaphore(u64),
    DestroyFence(u64),
    DestroyQueryPool(u64),
    DestroyCommandPool(u64),
    DestroySwapchain(u64),
    /// Returns the command pool to its initial state.
    ResetCommandPool(u64),
    /// Blocks until the fence is signaled.
    WaitFence(u64),
    /// Blocks until the timeline semaphore reaches the value.
    WaitSemaphore { semaphore: u64, value: u64 },
}

} // verus!
