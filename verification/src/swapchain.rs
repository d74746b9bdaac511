//! The swapchain model: an ordered set of presentable images plus one
//! framebuffer per image, tagged with a staleness state.
//!
//! A stale swapchain is never patched in place: recreation replaces the
//! whole image set atomically, and only after device idle is established
//! for in-flight work (the frame machinery models that in `frame`).

use vstd::prelude::*;

verus! {

/// The lifecycle state of the swapchain.
///
/// Transitions: `Valid -> StaleOnResize -> Recreating -> Valid` and
/// `Valid -> StaleOnAcquire -> Recreating -> Valid`.  `Recreating` is
/// transient: it never outlives a frame tick.
#[derive(Debug, Clone, Copy, PartialEq, Eq, Structural)]
pub enum SwapchainStatus {
    /// The swapchain matches the surface and may present.
    Valid,
    /// The external driver reported a window resize.
    StaleOnResize,
    /// An acquire or present call reported the swapchain out of date.
    StaleOnAcquire,
    /// The image set is being replaced.
    Recreating,
}

/// The swapchain: `image_count` presentable images at a pixel extent,
/// plus the staleness tag.
#[derive(Debug, Clone, Copy, PartialEq, Eq, Structural)]
pub struct Swapchain {
    /// How many presentable images the swapchain cycles through.
    pub image_count: usize,
    /// Current width of the image set, in pixels.
    pub width: u32,
    /// Current height of the image set, in pixels.
    pub height: u32,
    /// The lifecycle state.
    pub status: SwapchainStatus,
}

impl Swapchain {
    /// Double or triple buffering: at least two images.
    pub open spec fn wf(self) -> bool {
        self.image_count >= 2
    }

    /// Whether the swapchain must be replaced before the next acquire.
    pub open spec fn is_stale(self) -> bool {
        self.status is StaleOnResize || self.status is StaleOnAcquire
    }

    /// Whether the swapchain must be replaced before the next acquire.
    pub fn stale(&self) -> (r: bool)
        ensures
            r == self.is_stale(),
    {
        match self.status {
            SwapchainStatus::StaleOnResize => true,
            SwapchainStatus::StaleOnAcquire => true,
            _ => false,
        }
    }
}

} // verus!
