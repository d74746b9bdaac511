//! Error types for the renderer core.

use vstd::prelude::*;

verus! {

/// The kinds of errors the renderer core can report.
///
/// Expected transients (a stale swapchain) are handled internally by the
/// frame machinery and never surface here; everything below is either a
/// validation failure reported to the immediate caller or a fatal
/// GPU-level condition.
#[derive(Debug, Clone, PartialEq, Eq)]
pub enum GameError {
    /// Malformed resource input, such as bad image dimensions or a
    /// mismatched pixel byte count.  Detected before any GPU work;
    /// recoverable by the caller.
    ResourceLoadError(String),
    /// No adapter exposes a queue family with both graphics and
    /// presentation support, or the surface cannot back a swapchain.
    /// Fatal: occurs only during bootstrap.
    DeviceInitError(String),
    /// Something went wrong in the renderer.
    RenderError(String),
    /// Something went wrong trying to set or get window properties.
    WindowError(String),
    /// Waiting on a fence exceeded the internal bound; treated as fatal.
    SynchronizationTimeout(String),
    /// The device is out of memory; no graceful degradation is defined.
    AllocationFailure(String),
}

impl GameError {
    /// A short, human-readable label for the error kind.
    pub fn message(&self) -> (r: &'static str)
        ensures
            r@ == self.kind_label(),
    {
        match self {
            GameError::ResourceLoadError(_) => "Resource load error",
            GameError::DeviceInitError(_) => "Device init error",
            GameError::RenderError(_) => "Render error",
            GameError::WindowError(_) => "Window error",
            GameError::SynchronizationTimeout(_) => "Synchronization timeout",
            GameError::AllocationFailure(_) => "Allocation failure",
        }
    }

    /// The label `message` returns for each variant.
    pub open spec fn kind_label(self) -> Seq<char> {
        match self {
            GameError::ResourceLoadError(_) => "Resource load error"@,
            GameError::DeviceInitError(_) => "Device init error"@,
            GameError::RenderError(_) => "Render error"@,
            GameError::WindowError(_) => "Window error"@,
            GameError::SynchronizationTimeout(_) => "Synchronization timeout"@,
            GameError::AllocationFailure(_) => "Allocation failure"@,
        }
    }
}

/// A convenient result type whose error is a `GameError`.
pub type GameResult<T> = Result<T, GameError>;

} // verus!
