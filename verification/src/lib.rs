//! A 2D game framework core: the GPU frame renderer.
//!
//! This crate models the renderer that owns the device and swapchain,
//! synchronizes CPU and GPU work across overlapping frames, batches draw
//! calls into command buffers, and validates GPU-resident resources.
//! The backend-specific work (windowing, raw GPU calls) is performed by an
//! external driver; the logic that decides what those calls do lives here
//! and is verified.

pub mod error;
pub mod types;
pub mod matrix;
pub mod transform;
pub mod conf;
pub mod bootstrap;
pub mod swapchain;
pub mod batch;
pub mod frame;
pub mod shader;
pub mod image;
pub mod buffer;
pub mod context;
pub mod graphics;
pub mod spritebatch;

pub use error::GameError;
pub use error::GameResult;
