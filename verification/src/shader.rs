//! Shader-related state shared by drawables.

use vstd::prelude::*;

verus! {

/// An enum for specifying default and custom blend modes.
#[derive(Debug, Clone, Copy, PartialEq, Eq, Structural, Hash)]
pub enum BlendMode {
    /// Add the source and destination values, saturating.
    Add,
    /// Subtract the source value from the destination value.
    Subtract,
    /// Mix source and destination by the source alpha channel: the usual
    /// transparency effect.
    Alpha,
    /// Subtract the destination from a constant color weighted by the
    /// source: an invert effect.
    Invert,
    /// Multiply the source and destination values.
    Multiply,
    /// Take the source value.
    Replace,
    /// Take the lighter value.
    Lighten,
    /// Take the darker value.
    Darken,
}

} // verus!
