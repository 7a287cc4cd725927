//! The renderer-facing vocabulary the effects share: how a primitive blends
//! and whether an effect is still running.
use vstd::prelude::*;

verus! {

/// Framebuffer blend mode of a primitive.
#[derive(Clone, Copy, Debug, PartialEq, Eq, Structural)]
pub enum BlendKind {
    /// `SRC_ALPHA, ONE_MINUS_SRC_ALPHA` (`RF_ALPHA`).
    Alpha,
    /// `SRC_ALPHA, ONE` (`RF_EFFECT`).
    Additive,
}

/// What an effect's per-tick update reports to its holder.
#[derive(Clone, Copy, Debug, PartialEq, Eq, Structural)]
pub enum EffectStatus {
    /// Keep ticking and drawing.
    Running,
    /// Finished; the holder may drop it.
    Dead,
}

} // verus!
