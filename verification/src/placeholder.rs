//! Stand-ins for effects that have no look of their own yet: a pink billboard
//! of `alpha_down.tga` at the origin, running until its holder removes it.
//! The hybrid stand-in also names a `.str` animation the renderer overlays.
use vstd::prelude::*;
use crate::draw::EffectStatus;

verus! {

/// The billboard's texture.
pub const PLACEHOLDER_TEXTURE: &'static str = "alpha_down.tga";
/// Every texture the stand-ins draw with.
pub const TEXTURES: [&'static str; 1] = [PLACEHOLDER_TEXTURE];

/// A plain stand-in: one billboard at its origin, no overlay.
#[derive(Clone, Copy, Debug)]
pub struct PlaceholderEffect {}

impl PlaceholderEffect {
    /// A stand-in (its origin is the renderer's).
    pub fn new() -> (e: PlaceholderEffect)
        ensures
            e == (PlaceholderEffect {}),
    {
        PlaceholderEffect {}
    }

    /// One update: a stand-in keeps running.
    pub fn update(&self) -> (s: EffectStatus)
        ensures
            s == EffectStatus::Running,
    {
        EffectStatus::Running
    }

    /// Billboards drawn each frame.
    pub fn billboard_count(&self) -> (r: usize)
        ensures
            r == 1,
    {
        1
    }

    /// A plain stand-in declares no overlay.
    pub fn str_overlay(&self) -> (r: Option<&'static str>)
        ensures
            r is None,
    {
        None
    }
}

/// A stand-in that also declares a `.str` overlay.
#[derive(Clone, Copy, Debug)]
pub struct HybridPlaceholderEffect {
    str_file: &'static str,
}

impl HybridPlaceholderEffect {
    /// The overlay's file.
    pub closed spec fn str_file_spec(&self) -> &'static str {
        self.str_file
    }

    /// A stand-in overlaid with `str_file`.
    pub fn new(str_file: &'static str) -> (e: HybridPlaceholderEffect)
        ensures
            e.str_file_spec() == str_file,
    {
        HybridPlaceholderEffect { str_file }
    }

    /// One update: a stand-in keeps running.
    pub fn update(&self) -> (s: EffectStatus)
        ensures
            s == EffectStatus::Running,
    {
        EffectStatus::Running
    }

    /// Billboards drawn each frame: the stand-in's one.
    pub fn billboard_count(&self) -> (r: usize)
        ensures
            r == 1,
    {
        1
    }

    /// The `.str` animation to overlay: always the one it was made with.
    pub fn str_overlay(&self) -> (r: Option<&'static str>)
        ensures
            r == Some(self.str_file_spec()),
    {
        Some(self.str_file)
    }
}

} // verus!
