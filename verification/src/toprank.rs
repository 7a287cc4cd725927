//! `EF_TOPRANK` — the top-ranker marker: a persistent `LockOn128.tga` quad
//! over the actor that turns 4.5° per frame about the vertical axis, tinted
//! red. It never ends by itself.
//!
//! The yaw is kept exactly at any time, counted in ticks, a caller-chosen
//! `1/ticks` of a 60 fps frame; the whole-frame function is the case of one
//! tick a frame.
use vstd::prelude::*;
use crate::draw::EffectStatus;

verus! {

/// The marker texture.
pub const TOPRANK_TEXTURE: &'static str = "LockOn128.tga";
/// Every texture the marker draws with.
pub const TEXTURES: [&'static str; 1] = [TOPRANK_TEXTURE];
/// Turn per frame, tenths of a degree.
pub const DEG_TENTHS_PER_FRAME: u32 = 45;
/// Half the quad's side, world units.
pub const HALF_SIZE: u32 = 4;
/// Tint, 8-bit RGBA.
pub const TINT: [u8; 4] = [255, 51, 51, 255];

/// Yaw `n` ticks in at `ticks` ticks a frame, in `1/ticks` of a tenth of a
/// degree, within one turn.
pub fn yaw_in_ticks(n: u32, ticks: u32) -> (r: u64)
    requires
        ticks >= 1,
    ensures
        r == (DEG_TENTHS_PER_FRAME * n) % (3600 * ticks as int),
        r < 3600 * ticks,
{
    (DEG_TENTHS_PER_FRAME as u64 * n as u64) % (3600 * ticks as u64)
}

/// Yaw on frame `n`, tenths of a degree within one turn.
pub fn yaw_tenths_at(n: u32) -> (r: u32)
    ensures
        r == (DEG_TENTHS_PER_FRAME * n) % 3600,
        r < 3600,
{
    yaw_in_ticks(n, 1) as u32
}

/// The marker is persistent: it reports `Running` on every frame.
pub fn status_at(n: u32) -> (s: EffectStatus)
    ensures
        s == EffectStatus::Running,
{
    EffectStatus::Running
}

} // verus!
