//! `EF_PORTAL` — the warp portal's two nested rotating cylinder columns.
//!
//! Both columns share `ring_blue.tga`: the inner one (radius 3.5, height 40)
//! turns 4° a frame, the outer one (radius 4.0, height 50) 5° a frame, and
//! both ramp their alpha from 0 to 128 of 255 over 6 frames and hold. The
//! portal is sustained: it runs until its holder removes it.
//!
//! The ground pad the portal shares with the ready-portal effect is that
//! effect's emitter and is not part of this module. Time may be counted in
//! ticks, a caller-chosen `1/ticks` of a frame, so fractional frame counts
//! are kept exactly (alpha then in `1/(6·ticks)` of the peak, turns in
//! `1/ticks` of a degree).
use vstd::prelude::*;
use crate::draw::EffectStatus;

verus! {

/// The columns' texture.
pub const RING_TEXTURE: &'static str = "ring_blue.tga";
/// Every texture the columns draw with.
pub const TEXTURES: [&'static str; 1] = [RING_TEXTURE];
/// Nominal length reported to the effect table.
pub const TOTAL_DURATION_MS: u32 = 99990;
/// Frames of the columns' alpha ramp.
pub const CYL_FADE_IN_FRAMES: u32 = 6;
/// Peak alpha of the columns, of 255.
pub const CYL_MAX_ALPHA_255: u32 = 128;
/// Spin of the inner column, degrees per frame.
pub const CYL_INNER_SPIN_DEG_PER_FRAME: u32 = 4;
/// Spin of the outer column, degrees per frame.
pub const CYL_OUTER_SPIN_DEG_PER_FRAME: u32 = 5;
/// Segments of each column.
pub const CYL_SIDES: u32 = 10;

/// The columns' alpha on frame `f`, in sixths of the peak:
/// `min(f, 6)`.
pub open spec fn cylinder_alpha_spec(f: int) -> int {
    if f < CYL_FADE_IN_FRAMES { f } else { CYL_FADE_IN_FRAMES as int }
}

/// The columns' alpha on frame `f`, in sixths of 128/255.
pub fn cylinder_alpha(f: u32) -> (r: u32)
    ensures
        r == cylinder_alpha_spec(f as int),
        r <= CYL_FADE_IN_FRAMES,
{
    if f < CYL_FADE_IN_FRAMES { f } else { CYL_FADE_IN_FRAMES }
}

/// The turn of the inner and outer columns on frame `f`, degrees (the
/// renderer takes them modulo a full turn); with `f` counted in ticks, the
/// turns come in `1/ticks` of a degree.
pub fn cylinder_turns(f: u32) -> (r: (u64, u64))
    ensures
        r.0 == CYL_INNER_SPIN_DEG_PER_FRAME * f,
        r.1 == CYL_OUTER_SPIN_DEG_PER_FRAME * f,
{
    (CYL_INNER_SPIN_DEG_PER_FRAME as u64 * f as u64, CYL_OUTER_SPIN_DEG_PER_FRAME as u64 * f as u64)
}

/// Whether the columns are drawn on frame `f`: once their alpha has risen
/// from zero.
pub fn cylinders_drawn(f: u32) -> (r: bool)
    ensures
        r == (cylinder_alpha_spec(f as int) > 0),
{
    f > 0
}

/// The columns' alpha `n` ticks in at `ticks` ticks a frame, in
/// `1/(6·ticks)` of 128/255: `min(n, 6·ticks)`.
pub fn cylinder_alpha_in_ticks(n: u32, ticks: u32) -> (r: u64)
    ensures
        r == (if n < CYL_FADE_IN_FRAMES * ticks { n as int } else { CYL_FADE_IN_FRAMES * ticks }),
        r <= CYL_FADE_IN_FRAMES * ticks,
{
    let full = 6 * ticks as u64;
    if (n as u64) < full { n as u64 } else { full }
}

/// The portal never ends by itself.
pub fn status_at(_frame: u32) -> (s: EffectStatus)
    ensures
        s == EffectStatus::Running,
{
    EffectStatus::Running
}

/// The columns' alpha rises one sixth a frame, never falls, and holds its
/// peak from frame 6 on.
pub proof fn columns_ramp_then_hold(a: int, b: int)
    requires
        0 <= a <= b,
    ensures
        cylinder_alpha_spec(a) <= cylinder_alpha_spec(b),
        b >= CYL_FADE_IN_FRAMES ==> cylinder_alpha_spec(b) == CYL_FADE_IN_FRAMES,
        a < CYL_FADE_IN_FRAMES ==> cylinder_alpha_spec(a) == a,
{
}

} // verus!
