//! `EF_PROVIDENCE` — the descending light funnel of Providence: four
//! upright, slightly flared `ring_yellow.tga` rings forming a tall column
//! that turns slowly, played beside the `providence` STR overlay (which
//! carries the angel, the ground glow and the sparkles).
//!
//! | ring | radius | rise  | start turn |
//! |------|--------|-------|------------|
//! | 0    | 6.0    | 83°   | 0°         |
//! | 1    | 6.5    | 82°   | 90°        |
//! | 2    | 7.0    | 81°   | 180°       |
//! | 3    | 7.5    | 80°   | 270°       |
//!
//! The column turns 1.5° per frame. Its alpha climbs to 120 of 255 over 14
//! frames, holds, and falls over the last 30 of its 200 frames — the fade
//! curve of [`crate::temp_result::FadeCurve`] with a 156-frame hold.
//!
//! Time is counted in ticks, a caller-chosen `1/ticks` of a frame, so
//! fractional frame counts are kept exactly; the whole-frame functions are
//! the case of one tick a frame.
use vstd::prelude::*;
use crate::draw::EffectStatus;
use crate::temp_result::{FadeCurve, level_spec, level_ticks_spec, peak_level};

verus! {

/// The ring texture.
pub const TEXTURE: &'static str = "ring_yellow.tga";
/// Every texture the column draws with.
pub const TEXTURES: [&'static str; 1] = [TEXTURE];
/// The STR played beside the column.
pub const STR_OVERLAY: &'static str = "providence";
/// Life of the column in 60 fps frames.
pub const TOTAL_FRAMES: u32 = 200;
/// [`TOTAL_FRAMES`] in milliseconds.
pub const TOTAL_DURATION_MS: u32 = 3333;
/// Peak alpha, 0..255 scale.
pub const PEAK_ALPHA: u32 = 120;
/// Ring radii, tenths of a world unit.
pub const SLOT_DISTANCE_TENTHS: [u32; 4] = [60, 65, 70, 75];
/// Ring rise angles, whole degrees (under 90°: the rings flare outward).
pub const SLOT_RISE_ANGLE_DEG: [u32; 4] = [83, 82, 81, 80];
/// Ring start turns, whole degrees.
pub const SLOT_ROT_START_DEG: [u32; 4] = [0, 90, 180, 270];
/// Ring height before scaling.
pub const MAX_HEIGHT: u32 = 120;

/// The column's fade: 14 frames in, 156 held, 30 out.
pub open spec fn providence_curve() -> FadeCurve {
    FadeCurve { fade_in: 14, hold: 156, fade_out: 30 }
}

/// The column's fade curve.
pub fn curve() -> (c: FadeCurve)
    ensures
        c == providence_curve(),
{
    FadeCurve { fade_in: 14, hold: 156, fade_out: 30 }
}

/// Alpha on frame `n`, in units of `1/(255 · 14 · 30)`.
pub fn alpha_at(n: u32) -> (r: u32)
    ensures
        r == PEAK_ALPHA * level_spec(providence_curve(), n as int),
        r <= PEAK_ALPHA * peak_level(providence_curve()),
{
    let level = curve().level_at(n);
    assert(level <= 14 * 30);
    PEAK_ALPHA * level as u32
}

/// Turn of the column on frame `n`, half-degrees within one turn.
pub fn spin_half_deg_at(n: u32) -> (r: u32)
    ensures
        r == (3 * n as int) % 720,
{
    ((3 * n as u64) % 720) as u32
}

/// `Dead` once 200 frames have passed.
pub fn status_at(n: u32) -> (s: EffectStatus)
    ensures
        s == (if n >= TOTAL_FRAMES { EffectStatus::Dead } else { EffectStatus::Running }),
{
    if n >= TOTAL_FRAMES { EffectStatus::Dead } else { EffectStatus::Running }
}

/// Alpha `n` ticks in at `ticks` ticks a frame, in units of
/// `1/(255 · 14 · 30 · ticks)`.
pub fn alpha_in_ticks(n: u32, ticks: u32) -> (r: u128)
    requires
        ticks >= 1,
    ensures
        r == PEAK_ALPHA * level_ticks_spec(providence_curve(), n as int, ticks as int),
        r <= PEAK_ALPHA * peak_level(providence_curve()) * ticks,
{
    let c = curve();
    let level = c.level_in_ticks(n, ticks);
    assert(peak_level(c) == 420);
    assert(level <= 420 * (ticks as int));
    PEAK_ALPHA as u128 * level
}

/// Turn of the column `n` ticks in at `ticks` ticks a frame, in `1/ticks`
/// of a half-degree within one turn.
pub fn spin_in_ticks(n: u32, ticks: u32) -> (r: u64)
    requires
        ticks >= 1,
    ensures
        r == (3 * n as int) % (720 * ticks as int),
{
    (3 * n as u64) % (720 * ticks as u64)
}

/// `Dead` once 200 frames have passed, `n` ticks in at `ticks` ticks a
/// frame.
pub fn status_in_ticks(n: u32, ticks: u32) -> (s: EffectStatus)
    ensures
        s == (if n >= TOTAL_FRAMES * ticks { EffectStatus::Dead } else { EffectStatus::Running }),
{
    curve().status_in_ticks(n, ticks)
}

/// The column lives exactly as long as its fade curve.
pub proof fn column_lives_as_long_as_its_curve()
    ensures
        crate::temp_result::life_frames(providence_curve()) == TOTAL_FRAMES,
{
}

} // verus!
