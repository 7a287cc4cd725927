//! `PP_SLASH1` — radial "slash blade" burst, launched by `EF_KAIZEL`.
//!
//! Kaizel fires two sets of four blades (`RotStart = set + ec·90`), eight
//! blades at 45° steps, each drawn as three slices one degree apart. Per
//! frame a blade's inner radius grows by 1, its length by
//! `distance_per_frame`, its height toward a cap; its alpha ramps `+5` per
//! frame over the first `alpha_rise_frames`, and once the inner radius has
//! passed 10 (frame 9) it fades `−2` per frame. The burst ends when the
//! alpha has run out.
//!
//! This module holds the blade state on whole 60 fps frames and at any tick
//! resolution (a tick being a caller-chosen `1/ticks` of a frame, every
//! quantity then in `1/ticks` of its unit, so fractional frame counts are
//! kept exactly), and how each of its slices is drawn; heights are in
//! tenths of a world unit.
use vstd::prelude::*;
use crate::draw::EffectStatus;

verus! {

pub const TEXTURE: &'static str = "magic_blue.tga";
pub const TEXTURES: [&'static str; 1] = ["magic_blue.tga"];
/// Blades per set.
pub const EMITTERS_PER_SET: u32 = 4;
/// Slices per blade.
pub const SLICES: u32 = 3;
/// Alpha gained per frame while ramping, `0..=255` units.
pub const ALPHA_PER_FRAME: u32 = 5;
/// Alpha lost per frame while fading.
pub const ALPHA_FADE_PER_FRAME: u32 = 2;
/// Frame after which a blade fades (its inner radius has passed 10).
pub const FADE_START_FRAME: u32 = 9;
/// The dispatcher's budget, ms.
pub const TOTAL_DURATION_MS: u32 = 450;

/// Integer parameters of one burst.
#[derive(Clone, Copy, Debug)]
pub struct SlashParams {
    /// `RotStart` of each set, degrees.
    pub emitter_sets_deg: [u32; 2],
    /// Blade length gained per frame, world units.
    pub distance_per_frame: u32,
    /// Height cap, tenths of a unit.
    pub max_height_cap_tenths: u32,
    /// Height gained per frame, tenths of a unit.
    pub max_height_per_frame_tenths: u32,
    /// Frames over which the alpha ramps up.
    pub alpha_rise_frames: u32,
}

/// `EF_KAIZEL`'s burst: sets at 0° and 45°.
#[allow(non_snake_case)]
pub fn KAIZEL() -> (p: SlashParams)
    ensures
        p == (SlashParams { emitter_sets_deg: [0u32, 45u32], distance_per_frame: 2, max_height_cap_tenths: 40,
            max_height_per_frame_tenths: 4, alpha_rise_frames: 7 }),
{
    SlashParams { emitter_sets_deg: [0, 45], distance_per_frame: 2, max_height_cap_tenths: 40,
        max_height_per_frame_tenths: 4, alpha_rise_frames: 7 }
}

/// Peak alpha: `5 * alpha_rise_frames`.
pub open spec fn peak_alpha(p: SlashParams) -> int {
    ALPHA_PER_FRAME * p.alpha_rise_frames
}

/// Alpha on frame `t`: the ramp (capped at the peak) minus the fade.
pub open spec fn slash_alpha_at(p: SlashParams, t: int) -> int {
    let rise = if ALPHA_PER_FRAME * t < peak_alpha(p) { ALPHA_PER_FRAME * t } else { peak_alpha(p) };
    let fade = if t > FADE_START_FRAME { ALPHA_FADE_PER_FRAME * (t - FADE_START_FRAME) } else { 0 };
    if rise - fade > 0 { rise - fade } else { 0 }
}

/// Twice the frame on which the burst ends: `2 * 9 + peak` (the end may fall
/// on a half frame).
pub open spec fn life_end_halves(p: SlashParams) -> int {
    2 * FADE_START_FRAME + peak_alpha(p)
}

/// Parameters the arithmetic is defined for.
pub open spec fn params_ok(p: SlashParams) -> bool {
    &&& p.alpha_rise_frames <= 1000
    &&& p.distance_per_frame <= 1000
    &&& p.max_height_per_frame_tenths <= 1000
}

impl SlashParams {
    /// Blade alpha on whole frame `t`, `0..=255` units.
    pub fn alpha_b(&self, t: u32) -> (r: u32)
        requires
            params_ok(*self),
        ensures
            r == slash_alpha_at(*self, t as int),
    {
        let peak = ALPHA_PER_FRAME * self.alpha_rise_frames;
        let rise: u64 = if (t as u64) * 5 < peak as u64 { t as u64 * 5 } else { peak as u64 };
        let fade: u64 = if t > FADE_START_FRAME { 2 * (t - FADE_START_FRAME) as u64 } else { 0 };
        if rise > fade { (rise - fade) as u32 } else { 0 }
    }

    /// Inner radius on whole frame `t`, world units: `1 + t`.
    pub fn radius(&self, t: u32) -> (r: u64)
        ensures
            r == 1 + t,
    {
        1 + t as u64
    }

    /// Blade length on whole frame `t`, world units.
    pub fn distance(&self, t: u32) -> (r: u64)
        requires
            params_ok(*self),
        ensures
            r == 2 + self.distance_per_frame * t,
    {
        proof {
            assert(self.distance_per_frame * t <= 1000 * 0xFFFF_FFFF) by (nonlinear_arith)
                requires self.distance_per_frame <= 1000, t <= 0xFFFF_FFFF;
        }
        2 + self.distance_per_frame as u64 * t as u64
    }

    /// Blade height on whole frame `t`, tenths of a unit: `15` growing toward
    /// the cap.
    pub fn max_height_tenths(&self, t: u32) -> (r: u64)
        requires
            params_ok(*self),
        ensures
            r == (if 15 + self.max_height_per_frame_tenths * t < self.max_height_cap_tenths {
                15 + self.max_height_per_frame_tenths * t
            } else {
                self.max_height_cap_tenths as int
            }),
    {
        proof {
            assert(self.max_height_per_frame_tenths * t <= 1000 * 0xFFFF_FFFF) by (nonlinear_arith)
                requires self.max_height_per_frame_tenths <= 1000, t <= 0xFFFF_FFFF;
        }
        let h = 15 + self.max_height_per_frame_tenths as u64 * t as u64;
        if h < self.max_height_cap_tenths as u64 { h } else { self.max_height_cap_tenths as u64 }
    }

    /// `Dead` once the fade has run out (whole frames past the end).
    pub fn status_at(&self, t: u32) -> (s: EffectStatus)
        requires
            params_ok(*self),
        ensures
            s == (if 2 * t >= life_end_halves(*self) { EffectStatus::Dead } else { EffectStatus::Running }),
    {
        if 2 * (t as u64) >= 2 * FADE_START_FRAME as u64 + (ALPHA_PER_FRAME * self.alpha_rise_frames) as u64 {
            EffectStatus::Dead
        } else {
            EffectStatus::Running
        }
    }

    /// Blade alpha `q` ticks in at `ticks` ticks a frame, in `1/ticks` of a
    /// `0..=255` unit.
    pub fn alpha_in_ticks(&self, q: u32, ticks: u32) -> (r: u64)
        requires
            params_ok(*self),
        ensures
            r == ({
                let t = ticks as int;
                let rise = if ALPHA_PER_FRAME * q < peak_alpha(*self) * t { ALPHA_PER_FRAME * q } else { peak_alpha(*self) * t };
                let fade = if q > FADE_START_FRAME * t { ALPHA_FADE_PER_FRAME * (q - FADE_START_FRAME * t) } else { 0 };
                if rise - fade > 0 { rise - fade } else { 0 }
            }),
    {
        let t = ticks as u64;
        let peak = (ALPHA_PER_FRAME * self.alpha_rise_frames) as u64;
        proof {
            assert(peak * t <= 5000 * 0xFFFF_FFFFu64) by (nonlinear_arith)
                requires peak <= 5000, t <= 0xFFFF_FFFF;
        }
        let rise: u64 = if (q as u64) * 5 < peak * t { q as u64 * 5 } else { peak * t };
        let fade: u64 = if q as u64 > 9 * t { 2 * (q as u64 - 9 * t) } else { 0 };
        if rise > fade { rise - fade } else { 0 }
    }

    /// Inner radius, blade length and height `q` ticks in at `ticks` ticks
    /// a frame, each in `1/ticks` of its unit (world units, world units,
    /// tenths of a unit).
    pub fn shape_in_ticks(&self, q: u32, ticks: u32) -> (r: (u64, u64, u64))
        requires
            params_ok(*self),
        ensures
            r.0 == ticks + q,
            r.1 == 2 * ticks + self.distance_per_frame * q,
            r.2 == (if 15 * ticks + self.max_height_per_frame_tenths * q < self.max_height_cap_tenths * ticks {
                15 * ticks + self.max_height_per_frame_tenths * q
            } else {
                self.max_height_cap_tenths * ticks
            }),
    {
        let t = ticks as u64;
        proof {
            assert(self.distance_per_frame * q <= 1000 * 0xFFFF_FFFFu64
                && self.max_height_per_frame_tenths * q <= 1000 * 0xFFFF_FFFFu64
                && self.max_height_cap_tenths * t <= 0xFFFF_FFFF * 0xFFFF_FFFFu64) by (nonlinear_arith)
                requires
                    self.distance_per_frame <= 1000,
                    self.max_height_per_frame_tenths <= 1000,
                    self.max_height_cap_tenths <= 0xFFFF_FFFF,
                    q <= 0xFFFF_FFFF,
                    t <= 0xFFFF_FFFF,
            ;
        }
        let h = 15 * t + self.max_height_per_frame_tenths as u64 * q as u64;
        let cap = self.max_height_cap_tenths as u64 * t;
        (t + q as u64, 2 * t + self.distance_per_frame as u64 * q as u64, if h < cap { h } else { cap })
    }

    /// `Dead` once the fade has run out, `q` ticks in at `ticks` ticks a
    /// frame.
    pub fn status_in_ticks(&self, q: u32, ticks: u32) -> (s: EffectStatus)
        requires
            params_ok(*self),
        ensures
            s == (if 2 * q >= life_end_halves(*self) * ticks { EffectStatus::Dead } else { EffectStatus::Running }),
    {
        let end = 2 * FADE_START_FRAME as u64 + (ALPHA_PER_FRAME * self.alpha_rise_frames) as u64;
        proof {
            assert(end * ticks <= 6000 * 0xFFFF_FFFFu64) by (nonlinear_arith)
                requires end <= 6000, ticks <= 0xFFFF_FFFF;
        }
        if 2 * (q as u64) >= end * ticks as u64 {
            EffectStatus::Dead
        } else {
            EffectStatus::Running
        }
    }

    /// Wall-clock length, ms, rounded up.
    pub fn total_duration_ms(&self) -> (r: u32)
        requires
            params_ok(*self),
        ensures
            r == (life_end_halves(*self) * 1000 + 119) / 120,
    {
        let halves: u32 = 2 * FADE_START_FRAME + ALPHA_PER_FRAME * self.alpha_rise_frames;
        (halves * 1000 + 119) / 120
    }
}

/// The blade is visible on every whole frame from 1 until the burst ends,
/// and its alpha is 0 from then on; the alpha never exceeds the peak.
pub proof fn blade_fades_exactly_when_burst_ends(p: SlashParams, t: int)
    requires
        params_ok(p),
        p.alpha_rise_frames >= 1,
        0 <= t,
    ensures
        slash_alpha_at(p, t) <= peak_alpha(p),
        1 <= t && 2 * t < life_end_halves(p) ==> slash_alpha_at(p, t) > 0,
        2 * t >= life_end_halves(p) ==> slash_alpha_at(p, t) == 0,
{
}

/// How one of a blade's three slices is drawn.
#[derive(Clone, Copy, Debug, PartialEq, Eq, Structural)]
pub struct SliceShape {
    /// Azimuth relative to the blade's `RotStart`, degrees.
    pub azimuth_offset_deg: i32,
    /// Alpha, in thirds of the blade's alpha.
    pub alpha_thirds: u32,
    /// Lift of the top edge at the inner radius, tenths of the height.
    pub lift_inner_tenths: u32,
    /// Lift of the top edge at the outer reach, tenths of the height.
    pub lift_outer_tenths: u32,
}

/// Slice `i` of a blade: the slices sit one degree apart around the blade's
/// azimuth; the middle one is the bright, tall one (full alpha, top lifted
/// to 0.2 and 1.0 of the height), the sides a third as bright and lower
/// (0.1 and 0.4). Each slice spans the inner radius to the outer reach
/// `radius + distance`.
pub fn slice_shape(i: u32) -> (r: SliceShape)
    requires
        i < SLICES,
    ensures
        r.azimuth_offset_deg == i - 1,
        r.alpha_thirds == (if i == 1 { 3int } else { 1int }),
        r.lift_inner_tenths == (if i == 1 { 2int } else { 1int }),
        r.lift_outer_tenths == (if i == 1 { 10int } else { 4int }),
{
    let mid = i == 1;
    SliceShape {
        azimuth_offset_deg: i as i32 - 1,
        alpha_thirds: if mid { 3 } else { 1 },
        lift_inner_tenths: if mid { 2 } else { 1 },
        lift_outer_tenths: if mid { 10 } else { 4 },
    }
}

/// The outer reach of a blade grows every frame: for frames `a < b` it is
/// strictly further out at `b`.
pub proof fn blade_flies_outward(p: SlashParams, a: int, b: int)
    requires
        0 <= a < b,
    ensures
        1 + a + 2 + p.distance_per_frame * a < 1 + b + 2 + p.distance_per_frame * b,
{
    assert(p.distance_per_frame * a <= p.distance_per_frame * b) by (nonlinear_arith)
        requires
            0 <= a < b,
            p.distance_per_frame >= 0,
    ;
}

} // verus!
