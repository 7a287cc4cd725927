//! `EF_TURNUNDEAD` — the two-phase burst of Turn Undead / Impositio Manus.
//!
//! * Phase 1 (frames 0–19): a shrinking `alpha_down.tga` halo disc (radius
//!   10 falling linearly to 0 over 20 frames; alpha to 130 of 255 over 6
//!   frames, falling from frame 10) and five shrinking rays — a
//!   [`crate::spike_burst`] of 5 spikes over 20 frames.
//! * Phase 2 (frames 50–79): a flat `ring_liner.tga` ground ring whose
//!   half-extent grows `1.5 + 0.075·n` per frame for 15 frames and then
//!   `0.5 − n/30` per frame, at half scale; its alpha (to 150 of 255)
//!   rises in one frame and falls from its frame 20.
//!
//! The effect ends at frame 80. Radii, extents and alphas here are exact:
//! the halo radius in halves, the ring's half-extent in 480ths, alphas as
//! levels of the fade curves of [`crate::spike_burst`]. Time may be counted
//! in ticks, a caller-chosen `1/ticks` of a frame, so fractional frame
//! counts are kept exactly (the halo radius then in `1/(2·ticks)`, the
//! half-extent in `1/(480·ticks²)`).
use vstd::prelude::*;
use crate::draw::EffectStatus;
use crate::spike_burst::{
    AlphaFraction, SpikeBurstParams, alpha_in_ticks, alpha_level_spec, fall_den_ticks, fall_ticks, params_wf, alpha_level,
    default_fade_out_start, rise_den_ticks, rise_ticks,
};

verus! {

/// The halo texture.
pub const HALO_TEXTURE: &'static str = "alpha_down.tga";
/// The ring texture.
pub const RING_TEXTURE: &'static str = "ring_liner.tga";
/// Every texture the burst draws with.
pub const TEXTURES: [&'static str; 3] = [HALO_TEXTURE, RING_TEXTURE, "alpha_center.tga"];
/// Frames of phase 1.
pub const PHASE1_DURATION_FRAMES: u32 = 20;
/// Frame the ring spawns on.
pub const RING_SPAWN_FRAME: u32 = 50;
/// Frames the ring lives.
pub const RING_DURATION_FRAMES: u32 = 30;
/// Frame the burst ends on.
pub const TOTAL_FRAMES: u32 = 80;
/// [`TOTAL_FRAMES`] in milliseconds.
pub const TOTAL_DURATION_MS: u32 = 1333;

/// The five shrinking rays: 20 frames, in over 10, out from frame 13⅓.
#[allow(non_snake_case)]
pub fn SPIKES() -> (p: SpikeBurstParams)
    ensures
        params_wf(p),
        p == (SpikeBurstParams { count: 5, duration_frames: 20, fade_in_frames: 10, fade_out_start_thirds: 40, change_growth: false }),
{
    SpikeBurstParams {
        count: 5,
        duration_frames: PHASE1_DURATION_FRAMES,
        fade_in_frames: 10,
        fade_out_start_thirds: default_fade_out_start(PHASE1_DURATION_FRAMES),
        change_growth: false,
    }
}

/// The halo's fade: 20 frames, in over 6, out from frame 10.
pub open spec fn halo_curve() -> SpikeBurstParams {
    SpikeBurstParams { count: 1, duration_frames: 20, fade_in_frames: 6, fade_out_start_thirds: 30, change_growth: false }
}

/// The ring's fade: 30 frames, in over 1, out from frame 20.
pub open spec fn ring_curve() -> SpikeBurstParams {
    SpikeBurstParams { count: 1, duration_frames: 30, fade_in_frames: 1, fade_out_start_thirds: 60, change_growth: false }
}

/// The halo's radius on frame `f`, halves of a world unit.
pub open spec fn halo_radius_spec(f: int) -> int {
    if f < PHASE1_DURATION_FRAMES { PHASE1_DURATION_FRAMES - f } else { 0 }
}

/// The ring's half-extent `n` frames after it spawns, 480ths of a world
/// unit.
pub open spec fn ring_half_extent_spec(n: int) -> int {
    if n <= 15 {
        3 * (120 * n + 3 * n * (n + 1))
    } else {
        let g = n - 15;
        7560 + 120 * g - 4 * g * (g + 1)
    }
}

/// The halo on frame `f`: its radius in halves and its alpha level (of
/// `6 · 30`), or `None` when it is not drawn.
pub fn halo_at(f: u32) -> (r: Option<(u32, u64)>)
    ensures
        r == (if f < PHASE1_DURATION_FRAMES && alpha_level_spec(halo_curve(), f as int) > 0 {
            Some((halo_radius_spec(f as int) as u32, alpha_level_spec(halo_curve(), f as int) as u64))
        } else {
            None
        }),
{
    if f >= PHASE1_DURATION_FRAMES {
        return None;
    }
    let curve = SpikeBurstParams { count: 1, duration_frames: 20, fade_in_frames: 6, fade_out_start_thirds: 30, change_growth: false };
    let a = alpha_level(&curve, f);
    if a > 0 { Some((PHASE1_DURATION_FRAMES - f, a as u64)) } else { None }
}

/// The ring on frame `f`: its half-extent in 480ths and its alpha level (of
/// `1 · 30`), or `None` outside its life or when dark.
pub fn ring_at(f: u32) -> (r: Option<(u32, u64)>)
    ensures
        r == (if RING_SPAWN_FRAME <= f < RING_SPAWN_FRAME + RING_DURATION_FRAMES
            && alpha_level_spec(ring_curve(), f - RING_SPAWN_FRAME) > 0 {
            Some((ring_half_extent_spec(f - RING_SPAWN_FRAME) as u32, alpha_level_spec(ring_curve(), f - RING_SPAWN_FRAME) as u64))
        } else {
            None
        }),
{
    if f < RING_SPAWN_FRAME || f >= RING_SPAWN_FRAME + RING_DURATION_FRAMES {
        return None;
    }
    let n = f - RING_SPAWN_FRAME;
    let curve = SpikeBurstParams { count: 1, duration_frames: 30, fade_in_frames: 1, fade_out_start_thirds: 60, change_growth: false };
    let a = alpha_level(&curve, n);
    if a == 0 {
        return None;
    }
    let ext: u32 = if n <= 15 {
        proof {
            assert(3 * n * (n + 1) <= 720) by (nonlinear_arith)
                requires
                    n <= 15,
            ;
        }
        3 * (120 * n + 3 * n * (n + 1))
    } else {
        let g = n - 15;
        proof {
            assert(4 * g * (g + 1) <= 120 * g) by (nonlinear_arith)
                requires
                    1 <= g < 15,
            ;
        }
        7560 + 120 * g - 4 * g * (g + 1)
    };
    Some((ext, a as u64))
}

/// `Dead` once 80 frames have passed.
pub fn status_at(f: u32) -> (s: EffectStatus)
    ensures
        s == (if f >= TOTAL_FRAMES { EffectStatus::Dead } else { EffectStatus::Running }),
{
    if f >= TOTAL_FRAMES { EffectStatus::Dead } else { EffectStatus::Running }
}

/// Largest tick resolution the burst accepts: the ring's half-extent, kept
/// in `1/(480·ticks²)`, must fit a `u64`.
pub const MAX_TICKS_PER_FRAME: u32 = 20_000_000;

/// The exact alpha of curve `p` `n` ticks in at `t` ticks a frame.
pub open spec fn curve_alpha(p: SpikeBurstParams, n: int, t: int) -> AlphaFraction {
    AlphaFraction {
        rise: rise_ticks(p, n, t) as u128,
        rise_den: rise_den_ticks(p, t) as u128,
        fall: fall_ticks(p, n, t) as u128,
        fall_den: fall_den_ticks(p, t) as u128,
    }
}

/// The ring's half-extent `m` ticks after it spawns at `t` ticks a frame,
/// `1/(480·t²)` of a world unit.
pub open spec fn ring_half_extent_ticks_spec(m: int, t: int) -> int {
    if m <= 15 * t {
        360 * m * t + 9 * m * (m + t)
    } else {
        let g = m - 15 * t;
        7560 * t * t + 120 * g * t - 4 * g * (g + t)
    }
}

/// The halo `n` ticks in at `ticks` ticks a frame: its radius in
/// `1/(2·ticks)` and its exact alpha, or `None` when it is not drawn.
pub fn halo_in_ticks(n: u32, ticks: u32) -> (r: Option<(u64, AlphaFraction)>)
    requires
        1 <= ticks <= MAX_TICKS_PER_FRAME,
    ensures
        r == (if n < PHASE1_DURATION_FRAMES * ticks && rise_ticks(halo_curve(), n as int, ticks as int) > 0
            && fall_ticks(halo_curve(), n as int, ticks as int) > 0 {
            Some(((PHASE1_DURATION_FRAMES * ticks - n) as u64, curve_alpha(halo_curve(), n as int, ticks as int)))
        } else {
            None
        }),
{
    let t = ticks as u64;
    if n as u64 >= 20 * t {
        return None;
    }
    let curve = SpikeBurstParams { count: 1, duration_frames: 20, fade_in_frames: 6, fade_out_start_thirds: 30, change_growth: false };
    let a = alpha_in_ticks(&curve, n, ticks);
    if a.rise > 0 && a.fall > 0 { Some((20 * t - n as u64, a)) } else { None }
}

/// The ring `n` ticks in at `ticks` ticks a frame: its half-extent in
/// `1/(480·ticks²)` and its exact alpha, or `None` outside its life or when
/// dark.
pub fn ring_in_ticks(n: u32, ticks: u32) -> (r: Option<(u64, AlphaFraction)>)
    requires
        1 <= ticks <= MAX_TICKS_PER_FRAME,
    ensures
        r == (if RING_SPAWN_FRAME * ticks <= n < (RING_SPAWN_FRAME + RING_DURATION_FRAMES) * ticks
            && rise_ticks(ring_curve(), n - RING_SPAWN_FRAME * ticks, ticks as int) > 0
            && fall_ticks(ring_curve(), n - RING_SPAWN_FRAME * ticks, ticks as int) > 0 {
            Some((ring_half_extent_ticks_spec(n - RING_SPAWN_FRAME * ticks, ticks as int) as u64,
                curve_alpha(ring_curve(), n - RING_SPAWN_FRAME * ticks, ticks as int)))
        } else {
            None
        }),
{
    let t = ticks as u64;
    let nn = n as u64;
    if nn < 50 * t || nn >= 80 * t {
        return None;
    }
    let m = nn - 50 * t;
    let curve = SpikeBurstParams { count: 1, duration_frames: 30, fade_in_frames: 1, fade_out_start_thirds: 60, change_growth: false };
    let a = alpha_in_ticks(&curve, m as u32, ticks);
    if a.rise == 0 || a.fall == 0 {
        return None;
    }
    proof {
        assert(t * t <= 400_000_000_000_000) by (nonlinear_arith)
            requires
                1 <= t <= 20_000_000,
        ;
    }
    let ext: u64 = if m <= 15 * t {
        proof {
            assert(360 * m * t + 9 * m * (m + t) <= 20000 * (t * t)) by (nonlinear_arith)
                requires
                    m <= 15 * t,
            ;
        }
        360 * m * t + 9 * m * (m + t)
    } else {
        let g = m - 15 * t;
        proof {
            assert(4 * g * (g + t) <= 120 * g * t) by (nonlinear_arith)
                requires
                    g < 15 * t,
            ;
            assert(7560 * t * t + 120 * g * t <= 20000 * (t * t)) by (nonlinear_arith)
                requires
                    g < 15 * t,
            ;
        }
        7560 * t * t + 120 * g * t - 4 * g * (g + t)
    };
    Some((ext, a))
}

/// `Dead` once 80 frames have passed, `n` ticks in at `ticks` ticks a
/// frame.
pub fn status_in_ticks(n: u32, ticks: u32) -> (s: EffectStatus)
    ensures
        s == (if n >= TOTAL_FRAMES * ticks { EffectStatus::Dead } else { EffectStatus::Running }),
{
    if n as u64 >= 80 * ticks as u64 { EffectStatus::Dead } else { EffectStatus::Running }
}

/// At any tick resolution the ring's half-extent never shrinks through its
/// frame 29½ (its growth, slowing after frame 15, stops there), and it is
/// lit from its first moment to its end.
pub proof fn ring_grows_while_lit_in_ticks(a: int, b: int, t: int)
    requires
        0 <= a <= b < RING_DURATION_FRAMES * t,
        2 * b <= 59 * t,
        t >= 1,
    ensures
        ring_half_extent_ticks_spec(a, t) <= ring_half_extent_ticks_spec(b, t),
        0 < b ==> rise_ticks(ring_curve(), b, t) > 0 && fall_ticks(ring_curve(), b, t) > 0,
{
    crate::spike_burst::burst_lit_inside_its_life_in_ticks(ring_curve(), b, t);
    if b <= 15 * t {
        assert(360 * a * t + 9 * a * (a + t) <= 360 * b * t + 9 * b * (b + t)) by (nonlinear_arith)
            requires
                0 <= a <= b,
                t >= 1,
        ;
    } else if a <= 15 * t {
        assert(360 * a * t + 9 * a * (a + t) <= 7560 * t * t) by (nonlinear_arith)
            requires
                0 <= a <= 15 * t,
                t >= 1,
        ;
        let g = b - 15 * t;
        assert(4 * g * (g + t) <= 120 * g * t) by (nonlinear_arith)
            requires
                0 <= g < 15 * t,
        ;
    } else {
        let ga = a - 15 * t;
        let gb = b - 15 * t;
        assert(120 * ga * t - 4 * ga * (ga + t) <= 120 * gb * t - 4 * gb * (gb + t)) by (nonlinear_arith)
            requires
                0 <= ga <= gb,
                2 * gb <= 29 * t,
        ;
    }
}

/// The two phases never overlap: nothing of phase 1 is drawn from frame 20
/// on, the ring is drawn exactly on frames 51–79 (it rises in its first
/// frame) and only grows while it lives.
pub proof fn phases_take_turns(f: int, a: int, b: int)
    requires
        f >= 0,
        0 <= a <= b < RING_DURATION_FRAMES,
    ensures
        f >= PHASE1_DURATION_FRAMES ==> halo_radius_spec(f) == 0,
        0 < a ==> alpha_level_spec(ring_curve(), a) > 0,
        alpha_level_spec(ring_curve(), 0) == 0,
        ring_half_extent_spec(a) <= ring_half_extent_spec(b),
{
    crate::spike_burst::burst_lit_inside_its_life(ring_curve(), a);
    crate::spike_burst::burst_lit_inside_its_life(ring_curve(), 0);
    lemma_ring_grows(a, b);
}

/// The ring's half-extent never shrinks over its life.
proof fn lemma_ring_grows(a: int, b: int)
    requires
        0 <= a <= b < RING_DURATION_FRAMES,
    ensures
        ring_half_extent_spec(a) <= ring_half_extent_spec(b),
{
    if b <= 15 {
        assert(3 * (120 * a + 3 * a * (a + 1)) <= 3 * (120 * b + 3 * b * (b + 1))) by (nonlinear_arith)
            requires
                0 <= a <= b,
        ;
    } else if a <= 15 {
        assert(3 * (120 * a + 3 * a * (a + 1)) <= 7560) by (nonlinear_arith)
            requires
                0 <= a <= 15,
        ;
        let g = b - 15;
        assert(4 * g * (g + 1) <= 120 * g) by (nonlinear_arith)
            requires
                0 <= g < 15,
        ;
    } else {
        let ga = a - 15;
        let gb = b - 15;
        assert(120 * ga - 4 * ga * (ga + 1) <= 120 * gb - 4 * gb * (gb + 1)) by (nonlinear_arith)
            requires
                0 <= ga <= gb < 15,
        ;
    }
}

} // verus!
