//! `EF_RAINBOW` — a rainbow arch: seven concentric colour bands (red to
//! violet, each 5% inside the one before) swept over 180° in 32 columns.
//!
//! The arch is drawn on: a front sweeps from one foot over to the other in
//! 80 frames, and each column fades in over the 18 frames after the front
//! passes its middle, up to alpha 160 of 255. The whole arch fades out over
//! the last 50 of its 180 frames.
//!
//! On whole frame `f`, column `i` (middle at `(i + ½)/32` of the sweep) is
//! passed once `4f > 5(2i + 1)`. Alphas here are kept exactly, in units of
//! `1/(255 · 72 · 50)` on whole frames, and at any tick resolution (a tick
//! being a caller-chosen `1/ticks` of a frame) in `1/(255 · 72 · 50 ·
//! ticks²)`; the arch's shape and its turn toward the camera are the
//! renderer's.
use vstd::prelude::*;
use crate::draw::EffectStatus;

verus! {

/// The band texture.
pub const ALPHA_CENTER_TEXTURE: &'static str = "alpha_center.tga";
/// Every texture the arch draws with.
pub const TEXTURES: [&'static str; 1] = [ALPHA_CENTER_TEXTURE];
/// Length of the arch in 60 fps frames.
pub const TOTAL_FRAMES: u32 = 180;
/// [`TOTAL_FRAMES`] in milliseconds.
pub const TOTAL_DURATION_MS: u32 = 3000;
/// Frames the front takes from foot to foot.
pub const SWEEP_FRAMES: u32 = 80;
/// Frames a column takes to fade in once passed.
pub const SEGMENT_RAMP_FRAMES: u32 = 18;
/// Frames of the closing fade.
pub const FADE_OUT_FRAMES: u32 = 50;
/// Peak alpha, 0..255 scale.
pub const PEAK_ALPHA: u32 = 160;
/// Columns of the arch.
pub const SEGMENTS: u32 = 32;
/// Bands of the arch.
pub const BANDS: u32 = 7;
/// Outer radius of the outermost band, hundredths of a world unit.
pub const BASE_RADIUS_HUNDREDTHS: u32 = 2600;
/// Full alpha in the units column alphas are given in: `255 · 72 · 50`.
pub const ALPHA_SCALE: u32 = 918000;
/// Band colours, outer (red) to inner (violet), 8-bit RGB.
pub const BAND_COLORS: [[u8; 3]; 7] = [
    [255, 0, 0],
    [255, 126, 0],
    [255, 255, 0],
    [0, 255, 0],
    [0, 0, 255],
    [115, 50, 200],
    [255, 0, 255],
];

/// The closing fade on frame `f`, in 50ths: 50 until frame 130, then one
/// less per frame to 0 at frame 180.
pub open spec fn fade_out_spec(f: int) -> int {
    if f < TOTAL_FRAMES - FADE_OUT_FRAMES {
        FADE_OUT_FRAMES as int
    } else if f >= TOTAL_FRAMES {
        0
    } else {
        TOTAL_FRAMES - f
    }
}

/// How far column `i` has faded in on frame `f`, in 72nds: 0 until the
/// front passes its middle, then 4 per frame up to 72.
pub open spec fn ramp_spec(f: int, i: int) -> int {
    let since4 = 4 * f - 5 * (2 * i + 1);
    if since4 <= 0 { 0 } else if since4 >= 4 * SEGMENT_RAMP_FRAMES { 72 } else { since4 }
}

/// Alpha of column `i` on frame `f`, in units of `1/918000`.
pub open spec fn column_alpha_spec(f: int, i: int) -> int {
    PEAK_ALPHA * ramp_spec(f, i) * fade_out_spec(f)
}

/// The closing fade on frame `f`, in 50ths.
pub fn fade_out(f: u32) -> (r: u32)
    ensures
        r == fade_out_spec(f as int),
{
    if f < TOTAL_FRAMES - FADE_OUT_FRAMES {
        FADE_OUT_FRAMES
    } else if f >= TOTAL_FRAMES {
        0
    } else {
        TOTAL_FRAMES - f
    }
}

/// Alpha of column `i` on frame `f`, in units of `1/918000`
/// ([`ALPHA_SCALE`] is full alpha).
pub fn column_alpha(f: u32, i: u32) -> (r: u32)
    requires
        i < SEGMENTS,
    ensures
        r == column_alpha_spec(f as int, i as int),
        r <= PEAK_ALPHA * 72 * 50,
{
    let since4: i64 = 4 * f as i64 - 5 * (2 * i as i64 + 1);
    let ramp: u32 = if since4 <= 0 {
        0
    } else if since4 >= 4 * SEGMENT_RAMP_FRAMES as i64 {
        72
    } else {
        since4 as u32
    };
    let fade = fade_out(f);
    proof {
        assert(ramp * fade <= 72 * 50) by (nonlinear_arith)
            requires
                ramp <= 72,
                fade <= 50,
        ;
    }
    proof {
        assert(PEAK_ALPHA * ramp * fade == PEAK_ALPHA * (ramp * fade)) by (nonlinear_arith);
    }
    PEAK_ALPHA * (ramp * fade)
}

/// Columns drawn on frame `f`: those with some alpha.
pub open spec fn lit_columns_spec(f: int) -> int {
    lit_prefix(f, SEGMENTS as int)
}

/// Columns among the first `n` with some alpha on frame `f`.
pub open spec fn lit_prefix(f: int, n: int) -> int
    decreases n,
{
    if n <= 0 {
        0
    } else {
        lit_prefix(f, n - 1) + (if column_alpha_spec(f, n - 1) > 0 { 1int } else { 0 })
    }
}

/// Columns drawn on frame `f`; each is drawn as seven band quads.
pub fn lit_columns(f: u32) -> (r: u32)
    ensures
        r == lit_columns_spec(f as int),
        r <= SEGMENTS,
{
    let mut n: u32 = 0;
    let mut i: u32 = 0;
    while i < SEGMENTS
        invariant
            i <= SEGMENTS,
            n == lit_prefix(f as int, i as int),
            n <= i,
        decreases SEGMENTS - i,
    {
        if column_alpha(f, i) > 0 {
            n = n + 1;
        }
        i = i + 1;
    }
    n
}

/// Outer and inner radius of band `band`, hundredths of a world unit: each
/// band 5% of the base radius inside the one before.
pub fn band_radii(band: u32) -> (r: (u32, u32))
    requires
        band < BANDS,
    ensures
        r.0 == BASE_RADIUS_HUNDREDTHS - 130 * band,
        r.1 == BASE_RADIUS_HUNDREDTHS - 130 * (band + 1),
{
    (BASE_RADIUS_HUNDREDTHS - 130 * band, BASE_RADIUS_HUNDREDTHS - 130 * (band + 1))
}

/// `Dead` once 180 frames have passed.
pub fn status_at(f: u32) -> (s: EffectStatus)
    ensures
        s == (if f >= TOTAL_FRAMES { EffectStatus::Dead } else { EffectStatus::Running }),
{
    if f >= TOTAL_FRAMES { EffectStatus::Dead } else { EffectStatus::Running }
}

/// The closing fade `n` ticks in at `t` ticks a frame, in `1/(50·t)`.
pub open spec fn fade_out_ticks_spec(n: int, t: int) -> int {
    if n < (TOTAL_FRAMES - FADE_OUT_FRAMES) * t {
        FADE_OUT_FRAMES * t
    } else if n >= TOTAL_FRAMES * t {
        0
    } else {
        TOTAL_FRAMES * t - n
    }
}

/// How far column `i` has faded in `n` ticks in at `t` ticks a frame, in
/// `1/(72·t)`.
pub open spec fn ramp_ticks_spec(n: int, i: int, t: int) -> int {
    let since4 = 4 * n - 5 * (2 * i + 1) * t;
    if since4 <= 0 { 0 } else if since4 >= 4 * SEGMENT_RAMP_FRAMES * t { 72 * t } else { since4 }
}

/// Alpha of column `i` `n` ticks in at `t` ticks a frame, in units of
/// `1/(918000·t²)`.
pub open spec fn column_alpha_ticks_spec(n: int, i: int, t: int) -> int {
    PEAK_ALPHA * ramp_ticks_spec(n, i, t) * fade_out_ticks_spec(n, t)
}

/// Alpha of column `i` `n` ticks in at `ticks` ticks a frame.
pub fn column_alpha_in_ticks(n: u32, i: u32, ticks: u32) -> (r: u128)
    requires
        i < SEGMENTS,
    ensures
        r == column_alpha_ticks_spec(n as int, i as int, ticks as int),
{
    let t = ticks as u128;
    let n = n as u128;
    let c = (5 * (2 * i + 1)) as u128;
    proof {
        assert(c * t <= 315 * 0xffff_ffffu128) by (nonlinear_arith)
            requires
                c <= 315,
                t <= 0xffff_ffff,
        ;
    }
    let k = c * t;
    let ramp: u128 = if 4 * n <= k {
        0
    } else if 4 * n - k >= 72 * t {
        72 * t
    } else {
        4 * n - k
    };
    let fade: u128 = if n < 130 * t {
        50 * t
    } else if n >= 180 * t {
        0
    } else {
        180 * t - n
    };
    proof {
        assert(k == 5 * (2 * i + 1) * t) by (nonlinear_arith)
            requires
                k == c * t,
                c == 5 * (2 * i + 1),
        ;
        assert(ramp * fade <= 72 * t * (50 * t)) by (nonlinear_arith)
            requires
                ramp <= 72 * t,
                fade <= 50 * t,
        ;
        assert(72 * t * (50 * t) <= 3600 * 0xffff_ffff * 0xffff_ffffu128) by (nonlinear_arith)
            requires
                t <= 0xffff_ffff,
        ;
        assert(PEAK_ALPHA * ramp * fade == PEAK_ALPHA * (ramp * fade)) by (nonlinear_arith);
    }
    160 * (ramp * fade)
}

/// `Dead` once 180 frames have passed, `n` ticks in at `ticks` ticks a
/// frame.
pub fn status_in_ticks(n: u32, ticks: u32) -> (s: EffectStatus)
    ensures
        s == (if n >= TOTAL_FRAMES * ticks { EffectStatus::Dead } else { EffectStatus::Running }),
{
    if n as u64 >= 180 * ticks as u64 { EffectStatus::Dead } else { EffectStatus::Running }
}

/// At any tick resolution column `i` is lit exactly when the front has
/// passed its middle and the arch has not ended: `5(2i + 1)·t < 4n < 720·t`.
pub proof fn column_lit_iff_passed_in_ticks(n: int, i: int, t: int)
    requires
        0 <= i < SEGMENTS,
        n >= 0,
        t >= 1,
    ensures
        column_alpha_ticks_spec(n, i, t) > 0 <==> (5 * (2 * i + 1) * t < 4 * n && n < TOTAL_FRAMES * t),
{
    let r = ramp_ticks_spec(n, i, t);
    let d = fade_out_ticks_spec(n, t);
    if r > 0 && d > 0 {
        assert(PEAK_ALPHA * r * d > 0) by (nonlinear_arith)
            requires
                r > 0,
                d > 0,
        ;
    } else {
        assert(PEAK_ALPHA * r * d == 0) by (nonlinear_arith)
            requires
                r == 0 || d == 0,
        ;
    }
    assert(130 * t < 180 * t) by (nonlinear_arith)
        requires
            t >= 1,
    ;
}

/// Column `i` is lit on frame `f` exactly when the front has passed its
/// middle and the arch has not ended: `5(2i + 1) < 4f < 720`.
pub proof fn column_lit_iff_passed(f: int, i: int)
    requires
        0 <= i < SEGMENTS,
        f >= 0,
    ensures
        column_alpha_spec(f, i) > 0 <==> (5 * (2 * i + 1) < 4 * f && f < TOTAL_FRAMES),
{
    let r = ramp_spec(f, i);
    let d = fade_out_spec(f);
    if r > 0 && d > 0 {
        assert(r * d > 0) by (nonlinear_arith)
            requires
                r > 0,
                d > 0,
        ;
        assert(PEAK_ALPHA * (r * d) > 0) by (nonlinear_arith)
            requires
                r * d > 0,
        ;
        assert(PEAK_ALPHA * r * d == PEAK_ALPHA * (r * d)) by (nonlinear_arith);
    } else {
        assert(r * d == 0) by (nonlinear_arith)
            requires
                r == 0 || d == 0,
        ;
        assert(PEAK_ALPHA * r * d == PEAK_ALPHA * (r * d)) by (nonlinear_arith);
    }
}

/// The arch draws on column by column: once the front has passed a column it
/// stays lit until the arch ends, so the lit set only grows until the
/// closing fade; the whole arch is lit from frame 80 to frame 179 and none
/// of it from frame 180.
pub proof fn arch_draws_on_and_fades(f1: int, f2: int, i: int)
    requires
        0 <= i < SEGMENTS,
        0 <= f1 <= f2 < TOTAL_FRAMES,
    ensures
        column_alpha_spec(f1, i) > 0 ==> column_alpha_spec(f2, i) > 0,
        f2 >= SWEEP_FRAMES ==> column_alpha_spec(f2, i) > 0,
        column_alpha_spec(TOTAL_FRAMES as int + f1, i) == 0,
        column_alpha_spec(f2, i) <= PEAK_ALPHA * 72 * 50,
{
    column_lit_iff_passed(f1, i);
    column_lit_iff_passed(f2, i);
    column_lit_iff_passed(TOTAL_FRAMES + f1, i);
    let r = ramp_spec(f2, i);
    let d = fade_out_spec(f2);
    assert(r * d <= 72 * 50) by (nonlinear_arith)
        requires
            0 <= r <= 72,
            0 <= d <= 50,
    ;
    assert(PEAK_ALPHA * r * d == PEAK_ALPHA * (r * d)) by (nonlinear_arith);
}

} // verus!
