//! `EF_SONICBLOWHIT` — one horizontal impact cone fired at the target on a
//! hit: a `magic_red.tga` cylinder (inner radius 4, outer 7, 3.5 long)
//! laid along the strike heading at chest height.
//!
//! The cone slides along the heading with a speed of 0.4 per frame that
//! decelerates linearly to half over its 12 frames, so after `n` frames it
//! has slid `0.4 · (n − n(n + 1)/48)`. It is fully opaque for 6 frames and
//! then fades linearly to nothing at frame 12.
//!
//! Everything here is exact on whole frames (the slide in 120ths of a world
//! unit, alpha in sixths of full) and at any tick resolution, a tick being
//! a caller-chosen `1/ticks` of a frame (the slide in `1/(120·ticks²)`,
//! alpha in `1/(6·ticks)`), so fractional frame counts are kept exactly. The heading and the cone's placement are
//! the renderer's.
use vstd::prelude::*;
use crate::draw::EffectStatus;

verus! {

/// The cone texture.
pub const RING_TEXTURE: &'static str = "magic_red.tga";
/// Every texture the cone draws with.
pub const TEXTURES: [&'static str; 1] = [RING_TEXTURE];
/// Life of the cone in 60 fps frames.
pub const CYLINDER_LIFETIME_FRAMES: u32 = 12;
/// Frame the fade starts on.
pub const FADE_OUT_START_FRAME: u32 = 6;
/// [`CYLINDER_LIFETIME_FRAMES`] in milliseconds.
pub const TOTAL_DURATION_MS: u32 = 200;
/// Inner radius of the cone, world units.
pub const CYLINDER_INNER: u32 = 4;
/// Outer radius of the cone, world units.
pub const CYLINDER_OUTER: u32 = 7;
/// Height offset of the cone's pivot above the target's feet, world units
/// (negative is up).
pub const CYLINDER_PIVOT_Y_OFFSET: i32 = -10;

/// The slide on frame `n`, 120ths of a world unit: `48n − n(n + 1)`.
pub open spec fn slide_spec(n: int) -> int {
    48 * n - n * (n + 1)
}

/// Alpha on frame `n`, sixths of full.
pub open spec fn alpha_spec(n: int) -> int {
    if n < FADE_OUT_START_FRAME {
        6
    } else if n < CYLINDER_LIFETIME_FRAMES {
        CYLINDER_LIFETIME_FRAMES - n
    } else {
        0
    }
}

/// The slide on frame `n` of the cone's life.
pub fn slide_at(n: u32) -> (r: u32)
    requires
        n < CYLINDER_LIFETIME_FRAMES,
    ensures
        r == slide_spec(n as int),
{
    proof {
        assert(n * (n + 1) <= 48 * n) by (nonlinear_arith)
            requires
                n < 12,
        ;
    }
    48 * n - n * (n + 1)
}

/// Alpha on frame `n`, sixths of full.
pub fn alpha_at(n: u32) -> (r: u32)
    ensures
        r == alpha_spec(n as int),
{
    if n < FADE_OUT_START_FRAME {
        6
    } else if n < CYLINDER_LIFETIME_FRAMES {
        CYLINDER_LIFETIME_FRAMES - n
    } else {
        0
    }
}

/// `Dead` once 12 frames have passed.
pub fn status_at(n: u32) -> (s: EffectStatus)
    ensures
        s == (if n >= CYLINDER_LIFETIME_FRAMES { EffectStatus::Dead } else { EffectStatus::Running }),
{
    if n >= CYLINDER_LIFETIME_FRAMES { EffectStatus::Dead } else { EffectStatus::Running }
}

/// Largest tick resolution the cone accepts: its slide, kept in
/// `1/(120·ticks²)`, must fit a `u64`.
pub const MAX_TICKS_PER_FRAME: u32 = 20_000_000;

/// The slide `n` ticks in at `t` ticks a frame, `1/(120·t²)` of a world
/// unit: `48·n·t − n(n + t)`.
pub open spec fn slide_ticks_spec(n: int, t: int) -> int {
    48 * n * t - n * (n + t)
}

/// Alpha `n` ticks in at `t` ticks a frame, `1/(6·t)` of full.
pub open spec fn alpha_ticks_spec(n: int, t: int) -> int {
    if n < FADE_OUT_START_FRAME * t {
        6 * t
    } else if n < CYLINDER_LIFETIME_FRAMES * t {
        CYLINDER_LIFETIME_FRAMES * t - n
    } else {
        0
    }
}

/// The slide `n` ticks into the cone's life at `ticks` ticks a frame.
pub fn slide_in_ticks(n: u32, ticks: u32) -> (r: u64)
    requires
        1 <= ticks <= MAX_TICKS_PER_FRAME,
        n < CYLINDER_LIFETIME_FRAMES * ticks,
    ensures
        r == slide_ticks_spec(n as int, ticks as int),
{
    let t = ticks as u64;
    let n = n as u64;
    proof {
        assert(n * (n + t) <= 48 * n * t) by (nonlinear_arith)
            requires
                n < 12 * t,
        ;
        assert(48 * n * t <= 576 * (t * t)) by (nonlinear_arith)
            requires
                n < 12 * t,
        ;
        assert(t * t <= 400_000_000_000_000) by (nonlinear_arith)
            requires
                t <= 20_000_000,
        ;
    }
    48 * n * t - n * (n + t)
}

/// Alpha `n` ticks in at `ticks` ticks a frame.
pub fn alpha_in_ticks(n: u32, ticks: u32) -> (r: u64)
    ensures
        r == alpha_ticks_spec(n as int, ticks as int),
{
    let t = ticks as u64;
    let n = n as u64;
    if n < 6 * t {
        6 * t
    } else if n < 12 * t {
        12 * t - n
    } else {
        0
    }
}

/// `Dead` once 12 frames have passed, `n` ticks in at `ticks` ticks a
/// frame.
pub fn status_in_ticks(n: u32, ticks: u32) -> (s: EffectStatus)
    ensures
        s == (if n >= CYLINDER_LIFETIME_FRAMES * ticks { EffectStatus::Dead } else { EffectStatus::Running }),
{
    if n as u64 >= 12 * ticks as u64 { EffectStatus::Dead } else { EffectStatus::Running }
}

/// At any tick resolution the cone only slides forward over its life, and
/// it is visible exactly while it lives.
pub proof fn cone_slides_forward_and_fades_in_ticks(a: int, b: int, t: int)
    requires
        0 <= a <= b < CYLINDER_LIFETIME_FRAMES * t,
        t >= 1,
    ensures
        0 <= slide_ticks_spec(a, t) <= slide_ticks_spec(b, t),
        alpha_ticks_spec(b, t) > 0,
        alpha_ticks_spec(CYLINDER_LIFETIME_FRAMES * t + a, t) == 0,
{
    assert(0 <= 48 * a * t - a * (a + t) <= 48 * b * t - b * (b + t)) by (nonlinear_arith)
        requires
            0 <= a <= b < 12 * t,
            t >= 1,
    ;
}

/// The cone only slides forward over its life, and it is visible exactly
/// while it lives.
pub proof fn cone_slides_forward_and_fades(a: int, b: int)
    requires
        0 <= a <= b < CYLINDER_LIFETIME_FRAMES,
    ensures
        0 <= slide_spec(a) <= slide_spec(b),
        alpha_spec(b) > 0,
        alpha_spec(CYLINDER_LIFETIME_FRAMES + a) == 0,
{
    assert(a * (a + 1) <= 48 * a) by (nonlinear_arith)
        requires
            0 <= a < 12,
    ;
    assert(48 * a - a * (a + 1) <= 48 * b - b * (b + 1)) by (nonlinear_arith)
        requires
            0 <= a <= b < 12,
    ;
}

} // verus!
