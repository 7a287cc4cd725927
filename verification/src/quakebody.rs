//! `EF_QUAKEBODY` / `2` / `3` / `4` — body-shake effects (the client's
//! `BL_QUAKE` body light). They shake the attached actor's sprite, emit no
//! primitives, and Quakebody4 also tints the body red/white each frame.
//!
//! Per-variant windows (60 fps):
//! * Quakebody  — shakes for its whole 14-frame life.
//! * Quakebody2 — whole 35-frame life.
//! * Quakebody3 — only frames 30..50 of a 60-frame life.
//! * Quakebody4 — frames 20..60, with the red/white tint.
//!
//! The caller passes the whole number of frames elapsed; every window edge
//! is a whole frame, so the truncated count decides the same way the
//! fractional one does. The shake amplitude is kept in tenths of a pixel.
use vstd::prelude::*;
use crate::draw::EffectStatus;

verus! {

/// Native engine framerate.
pub const FPS: u32 = 60;
/// Jitter buckets per unit: the hash is reduced modulo this.
pub const JITTER_BUCKETS: u32 = 100_000;

/// One body-shake variant.
#[derive(Clone, Copy, Debug, PartialEq, Eq, Structural)]
pub struct Params {
    /// Length of the effect in frames.
    pub total_frames: u32,
    /// First frame of the shake window (inclusive).
    pub shake_start: u32,
    /// End of the shake window (exclusive).
    pub shake_end: u32,
    /// Peak jitter in tenths of a screen pixel.
    pub amplitude_tenths_px: u32,
    /// Quakebody4 alternates a red body tint each frame while shaking.
    pub red_tint: bool,
}

/// `EF_QUAKEBODY` — shakes its whole 14-frame life, 3 px.
#[allow(non_snake_case)]
pub fn QUAKEBODY() -> (p: Params)
    ensures
        p == (Params { total_frames: 14, shake_start: 0, shake_end: 14, amplitude_tenths_px: 30, red_tint: false }),
{
    Params { total_frames: 14, shake_start: 0, shake_end: 14, amplitude_tenths_px: 30, red_tint: false }
}

/// `EF_QUAKEBODY2` — shakes its whole 35-frame life, 3 px.
#[allow(non_snake_case)]
pub fn QUAKEBODY2() -> (p: Params)
    ensures
        p == (Params { total_frames: 35, shake_start: 0, shake_end: 35, amplitude_tenths_px: 30, red_tint: false }),
{
    Params { total_frames: 35, shake_start: 0, shake_end: 35, amplitude_tenths_px: 30, red_tint: false }
}

/// `EF_QUAKEBODY3` — shakes frames 30..50 of a 60-frame life, 3.5 px.
#[allow(non_snake_case)]
pub fn QUAKEBODY3() -> (p: Params)
    ensures
        p == (Params { total_frames: 60, shake_start: 30, shake_end: 50, amplitude_tenths_px: 35, red_tint: false }),
{
    Params { total_frames: 60, shake_start: 30, shake_end: 50, amplitude_tenths_px: 35, red_tint: false }
}

/// `EF_QUAKEBODY4` — shakes frames 20..60 of a 60-frame life, 4 px, red/white.
#[allow(non_snake_case)]
pub fn QUAKEBODY4() -> (p: Params)
    ensures
        p == (Params { total_frames: 60, shake_start: 20, shake_end: 60, amplitude_tenths_px: 40, red_tint: true }),
{
    Params { total_frames: 60, shake_start: 20, shake_end: 60, amplitude_tenths_px: 40, red_tint: true }
}

/// Wall-clock length of a variant in ms (`total_frames / 60 * 1000`,
/// truncated).
pub fn total_duration_ms(p: &Params) -> (r: u32)
    requires
        p.total_frames <= 4_000_000,
    ensures
        r == p.total_frames * 1000 / FPS as int,
{
    p.total_frames * 1000 / FPS
}

/// Whether the body shakes on frame `frame`.
pub open spec fn shaking_spec(p: Params, frame: int) -> bool {
    p.shake_start <= frame < p.shake_end
}

/// Whether the body shakes on frame `frame`: inside `[shake_start, shake_end)`.
pub fn shaking(p: &Params, frame: u32) -> (r: bool)
    ensures
        r == shaking_spec(*p, frame as int),
{
    frame >= p.shake_start && frame < p.shake_end
}

/// Status after `frame` frames: dead once the variant's length is reached.
pub fn status_at(p: &Params, frame: u32) -> (s: EffectStatus)
    ensures
        s == (if frame >= p.total_frames { EffectStatus::Dead } else { EffectStatus::Running }),
{
    if frame >= p.total_frames { EffectStatus::Dead } else { EffectStatus::Running }
}

/// The hashed frame/salt mix the jitter is drawn from, before reduction.
pub open spec fn jitter_mix(frame: u32, salt: u32) -> u32 {
    let m = 0x1_0000_0000int;
    let a = (frame as int * 2_654_435_761int) % m;
    let b = (salt as int * 40_503int) % m;
    let x = ((((a + b) % m) + 0x9E37_79B9int) % m) as u32;
    x ^ (x >> 15u32)
}

/// The stepped per-frame jitter bucket in `0..100000` for `frame` and
/// `salt`; the jitter in `[-1, 1)` is `bucket / 100000 * 2 − 1`.
pub fn jitter_bucket(frame: u32, salt: u32) -> (r: u32)
    ensures
        r == jitter_mix(frame, salt) % JITTER_BUCKETS,
        r < JITTER_BUCKETS,
{
    let x = frame
        .wrapping_mul(2_654_435_761)
        .wrapping_add(salt.wrapping_mul(40_503))
        .wrapping_add(0x9E37_79B9);
    let x = x ^ (x >> 15);
    x % JITTER_BUCKETS
}

/// Quakebody4's body tint on frame `frame`: red on even frames, white on odd
/// ones, only while shaking; no tint for the other variants.
pub fn body_tint(p: &Params, frame: u32) -> (r: Option<[u8; 3]>)
    ensures
        r == (if p.red_tint && shaking_spec(*p, frame as int) {
            if frame % 2 == 0 { Some([250u8, 50u8, 50u8]) } else { Some([255u8, 255u8, 255u8]) }
        } else {
            None
        }),
{
    if p.red_tint && shaking(p, frame) {
        if frame % 2 == 0 { Some([250, 50, 50]) } else { Some([255, 255, 255]) }
    } else {
        None
    }
}

} // verus!
