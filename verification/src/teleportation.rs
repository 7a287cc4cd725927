//! `EF_TELEPORTATION` — a blue light beam that shoots up when an actor
//! teleports away: one `ring_blue.tga` cylinder that lives 60 frames.
//!
//! Its height grows from 0 with a speed of 5 per frame that itself grows by
//! 0.25 per frame, so after `n` frames it stands `5n + n(n + 1)/8` high. The
//! bottom ring stays at radius 4 while the top narrows by `4/61` per frame,
//! so the cylinder turns into a cone and then a needle; it spins 2° per frame
//! and fades linearly from full to nothing over its life.
//!
//! Everything here is exact at any time, counted in ticks, a caller-chosen
//! `1/ticks` of a frame (so fractional frame counts are kept exactly; the
//! whole-frame functions are the case of one tick a frame): heights in
//! `1/(8·ticks²)`, the top radius in `1/(61·ticks)`, alpha in
//! `1/(60·ticks)` of full and the spin in `1/ticks` of a degree.
use vstd::prelude::*;
use crate::draw::EffectStatus;

verus! {

/// The beam texture.
pub const RING_TEXTURE: &'static str = "ring_blue.tga";
/// Every texture the beam draws with.
pub const TEXTURES: [&'static str; 1] = [RING_TEXTURE];
/// Life of the beam in 60 fps frames.
pub const DURATION_FRAMES: u32 = 60;
/// [`DURATION_FRAMES`] in milliseconds.
pub const TOTAL_DURATION_MS: u32 = 1000;
/// Bottom ring radius, world units.
pub const BOTTOM_RADIUS: u32 = 4;
/// Sides of the cylinder.
pub const SIDES: u32 = 10;

/// Largest tick resolution a beam accepts: its height, kept in
/// `1/(8·ticks²)`, must fit a `u64`.
pub const MAX_TICKS_PER_FRAME: u32 = 20_000_000;

/// The beam at one moment; `den` is the ticks per frame.
#[derive(Clone, Copy, Debug, PartialEq, Eq, Structural)]
pub struct BeamShape {
    /// Ticks per frame.
    pub den: u64,
    /// Height, `1/(8·den²)` of a world unit.
    pub height_eighths: u64,
    /// Top ring radius, `1/(61·den)` of a world unit.
    pub top_radius_61: u64,
    /// Alpha, `1/(60·den)` of full.
    pub alpha_60: u64,
    /// Spin, `1/den` of a degree.
    pub spin_deg: u64,
}

/// The beam `n` ticks in at `t` ticks a frame (its growth and fade stop at
/// frame 60): after `a = m/t` frames, with `m` the ticks capped at 60
/// frames, it stands `5a + a(a + 1)/8` high.
pub open spec fn beam_ticks_spec(n: int, t: int) -> BeamShape {
    let m = if n < DURATION_FRAMES * t { n } else { DURATION_FRAMES * t };
    let top = 244 * t - 4 * n;
    BeamShape {
        den: t as u64,
        height_eighths: (40 * m * t + m * (m + t)) as u64,
        top_radius_61: (if top > 0 { top } else { 0 }) as u64,
        alpha_60: (DURATION_FRAMES * t - m) as u64,
        spin_deg: (2 * n) as u64,
    }
}

/// The beam on whole frame `n`.
pub open spec fn beam_spec(n: int) -> BeamShape {
    beam_ticks_spec(n, 1)
}

/// The beam `n` ticks in at `ticks` ticks a frame.
pub fn beam_in_ticks(n: u32, ticks: u32) -> (b: BeamShape)
    requires
        1 <= ticks <= MAX_TICKS_PER_FRAME,
    ensures
        b == beam_ticks_spec(n as int, ticks as int),
{
    let t = ticks as u64;
    let n = n as u64;
    let m: u64 = if n < 60 * t { n } else { 60 * t };
    let top: u64 = if 4 * n < 244 * t { 244 * t - 4 * n } else { 0 };
    proof {
        assert(40 * m * t + m * (m + t) <= 6060 * (t * t)) by (nonlinear_arith)
            requires
                m <= 60 * t,
        ;
        assert(t * t <= 400_000_000_000_000) by (nonlinear_arith)
            requires
                t <= 20_000_000,
        ;
    }
    BeamShape {
        den: t,
        height_eighths: 40 * m * t + m * (m + t),
        top_radius_61: top,
        alpha_60: 60 * t - m,
        spin_deg: 2 * n,
    }
}

/// The beam on frame `n`.
pub fn beam_at(n: u32) -> (b: BeamShape)
    ensures
        b == beam_spec(n as int),
{
    beam_in_ticks(n, 1)
}

/// Whether the beam is drawn on frame `n`: it has height and alpha.
pub fn visible_at(n: u32) -> (r: bool)
    ensures
        r == (0 < n < DURATION_FRAMES),
{
    0 < n && n < DURATION_FRAMES
}

/// `Dead` once 60 frames have passed.
pub fn status_at(n: u32) -> (s: EffectStatus)
    ensures
        s == (if n >= DURATION_FRAMES { EffectStatus::Dead } else { EffectStatus::Running }),
{
    if n >= DURATION_FRAMES { EffectStatus::Dead } else { EffectStatus::Running }
}

/// Whether the beam is drawn `n` ticks in at `ticks` ticks a frame: it has
/// height and alpha.
pub fn visible_in_ticks(n: u32, ticks: u32) -> (r: bool)
    ensures
        r == (0 < n < DURATION_FRAMES * ticks),
{
    0 < n && (n as u64) < 60 * ticks as u64
}

/// `Dead` once 60 frames have passed, `n` ticks in at `ticks` ticks a
/// frame.
pub fn status_in_ticks(n: u32, ticks: u32) -> (s: EffectStatus)
    ensures
        s == (if n >= DURATION_FRAMES * ticks { EffectStatus::Dead } else { EffectStatus::Running }),
{
    if n as u64 >= 60 * ticks as u64 { EffectStatus::Dead } else { EffectStatus::Running }
}

/// Over its life the beam only grows taller, narrows at the top and fades,
/// at any tick resolution: from tick `a` to a later tick `b` the height
/// never falls, and the top radius and the alpha never rise; the bottom
/// ring is never narrower than the top.
pub proof fn beam_rises_narrows_and_fades(a: int, b: int, t: int)
    requires
        0 <= a <= b,
        1 <= t <= MAX_TICKS_PER_FRAME,
    ensures
        beam_ticks_spec(a, t).height_eighths <= beam_ticks_spec(b, t).height_eighths,
        beam_ticks_spec(b, t).top_radius_61 <= beam_ticks_spec(a, t).top_radius_61,
        beam_ticks_spec(b, t).alpha_60 <= beam_ticks_spec(a, t).alpha_60,
        beam_ticks_spec(a, t).top_radius_61 <= 61 * BOTTOM_RADIUS * t,
        (a < b && b <= DURATION_FRAMES * t) ==> beam_ticks_spec(a, t).height_eighths < beam_ticks_spec(b, t).height_eighths,
{
    let ma = if a < 60 * t { a } else { 60 * t };
    let mb = if b < 60 * t { b } else { 60 * t };
    let ha = 40 * ma * t + ma * (ma + t);
    let hb = 40 * mb * t + mb * (mb + t);
    assert(0 <= ha <= hb) by (nonlinear_arith)
        requires
            0 <= ma <= mb,
            t >= 1,
            ha == 40 * ma * t + ma * (ma + t),
            hb == 40 * mb * t + mb * (mb + t),
    ;
    assert(ma < mb ==> ha < hb) by (nonlinear_arith)
        requires
            0 <= ma <= mb,
            t >= 1,
            ha == 40 * ma * t + ma * (ma + t),
            hb == 40 * mb * t + mb * (mb + t),
    ;
    assert(hb <= 6060 * t * t) by (nonlinear_arith)
        requires
            0 <= mb <= 60 * t,
            t >= 1,
            hb == 40 * mb * t + mb * (mb + t),
    ;
    assert(t * t <= 400_000_000_000_000) by (nonlinear_arith)
        requires
            1 <= t <= 20_000_000,
    ;
    assert(hb <= 6060 * (t * t)) by (nonlinear_arith)
        requires
            hb <= 6060 * t * t,
    ;
}

} // verus!
