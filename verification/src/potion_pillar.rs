//! `EF_POTIONPILLAR` — a single cylinder column rising from the caster.
//!
//! The column is a straight `alpha_down.tga` cylinder of radius 4.5. It
//! starts 10 high and lengthens with a speed (per variant) that grows by
//! 0.01 per frame, so after `n` frames it stands `10 + v·n + 0.01·n(n + 1)/2`
//! high. Its alpha climbs to 90 of 255 over 20 frames, holds, and falls to 0
//! over the last 10 frames of its life.
//!
//! Everything here is exact on whole frames (heights in 200ths of a world
//! unit, the speed in tenths, and alphas in units of `1/(255 · 20)`) and at
//! any tick resolution, a tick being a caller-chosen `1/ticks` of a frame
//! (heights in `1/(200·ticks²)`, alphas in `1/(255·20·ticks)`), so
//! fractional frame counts are kept exactly.
use vstd::prelude::*;
use crate::draw::EffectStatus;

verus! {

/// The column texture.
pub const TEXTURE: &'static str = "alpha_down.tga";
/// Every texture the column draws with.
pub const TEXTURES: [&'static str; 1] = [TEXTURE];
/// Radius of the column, tenths of a world unit.
pub const RADIUS_TENTHS: u32 = 45;
/// Sides of the cylinder.
pub const SIDES: u32 = 10;
/// Frames of the alpha climb.
pub const ALPHA_RAMP_FRAMES: u32 = 20;
/// Frames of the closing fade.
pub const FADE_OUT_FRAMES: u32 = 10;
/// Peak alpha, 0..255 scale.
pub const ALPHA_MAX: u32 = 90;
/// Length of the default column, ms.
pub const TOTAL_DURATION_MS: u32 = 833;

/// One column variant.
#[derive(Clone, Copy, Debug, PartialEq, Eq, Structural)]
pub struct PotionPillarParams {
    /// Initial lengthening per frame, tenths of a world unit.
    pub height_speed_tenths: u32,
    /// Life in 60 fps frames.
    pub duration_frames: u32,
}

/// The default column: speed 1.0, 50 frames.
#[allow(non_snake_case)]
pub fn DEFAULT() -> (p: PotionPillarParams)
    ensures
        p == (PotionPillarParams { height_speed_tenths: 10, duration_frames: 50 }),
{
    PotionPillarParams { height_speed_tenths: 10, duration_frames: 50 }
}

/// The berserk potion's column: speed 1.0, 50 frames.
#[allow(non_snake_case)]
pub fn BERSERK() -> (p: PotionPillarParams)
    ensures
        p == (PotionPillarParams { height_speed_tenths: 10, duration_frames: 50 }),
{
    PotionPillarParams { height_speed_tenths: 10, duration_frames: 50 }
}

/// Height on frame `n`, 200ths of a world unit.
pub open spec fn height_spec(p: PotionPillarParams, n: int) -> int {
    2000 + 20 * p.height_speed_tenths * n + n * (n + 1)
}

/// Alpha on frame `n`, units of `1/(255 · 20)`: `90` per frame of the climb,
/// `1800` held, then `180` per frame left in the life.
pub open spec fn alpha_spec(p: PotionPillarParams, n: int) -> int {
    if n < ALPHA_RAMP_FRAMES {
        ALPHA_MAX * n
    } else if n < p.duration_frames - FADE_OUT_FRAMES {
        ALPHA_MAX * ALPHA_RAMP_FRAMES
    } else if n < p.duration_frames {
        2 * ALPHA_MAX * (p.duration_frames - n)
    } else {
        0
    }
}

/// Height `n` ticks in at `t` ticks a frame, `1/(200·t²)` of a world unit.
pub open spec fn height_ticks_spec(p: PotionPillarParams, n: int, t: int) -> int {
    2000 * t * t + 20 * p.height_speed_tenths * n * t + n * (n + t)
}

/// Alpha `n` ticks in at `t` ticks a frame, units of `1/(255 · 20 · t)`.
pub open spec fn alpha_ticks_spec(p: PotionPillarParams, n: int, t: int) -> int {
    if n < ALPHA_RAMP_FRAMES * t {
        ALPHA_MAX * n
    } else if n < (p.duration_frames - FADE_OUT_FRAMES) * t {
        ALPHA_MAX * ALPHA_RAMP_FRAMES * t
    } else if n < p.duration_frames * t {
        2 * ALPHA_MAX * (p.duration_frames * t - n)
    } else {
        0
    }
}

impl PotionPillarParams {
    /// Life in milliseconds, rounded down.
    pub fn duration_ms(&self) -> (r: u64)
        ensures
            r == self.duration_frames * 1000 / 60,
    {
        self.duration_frames as u64 * 1000 / 60
    }

    /// Height on frame `n`, 200ths of a world unit.
    pub fn height_at(&self, n: u32) -> (r: u128)
        ensures
            r == height_spec(*self, n as int),
    {
        let h = self.height_speed_tenths as u128;
        let m = n as u128;
        proof {
            assert(20 * h * m <= 20 * 0xffff_ffff * 0xffff_ffffu128) by (nonlinear_arith)
                requires
                    h <= 0xffff_ffff,
                    m <= 0xffff_ffff,
            ;
            assert(m * (m + 1) <= 0xffff_ffff * 0x1_0000_0000u128) by (nonlinear_arith)
                requires
                    m <= 0xffff_ffff,
            ;
        }
        2000 + 20 * h * m + m * (m + 1)
    }

    /// Alpha on frame `n`, units of `1/(255 · 20)`.
    pub fn alpha_at(&self, n: u32) -> (r: u32)
        ensures
            r == alpha_spec(*self, n as int),
            r <= ALPHA_MAX * ALPHA_RAMP_FRAMES,
    {
        if n < ALPHA_RAMP_FRAMES {
            ALPHA_MAX * n
        } else if self.duration_frames >= FADE_OUT_FRAMES && n < self.duration_frames - FADE_OUT_FRAMES {
            ALPHA_MAX * ALPHA_RAMP_FRAMES
        } else if n < self.duration_frames {
            2 * ALPHA_MAX * (self.duration_frames - n)
        } else {
            0
        }
    }

    /// Height `n` ticks in at `ticks` ticks a frame.
    pub fn height_in_ticks(&self, n: u32, ticks: u32) -> (r: u128)
        ensures
            r == height_ticks_spec(*self, n as int, ticks as int),
    {
        let h = self.height_speed_tenths as u128;
        let m = n as u128;
        let t = ticks as u128;
        proof {
            assert(t * t <= 0xffff_ffff * 0xffff_ffffu128 && h * m <= 0xffff_ffff * 0xffff_ffffu128) by (nonlinear_arith)
                requires
                    h <= 0xffff_ffff,
                    m <= 0xffff_ffff,
                    t <= 0xffff_ffff,
            ;
        }
        let tt = t * t;
        let hm = h * m;
        proof {
            assert(hm * t <= 0xffff_ffff * 0xffff_ffffu128 * 0xffff_ffffu128) by (nonlinear_arith)
                requires
                    hm <= 0xffff_ffff * 0xffff_ffffu128,
                    t <= 0xffff_ffff,
            ;
            assert(m * (m + t) <= 0xffff_ffff * 0x2_0000_0000u128) by (nonlinear_arith)
                requires
                    m <= 0xffff_ffff,
                    t <= 0xffff_ffff,
            ;
            assert(2000 * t * t == 2000 * tt && 20 * h * m * t == 20 * (hm * t)) by (nonlinear_arith)
                requires
                    tt == t * t,
                    hm == h * m,
            ;
        }
        let hmt = hm * t;
        2000 * tt + 20 * hmt + m * (m + t)
    }

    /// Alpha `n` ticks in at `ticks` ticks a frame.
    pub fn alpha_in_ticks(&self, n: u32, ticks: u32) -> (r: u64)
        ensures
            r == alpha_ticks_spec(*self, n as int, ticks as int),
            r <= ALPHA_MAX * ALPHA_RAMP_FRAMES * ticks,
    {
        let t = ticks as u64;
        let n = n as u64;
        let d = self.duration_frames as u64;
        proof {
            assert(d * t <= 0xffff_ffff * 0xffff_ffffu64) by (nonlinear_arith)
                requires
                    d <= 0xffff_ffff,
                    t <= 0xffff_ffff,
            ;
            assert(d >= 10 ==> (d - 10) * t <= d * t) by (nonlinear_arith);
            assert(d < 10 ==> (d as int - 10) * t <= 0) by (nonlinear_arith);
        }
        if n < 20 * t {
            90 * n
        } else if d >= 10 && n < (d - 10) * t {
            1800 * t
        } else if n < d * t {
            proof {
                assert(d * t - n <= 10 * t) by (nonlinear_arith)
                    requires
                        d >= 10 ==> n >= (d - 10) * t,
                        d < 10 ==> n >= 20 * t,
                        n < d * t,
                ;
            }
            180 * (d * t - n)
        } else {
            0
        }
    }

    /// `Dead` once the column's frames have passed, `n` ticks in at `ticks`
    /// ticks a frame.
    pub fn status_in_ticks(&self, n: u32, ticks: u32) -> (s: EffectStatus)
        ensures
            s == (if n >= self.duration_frames * ticks { EffectStatus::Dead } else { EffectStatus::Running }),
    {
        proof {
            assert(self.duration_frames * ticks <= 0xffff_ffff * 0xffff_ffffu64) by (nonlinear_arith)
                requires
                    self.duration_frames <= 0xffff_ffff,
                    ticks <= 0xffff_ffff,
            ;
        }
        if n as u64 >= self.duration_frames as u64 * ticks as u64 { EffectStatus::Dead } else { EffectStatus::Running }
    }

    /// `Dead` once the column's frames have passed.
    pub fn status_at(&self, n: u32) -> (s: EffectStatus)
        ensures
            s == (if n >= self.duration_frames { EffectStatus::Dead } else { EffectStatus::Running }),
    {
        if n >= self.duration_frames { EffectStatus::Dead } else { EffectStatus::Running }
    }
}

/// The column only lengthens, its alpha never passes 90 of 255, and it has
/// faded out exactly when its life ends.
pub proof fn pillar_grows_and_fades_out(p: PotionPillarParams, a: int, b: int)
    requires
        0 <= a <= b,
        p.duration_frames >= ALPHA_RAMP_FRAMES + FADE_OUT_FRAMES,
    ensures
        height_spec(p, a) <= height_spec(p, b),
        0 <= alpha_spec(p, b) <= ALPHA_MAX * ALPHA_RAMP_FRAMES,
        b >= p.duration_frames ==> alpha_spec(p, b) == 0,
        0 < b < p.duration_frames ==> alpha_spec(p, b) > 0,
{
    assert(20 * p.height_speed_tenths * a <= 20 * p.height_speed_tenths * b) by (nonlinear_arith)
        requires
            0 <= a <= b,
    ;
    assert(a * (a + 1) <= b * (b + 1)) by (nonlinear_arith)
        requires
            0 <= a <= b,
    ;
}

/// At any tick resolution the column only lengthens, its alpha never
/// passes 90 of 255, and it has faded out exactly when its life ends.
pub proof fn pillar_grows_and_fades_out_in_ticks(p: PotionPillarParams, a: int, b: int, t: int)
    requires
        0 <= a <= b,
        t >= 1,
        p.duration_frames >= ALPHA_RAMP_FRAMES + FADE_OUT_FRAMES,
    ensures
        height_ticks_spec(p, a, t) <= height_ticks_spec(p, b, t),
        0 <= alpha_ticks_spec(p, b, t) <= ALPHA_MAX * ALPHA_RAMP_FRAMES * t,
        b >= p.duration_frames * t ==> alpha_ticks_spec(p, b, t) == 0,
        0 < b < p.duration_frames * t ==> alpha_ticks_spec(p, b, t) > 0,
{
    let d = p.duration_frames as int;
    assert(20 * p.height_speed_tenths * a * t <= 20 * p.height_speed_tenths * b * t) by (nonlinear_arith)
        requires
            0 <= a <= b,
            t >= 1,
    ;
    assert(a * (a + t) <= b * (b + t)) by (nonlinear_arith)
        requires
            0 <= a <= b,
            t >= 1,
    ;
    assert(20 * t <= (d - 10) * t && (d - 10) * t <= d * t) by (nonlinear_arith)
        requires
            d >= 30,
            t >= 1,
    ;
    if (d - 10) * t <= b && b < d * t {
        assert(d * t - b <= 10 * t) by (nonlinear_arith)
            requires
                (d - 10) * t <= b,
        ;
    }
}

} // verus!
