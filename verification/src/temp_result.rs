//! `EF_TEMP_OK` / `EF_TEMP_FAIL` — item-refine result banners, and the
//! fade-in / hold / fade-out curve that the textured-card effects share.
//!
//! A banner is a camera-facing quad above the caster that fades in over 22
//! frames to 220 of 255, holds for 63, fades out over 15, and ends after
//! those 100 frames. It also breathes: its size swings by `5% · sin` of a
//! phase that advances 2° per frame.
//!
//! Levels here are exact: a curve's level at a time is a fraction of its
//! peak, kept in units of `1/(fade_in · fade_out · ticks)`, where time is
//! counted in ticks, a caller-chosen `1/ticks` of a 60 fps frame (so
//! fractional frame counts are kept exactly; the whole-frame functions are
//! the case of one tick a frame). The breathing sine and the quad's
//! placement are the renderer's.
use vstd::prelude::*;
use crate::draw::EffectStatus;

verus! {

/// A fade-in / hold / fade-out curve, whole frames.
#[derive(Clone, Copy, Debug, PartialEq, Eq, Structural)]
pub struct FadeCurve {
    /// Frames of the linear rise.
    pub fade_in: u32,
    /// Frames at the peak.
    pub hold: u32,
    /// Frames of the linear fall.
    pub fade_out: u32,
}

/// Frames a curve lasts.
pub open spec fn life_frames(c: FadeCurve) -> int {
    c.fade_in + c.hold + c.fade_out
}

/// The curve's level on frame `n`, in units of `1/(fade_in · fade_out)` of
/// the peak: rising `fade_out` per frame, holding at `fade_in · fade_out`,
/// then falling `fade_in` per frame to 0.
pub open spec fn level_spec(c: FadeCurve, n: int) -> int {
    if n < c.fade_in {
        n * c.fade_out
    } else if n < c.fade_in + c.hold {
        c.fade_in * c.fade_out
    } else if n < life_frames(c) {
        c.fade_in * (life_frames(c) - n)
    } else {
        0
    }
}

/// The curve's level `n` ticks in at `t` ticks a frame, in units of
/// `1/(fade_in · fade_out · t)` of the peak: rising `fade_out` per tick,
/// holding at `fade_in · fade_out · t`, then falling `fade_in` per tick to 0.
pub open spec fn level_ticks_spec(c: FadeCurve, n: int, t: int) -> int {
    if n < c.fade_in * t {
        n * c.fade_out
    } else if n < (c.fade_in + c.hold) * t {
        c.fade_in * c.fade_out * t
    } else if n < life_frames(c) * t {
        c.fade_in * (life_frames(c) * t - n)
    } else {
        0
    }
}

/// The peak level, `fade_in · fade_out`.
pub open spec fn peak_level(c: FadeCurve) -> int {
    c.fade_in * c.fade_out
}

impl FadeCurve {
    /// The level on frame `n`.
    pub fn level_at(&self, n: u32) -> (r: u64)
        ensures
            r == level_spec(*self, n as int),
            r <= peak_level(*self),
    {
        let fi = self.fade_in as u64;
        let fo = self.fade_out as u64;
        let hold = self.hold as u64;
        let n = n as u64;
        let life: u64 = fi + hold + fo;
        proof {
            assert(fi * fo <= 0xffff_ffff * 0xffff_ffffu64) by (nonlinear_arith)
                requires
                    fi <= 0xffff_ffff,
                    fo <= 0xffff_ffff,
            ;
        }
        if n < fi {
            proof {
                assert(n * fo <= fi * fo) by (nonlinear_arith)
                    requires
                        n < fi,
            ;
            }
            n * fo
        } else if n < fi + hold {
            fi * fo
        } else if n < life {
            proof {
                assert(fi * (life - n) <= fi * fo) by (nonlinear_arith)
                    requires
                        life - n <= fo,
                ;
            }
            fi * (life - n)
        } else {
            0
        }
    }

    /// The level `n` ticks in at `ticks` ticks a frame.
    pub fn level_in_ticks(&self, n: u32, ticks: u32) -> (r: u128)
        requires
            ticks >= 1,
        ensures
            r == level_ticks_spec(*self, n as int, ticks as int),
            r <= peak_level(*self) * ticks,
    {
        let fi = self.fade_in as u128;
        let fo = self.fade_out as u128;
        let hold = self.hold as u128;
        let t = ticks as u128;
        let n = n as u128;
        let life: u128 = fi + hold + fo;
        proof {
            assert(fi * fo <= 0xffff_ffff * 0xffff_ffffu128) by (nonlinear_arith)
                requires
                    fi <= 0xffff_ffff,
                    fo <= 0xffff_ffff,
            ;
            assert(fi * fo * t <= 0xffff_ffff * 0xffff_ffffu128 * 0xffff_ffffu128) by (nonlinear_arith)
                requires
                    fi * fo <= 0xffff_ffff * 0xffff_ffffu128,
                    t <= 0xffff_ffff,
            ;
            assert(life * t <= 0x3_0000_0000 * 0xffff_ffffu128) by (nonlinear_arith)
                requires
                    life <= 0x3_0000_0000,
                    t <= 0xffff_ffff,
            ;
            assert(fi * t <= life * t && (fi + hold) * t <= life * t) by (nonlinear_arith)
                requires
                    fi <= fi + hold <= life,
            ;
        }
        if n < fi * t {
            proof {
                assert(n * fo <= fi * fo * t) by (nonlinear_arith)
                    requires
                        n < fi * t,
                ;
            }
            n * fo
        } else if n < (fi + hold) * t {
            fi * fo * t
        } else if n < life * t {
            proof {
                assert(life * t - n <= fo * t) by (nonlinear_arith)
                    requires
                        n >= (fi + hold) * t,
                        life == fi + hold + fo,
                ;
                assert(fi * (life * t - n) <= fi * fo * t) by (nonlinear_arith)
                    requires
                        life * t - n <= fo * t,
                ;
            }
            fi * (life * t - n)
        } else {
            0
        }
    }

    /// `Dead` once the curve has run its course, `n` ticks in at `ticks`
    /// ticks a frame.
    pub fn status_in_ticks(&self, n: u32, ticks: u32) -> (s: EffectStatus)
        ensures
            s == (if n >= life_frames(*self) * ticks { EffectStatus::Dead } else { EffectStatus::Running }),
    {
        proof {
            assert(life_frames(*self) * ticks <= 0x3_0000_0000 * 0xffff_ffffu128) by (nonlinear_arith)
                requires
                    life_frames(*self) <= 0x3_0000_0000,
                    ticks <= 0xffff_ffff,
            ;
        }
        if n as u128 >= self.life() as u128 * ticks as u128 { EffectStatus::Dead } else { EffectStatus::Running }
    }

    /// Frames the curve lasts.
    pub fn life(&self) -> (r: u64)
        ensures
            r == life_frames(*self),
    {
        self.fade_in as u64 + self.hold as u64 + self.fade_out as u64
    }

    /// `Dead` once the curve has run its course.
    pub fn status_at(&self, n: u32) -> (s: EffectStatus)
        ensures
            s == (if n >= life_frames(*self) { EffectStatus::Dead } else { EffectStatus::Running }),
    {
        if n as u64 >= self.life() { EffectStatus::Dead } else { EffectStatus::Running }
    }
}

/// Breathing phase on frame `n`: 2° per frame, whole degrees `0..360`.
pub fn wobble_phase_deg(n: u32) -> (r: u32)
    ensures
        r == (2 * n as int) % 360,
{
    ((2 * n as u64) % 360) as u32
}

/// Breathing phase `n` ticks in at `ticks` ticks a frame: 2° per frame, in
/// `1/ticks` of a degree within one turn.
pub fn wobble_phase_in_ticks(n: u32, ticks: u32) -> (r: u64)
    requires
        ticks >= 1,
    ensures
        r == (2 * n as int) % (360 * ticks as int),
{
    (2 * n as u64) % (360 * ticks as u64)
}

/// At any tick resolution a curve with both ramps is lit exactly while it
/// runs: its level is positive at every moment strictly between its start
/// and its end, never exceeds the peak, and is 0 from its end on.
pub proof fn curve_lit_while_running_in_ticks(c: FadeCurve, n: int, t: int)
    requires
        c.fade_in > 0,
        c.fade_out > 0,
        n >= 0,
        t >= 1,
    ensures
        0 <= level_ticks_spec(c, n, t) <= peak_level(c) * t,
        (0 < n < life_frames(c) * t) ==> level_ticks_spec(c, n, t) > 0,
        n >= life_frames(c) * t ==> level_ticks_spec(c, n, t) == 0,
{
    let fi = c.fade_in as int;
    let fo = c.fade_out as int;
    let h = c.hold as int;
    if n < fi * t {
        assert(0 <= n * fo <= fi * fo * t) by (nonlinear_arith)
            requires
                0 <= n < fi * t,
                fo > 0,
        ;
        assert(n > 0 ==> n * fo > 0) by (nonlinear_arith)
            requires
                fo > 0,
        ;
        assert(fi * t <= life_frames(c) * t) by (nonlinear_arith)
            requires
                life_frames(c) == fi + h + fo,
                fo > 0,
                h >= 0,
                t >= 1,
        ;
    } else if n < (fi + h) * t {
        assert(fi * fo * t > 0) by (nonlinear_arith)
            requires
                fi > 0,
                fo > 0,
                t >= 1,
        ;
        assert(n < life_frames(c) * t) by (nonlinear_arith)
            requires
                n < (fi + h) * t,
                life_frames(c) == fi + h + fo,
                fo > 0,
                t >= 1,
        ;
    } else if n < life_frames(c) * t {
        assert(0 < fi * (life_frames(c) * t - n) <= fi * fo * t) by (nonlinear_arith)
            requires
                n >= (fi + h) * t,
                n < life_frames(c) * t,
                life_frames(c) == fi + h + fo,
                fi > 0,
        ;
    } else {
        assert(fi * fo * t >= 0) by (nonlinear_arith)
            requires
                fi > 0,
                fo > 0,
                t >= 1,
        ;
    }
}

/// A curve with both ramps is lit exactly while it runs: its level is
/// positive on every frame strictly between its start and its end, never
/// exceeds the peak, and is 0 from its end on.
pub proof fn curve_lit_while_running(c: FadeCurve, n: int)
    requires
        c.fade_in > 0,
        c.fade_out > 0,
        n >= 0,
    ensures
        0 <= level_spec(c, n) <= peak_level(c),
        (0 < n < life_frames(c)) ==> level_spec(c, n) > 0,
        n >= life_frames(c) ==> level_spec(c, n) == 0,
{
    if n < c.fade_in {
        assert(n * c.fade_out <= c.fade_in * c.fade_out) by (nonlinear_arith)
            requires
                n < c.fade_in,
        ;
        if n > 0 {
            assert(n * c.fade_out > 0) by (nonlinear_arith)
                requires
                    n > 0,
                    c.fade_out > 0,
            ;
        }
    } else if n < c.fade_in + c.hold {
        assert(c.fade_in * c.fade_out > 0) by (nonlinear_arith)
            requires
                c.fade_in > 0,
                c.fade_out > 0,
        ;
    } else if n < life_frames(c) {
        assert(c.fade_in * (life_frames(c) - n) <= c.fade_in * c.fade_out) by (nonlinear_arith)
            requires
                life_frames(c) - n <= c.fade_out,
        ;
        assert(c.fade_in * (life_frames(c) - n) > 0) by (nonlinear_arith)
            requires
                life_frames(c) - n > 0,
                c.fade_in > 0,
        ;
    } else {
        assert(c.fade_in * c.fade_out >= 0) by (nonlinear_arith);
    }
}

/// A result banner.
#[derive(Clone, Copy, Debug)]
pub struct TempResultParams {
    /// Banner texture.
    pub texture: &'static str,
    /// Full width, world units.
    pub width: u32,
    /// Pixel size of the texture, width then height: the banner keeps its
    /// aspect.
    pub pixels: [u32; 2],
    /// Offset above the caster's feet, world units (negative is up).
    pub y_offset: i32,
    /// Its fade curve.
    pub curve: FadeCurve,
    /// Peak alpha, 0..255 scale.
    pub max_alpha: u32,
}

/// Every texture the banners draw with.
pub const TEXTURES: [&'static str; 2] = ["success.bmp", "failed.bmp"];

/// The banner curve: 22 frames in, 63 held, 15 out.
pub open spec fn banner_curve() -> FadeCurve {
    FadeCurve { fade_in: 22, hold: 63, fade_out: 15 }
}

/// "Success!" — a 76×28 texture.
#[allow(non_snake_case)]
pub fn TEMP_OK() -> (p: TempResultParams)
    ensures
        p.texture == TEXTURES[0],
        p.width == 9 && p.pixels == [76u32, 28],
        p.y_offset == -18,
        p.curve == banner_curve(),
        p.max_alpha == 220,
{
    TempResultParams {
        texture: "success.bmp",
        width: 9,
        pixels: [76, 28],
        y_offset: -18,
        curve: FadeCurve { fade_in: 22, hold: 63, fade_out: 15 },
        max_alpha: 220,
    }
}

/// "Failed!" — a 68×45 texture.
#[allow(non_snake_case)]
pub fn TEMP_FAIL() -> (p: TempResultParams)
    ensures
        p.texture == TEXTURES[1],
        p.width == 9 && p.pixels == [68u32, 45],
        p.y_offset == -18,
        p.curve == banner_curve(),
        p.max_alpha == 220,
{
    TempResultParams {
        texture: "failed.bmp",
        width: 9,
        pixels: [68, 45],
        y_offset: -18,
        curve: FadeCurve { fade_in: 22, hold: 63, fade_out: 15 },
        max_alpha: 220,
    }
}

impl TempResultParams {
    /// Full height of the banner in the width's units, as a fraction
    /// `(numerator, denominator)`: `width · pixel height / pixel width`.
    pub fn height(&self) -> (r: (u64, u64))
        ensures
            r.0 == self.width * self.pixels[1],
            r.1 == self.pixels[0],
    {
        proof {
            assert(self.width * self.pixels[1] <= 0xffff_ffff * 0xffff_ffff) by (nonlinear_arith)
                requires
                    self.width <= 0xffff_ffff,
                    self.pixels[1] <= 0xffff_ffff,
            ;
        }
        (self.width as u64 * self.pixels[1] as u64, self.pixels[0] as u64)
    }
}

} // verus!
