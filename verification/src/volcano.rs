//! VOLCANO family — four-emitter ground wreath of upward flame humps
//! (Landprotector, Volcano, Deluge, Violentgale, Ganbantein, Gumgang3).
//!
//! All variants share one shape; they differ in texture, the flame's initial
//! lean, and how fast the alpha ramps up to 200 and back down. The alpha
//! rises `ramp_up` per frame to 200, then falls `ramp_down` per frame; the
//! effect ends the frame the alpha is back at 0. The flames lean from the
//! initial rise angle toward 40°, one degree per frame.
//!
//! This module holds the alpha, lean, lifetime and each emitter's ring
//! radius and turn, exactly, on whole 60 fps frames and at any tick
//! resolution (a tick being a caller-chosen `1/ticks` of a frame), so
//! fractional frame counts are kept exactly.
use vstd::prelude::*;
use crate::draw::EffectStatus;

verus! {

pub const TEXTURES: [&'static str; 5] = ["ring_white.tga", "ring_red.tga", "ring_blue.tga", "magic_green.tga", "ring_yellow.tga"];

/// Peak alpha, `0..=255` units.
pub const ALPHA_MAX: u32 = 200;
/// Flames lean no lower than this, degrees.
pub const MIN_RISE_ANGLE_DEG: u32 = 40;
/// Emitters of the wreath.
pub const NUM_EMITTERS: u32 = 4;
/// Wreath spin per frame, degrees.
pub const ROT_DEG_PER_FRAME: u32 = 3;

/// Integer parameters of one variant.
#[derive(Clone, Copy, Debug)]
pub struct VolcanoParams {
    /// Flame texture.
    pub texture: &'static str,
    /// Flame lean at frame 0, degrees.
    pub initial_rise_angle_deg: u32,
    /// Alpha gained per frame while ramping up.
    pub alpha_ramp_up_per_frame: u32,
    /// Alpha lost per frame while fading.
    pub alpha_ramp_down_per_frame: u32,
}

/// Peak alpha scaled by the ramp-up rate: the alpha on frame `f` is this
/// value divided by `alpha_ramp_up_per_frame`. The ramp-up ends at the
/// (possibly fractional) frame `200 / up`; before it the alpha is `f·up`,
/// after it `200 − (f − 200/up)·down`, clamped at 0. With `up == 0` the
/// ramp never ends and the alpha stays 0.
pub open spec fn volcano_alpha_scaled(p: VolcanoParams, f: int) -> int {
    let up = p.alpha_ramp_up_per_frame as int;
    let down = p.alpha_ramp_down_per_frame as int;
    if f * up < ALPHA_MAX {
        f * up * up
    } else {
        let a = ALPHA_MAX * up - (f * up - ALPHA_MAX) * down;
        if a < 0 { 0 } else { a }
    }
}

/// Denominator of the exact alpha: the ramp-up rate, or 1 when it is 0.
pub open spec fn alpha_den(p: VolcanoParams) -> int {
    if p.alpha_ramp_up_per_frame == 0 { 1 } else { p.alpha_ramp_up_per_frame as int }
}

/// Whether frame `f` is at or past the end of the visible span
/// `200/up + 200/down` (never, if either ramp is 0).
pub open spec fn ends_by(p: VolcanoParams, f: int) -> bool {
    let up = p.alpha_ramp_up_per_frame as int;
    let down = p.alpha_ramp_down_per_frame as int;
    up > 0 && down > 0 && f * up * down >= ALPHA_MAX * (up + down)
}

/// First whole frame at or past the end of the visible span.
pub open spec fn end_frame(p: VolcanoParams) -> int {
    let up = p.alpha_ramp_up_per_frame as int;
    let down = p.alpha_ramp_down_per_frame as int;
    (ALPHA_MAX * (up + down) + up * down - 1) / (up * down)
}

/// Length of the visible span in ms, truncated: `(200/up + 200/down) · 1000 / 60`;
/// `u32::MAX` when a ramp is 0 and the span never ends.
pub open spec fn duration_ms_spec(p: VolcanoParams) -> int {
    let up = p.alpha_ramp_up_per_frame as int;
    let down = p.alpha_ramp_down_per_frame as int;
    if up == 0 || down == 0 {
        u32::MAX as int
    } else {
        10000 * (up + down) / (3 * up * down)
    }
}

/// `EF_LANDPROTECTOR`: white wreath, fast in, slow out.
#[allow(non_snake_case)]
pub fn LANDPROTECTOR() -> (p: VolcanoParams)
    ensures
        p == (VolcanoParams { texture: "ring_white.tga", initial_rise_angle_deg: 60,
            alpha_ramp_up_per_frame: 20, alpha_ramp_down_per_frame: 2 }),
{
    VolcanoParams { texture: "ring_white.tga", initial_rise_angle_deg: 60, alpha_ramp_up_per_frame: 20,
        alpha_ramp_down_per_frame: 2 }
}

/// `EF_VOLCANO`: red wreath.
#[allow(non_snake_case)]
pub fn VOLCANO() -> (p: VolcanoParams)
    ensures
        p == (VolcanoParams { texture: "ring_red.tga", initial_rise_angle_deg: 60,
            alpha_ramp_up_per_frame: 20, alpha_ramp_down_per_frame: 2 }),
{
    VolcanoParams { texture: "ring_red.tga", ..LANDPROTECTOR() }
}

/// `EF_DELUGE`: blue wreath.
#[allow(non_snake_case)]
pub fn DELUGE() -> (p: VolcanoParams)
    ensures
        p == (VolcanoParams { texture: "ring_blue.tga", initial_rise_angle_deg: 60,
            alpha_ramp_up_per_frame: 20, alpha_ramp_down_per_frame: 2 }),
{
    VolcanoParams { texture: "ring_blue.tga", ..LANDPROTECTOR() }
}

/// `EF_VIOLENTGALE`: green wreath.
#[allow(non_snake_case)]
pub fn VIOLENTGALE() -> (p: VolcanoParams)
    ensures
        p == (VolcanoParams { texture: "magic_green.tga", initial_rise_angle_deg: 60,
            alpha_ramp_up_per_frame: 20, alpha_ramp_down_per_frame: 2 }),
{
    VolcanoParams { texture: "magic_green.tga", ..LANDPROTECTOR() }
}

/// `EF_GANBANTEIN`: shorter flames, sharper rise, twice as fast out.
#[allow(non_snake_case)]
pub fn GANBANTEIN() -> (p: VolcanoParams)
    ensures
        p == (VolcanoParams { texture: "ring_white.tga", initial_rise_angle_deg: 52,
            alpha_ramp_up_per_frame: 20, alpha_ramp_down_per_frame: 4 }),
{
    VolcanoParams { texture: "ring_white.tga", initial_rise_angle_deg: 52, alpha_ramp_up_per_frame: 20,
        alpha_ramp_down_per_frame: 4 }
}

/// `EF_GUMGANG3`: yellow wreath with a slower fade-in.
#[allow(non_snake_case)]
pub fn GUMGANG3() -> (p: VolcanoParams)
    ensures
        p == (VolcanoParams { texture: "ring_yellow.tga", initial_rise_angle_deg: 60,
            alpha_ramp_up_per_frame: 10, alpha_ramp_down_per_frame: 2 }),
{
    VolcanoParams { texture: "ring_yellow.tga", alpha_ramp_up_per_frame: 10, ..LANDPROTECTOR() }
}

impl VolcanoParams {
    /// First whole frame on which the effect is over; `None` when a ramp
    /// is 0 and it never ends.
    pub fn visible_frames(&self) -> (r: Option<u32>)
        ensures
            r == (if self.alpha_ramp_up_per_frame == 0 || self.alpha_ramp_down_per_frame == 0 {
                None
            } else {
                Some(end_frame(*self) as u32)
            }),
            r matches Some(n) ==> n <= 2 * ALPHA_MAX,
    {
        let up = self.alpha_ramp_up_per_frame as u128;
        let down = self.alpha_ramp_down_per_frame as u128;
        if up == 0 || down == 0 {
            return None;
        }
        proof {
            assert(up * down <= 0xFFFF_FFFF * 0xFFFF_FFFFu128 && up * down >= 1) by (nonlinear_arith)
                requires 1 <= up <= 0xFFFF_FFFF, 1 <= down <= 0xFFFF_FFFF;
        }
        let ud = up * down;
        let n: u128 = 200 * (up + down) + ud - 1;
        proof {
            lemma_end_frame_bound(up as int, down as int);
        }
        Some((n / ud) as u32)
    }

    /// Wall-clock length in ms (truncated).
    pub fn total_duration_ms(&self) -> (r: u32)
        ensures
            r == duration_ms_spec(*self),
    {
        let up = self.alpha_ramp_up_per_frame as u128;
        let down = self.alpha_ramp_down_per_frame as u128;
        if up == 0 || down == 0 {
            return u32::MAX;
        }
        proof {
            assert(up * down <= 0xFFFF_FFFF * 0xFFFF_FFFFu128 && up * down >= 1) by (nonlinear_arith)
                requires 1 <= up <= 0xFFFF_FFFF, 1 <= down <= 0xFFFF_FFFF;
        }
        let d: u128 = 3 * (up * down);
        let n: u128 = 10000 * (up + down);
        proof {
            lemma_duration_bound(up as int, down as int);
            assert(3 * (up * down) == 3 * up * down) by (nonlinear_arith);
        }
        (n / d) as u32
    }

    /// Alpha on whole frame `frame`, exactly, as `(num, den)`: `num / den`
    /// units of `0..=200`.
    pub fn alpha_at(&self, frame: u32) -> (r: (u64, u64))
        ensures
            r.0 == volcano_alpha_scaled(*self, frame as int),
            r.1 == alpha_den(*self),
            r.0 <= ALPHA_MAX * r.1,
    {
        let up = self.alpha_ramp_up_per_frame as u128;
        let down = self.alpha_ramp_down_per_frame as u128;
        if up == 0 {
            return (0, 1);
        }
        let f = frame as u128;
        proof {
            assert(f * up <= 0xFFFF_FFFF * 0xFFFF_FFFFu128) by (nonlinear_arith)
                requires f <= 0xFFFF_FFFF, up <= 0xFFFF_FFFF;
        }
        let fu = f * up;
        let scaled: u128 = if fu < 200 {
            proof {
                assert(fu * up <= 200 * up) by (nonlinear_arith) requires fu < 200, up >= 0;
            }
            fu * up
        } else {
            proof {
                assert((fu - 200) * down <= 0xFFFF_FFFF_FFFF_FFFFu128 * 0xFFFF_FFFF) by (nonlinear_arith)
                    requires fu - 200 <= 0xFFFF_FFFF_FFFF_FFFFu128, down <= 0xFFFF_FFFF, fu >= 200;
            }
            let fall = (fu - 200) * down;
            if fall >= 200 * up { 0 } else { 200 * up - fall }
        };
        proof {
            assert(scaled == volcano_alpha_scaled(*self, frame as int));
            assert(scaled <= 200 * up);
        }
        (scaled as u64, up as u64)
    }

    /// Flame lean on frame `frame`: the initial angle minus one degree per
    /// frame, no lower than 40°.
    pub fn rise_angle_at(&self, frame: u32) -> (r: u32)
        ensures
            r == (if self.initial_rise_angle_deg as int - frame as int > MIN_RISE_ANGLE_DEG {
                self.initial_rise_angle_deg as int - frame as int
            } else {
                MIN_RISE_ANGLE_DEG as int
            }),
    {
        if frame < self.initial_rise_angle_deg && self.initial_rise_angle_deg - frame > MIN_RISE_ANGLE_DEG {
            self.initial_rise_angle_deg - frame
        } else {
            MIN_RISE_ANGLE_DEG
        }
    }

    /// `Dead` once the visible span has elapsed.
    pub fn status_at(&self, frame: u32) -> (s: EffectStatus)
        ensures
            s == (if ends_by(*self, frame as int) { EffectStatus::Dead } else { EffectStatus::Running }),
    {
        let up = self.alpha_ramp_up_per_frame as u128;
        let down = self.alpha_ramp_down_per_frame as u128;
        if up == 0 || down == 0 {
            return EffectStatus::Running;
        }
        let f = frame as u128;
        proof {
            assert(f * up <= 0xFFFF_FFFF * 0xFFFF_FFFFu128) by (nonlinear_arith)
                requires f <= 0xFFFF_FFFF, up <= 0xFFFF_FFFF;
            assert(f * up * down <= 0xFFFF_FFFF * 0xFFFF_FFFF * 0xFFFF_FFFFu128) by (nonlinear_arith)
                requires f * up <= 0xFFFF_FFFF * 0xFFFF_FFFFu128, down <= 0xFFFF_FFFF;
        }
        if f * up * down >= 200 * (up + down) { EffectStatus::Dead } else { EffectStatus::Running }
    }
}

/// The alpha `n` ticks in at `t` ticks a frame, scaled by `up · t`: the
/// ramp-up ends at tick `200·t/up`; before it the alpha is `(n/t)·up`,
/// after it `200 − (n/t − 200/up)·down`, clamped at 0.
pub open spec fn volcano_alpha_ticks_scaled(p: VolcanoParams, n: int, t: int) -> int {
    let up = p.alpha_ramp_up_per_frame as int;
    let down = p.alpha_ramp_down_per_frame as int;
    if n * up < ALPHA_MAX * t {
        n * up * up
    } else {
        let a = ALPHA_MAX * up * t - (n * up - ALPHA_MAX * t) * down;
        if a < 0 { 0 } else { a }
    }
}

/// Whether tick `n` at `t` ticks a frame is at or past the end of the
/// visible span `200/up + 200/down` frames (never, if either ramp is 0).
pub open spec fn ends_by_ticks(p: VolcanoParams, n: int, t: int) -> bool {
    let up = p.alpha_ramp_up_per_frame as int;
    let down = p.alpha_ramp_down_per_frame as int;
    up > 0 && down > 0 && n * up * down >= ALPHA_MAX * (up + down) * t
}

impl VolcanoParams {
    /// Alpha `n` ticks in at `ticks` ticks a frame, exactly, as `(num,
    /// den)`: `num / den` units of `0..=200`, the denominator being
    /// `up · ticks` (or 1 when the ramp-up is 0).
    pub fn alpha_in_ticks(&self, n: u32, ticks: u32) -> (r: (u128, u128))
        requires
            ticks >= 1,
        ensures
            self.alpha_ramp_up_per_frame > 0 ==> r.0 == volcano_alpha_ticks_scaled(*self, n as int, ticks as int),
            self.alpha_ramp_up_per_frame > 0 ==> r.1 == self.alpha_ramp_up_per_frame * ticks,
            self.alpha_ramp_up_per_frame == 0 ==> r == (0u128, 1u128),
            r.0 <= ALPHA_MAX * r.1,
    {
        let up = self.alpha_ramp_up_per_frame as u128;
        let down = self.alpha_ramp_down_per_frame as u128;
        if up == 0 {
            return (0, 1);
        }
        let f = n as u128;
        let t = ticks as u128;
        proof {
            assert(f * up <= 0xFFFF_FFFF * 0xFFFF_FFFFu128 && up * t <= 0xFFFF_FFFF * 0xFFFF_FFFFu128) by (nonlinear_arith)
                requires f <= 0xFFFF_FFFF, up <= 0xFFFF_FFFF, t <= 0xFFFF_FFFF;
        }
        let fu = f * up;
        let ut = up * t;
        let scaled: u128 = if fu < 200 * t {
            proof {
                assert(fu * up <= 200 * (up * t)) by (nonlinear_arith) requires fu < 200 * t, up >= 0;
            }
            fu * up
        } else {
            proof {
                assert((fu - 200 * t) * down <= 0xFFFF_FFFF_FFFF_FFFFu128 * 0xFFFF_FFFF) by (nonlinear_arith)
                    requires fu - 200 * t <= 0xFFFF_FFFF_FFFF_FFFFu128, down <= 0xFFFF_FFFF, fu >= 200 * t;
                assert(200 * up * t == 200 * (up * t)) by (nonlinear_arith);
            }
            let fall = (fu - 200 * t) * down;
            if fall >= 200 * ut { 0 } else { 200 * ut - fall }
        };
        proof {
            assert(scaled == volcano_alpha_ticks_scaled(*self, n as int, ticks as int));
            assert(scaled <= 200 * ut);
        }
        (scaled, ut)
    }

    /// `Dead` once the visible span has elapsed, `n` ticks in at `ticks`
    /// ticks a frame.
    pub fn status_in_ticks(&self, n: u32, ticks: u32) -> (s: EffectStatus)
        ensures
            s == (if ends_by_ticks(*self, n as int, ticks as int) { EffectStatus::Dead } else { EffectStatus::Running }),
    {
        let up = self.alpha_ramp_up_per_frame as u128;
        let down = self.alpha_ramp_down_per_frame as u128;
        if up == 0 || down == 0 {
            return EffectStatus::Running;
        }
        let f = n as u128;
        let t = ticks as u128;
        proof {
            assert(f * up <= 0xFFFF_FFFF * 0xFFFF_FFFFu128) by (nonlinear_arith)
                requires f <= 0xFFFF_FFFF, up <= 0xFFFF_FFFF;
            assert(f * up * down <= 0xFFFF_FFFF * 0xFFFF_FFFF * 0xFFFF_FFFFu128) by (nonlinear_arith)
                requires f * up <= 0xFFFF_FFFF * 0xFFFF_FFFFu128, down <= 0xFFFF_FFFF;
            assert(200 * (up + down) * t <= 400 * 0xFFFF_FFFF * 0xFFFF_FFFFu128) by (nonlinear_arith)
                requires up <= 0xFFFF_FFFF, down <= 0xFFFF_FFFF, t <= 0xFFFF_FFFF;
        }
        if f * up * down >= 200 * (up + down) * t { EffectStatus::Dead } else { EffectStatus::Running }
    }

    /// Flame lean `n` ticks in at `ticks` ticks a frame, in `1/ticks` of a
    /// degree: the initial angle minus one degree per frame, no lower than
    /// 40°.
    pub fn rise_angle_in_ticks(&self, n: u32, ticks: u32) -> (r: u64)
        ensures
            r == (if self.initial_rise_angle_deg * ticks - n > MIN_RISE_ANGLE_DEG * ticks {
                self.initial_rise_angle_deg * ticks - n
            } else {
                MIN_RISE_ANGLE_DEG * ticks
            }),
    {
        proof {
            assert(self.initial_rise_angle_deg * ticks <= 0xFFFF_FFFF * 0xFFFF_FFFFu64) by (nonlinear_arith)
                requires self.initial_rise_angle_deg <= 0xFFFF_FFFF, ticks <= 0xFFFF_FFFF;
        }
        let a = self.initial_rise_angle_deg as u64 * ticks as u64;
        let floor = 40 * ticks as u64;
        if (n as u64) < a && a - n as u64 > floor { a - n as u64 } else { floor }
    }
}

/// Emitter `ec`'s ring `n` ticks in at `ticks` ticks a frame: its base
/// radius in `1/(20·ticks)` of a unit and its turn in `1/ticks` of a
/// degree.
pub fn emitter_ring_in_ticks(ec: u32, n: u32, ticks: u32) -> (r: (u64, u64))
    requires
        ec < NUM_EMITTERS,
    ensures
        r.0 == (30 + 5 * ec) * ticks + 2 * n,
        r.1 == 90 * ec * ticks + ROT_DEG_PER_FRAME * n,
{
    let t = ticks as u64;
    let e = ec as u64;
    proof {
        assert((30 + 5 * e) * t <= 50 * 0xFFFF_FFFFu64 && 90 * e * t <= 270 * 0xFFFF_FFFFu64) by (nonlinear_arith)
            requires e < 4, t <= 0xFFFF_FFFF;
    }
    ((30 + 5 * e) * t + 2 * n as u64, 90 * e * t + ROT_DEG_PER_FRAME as u64 * n as u64)
}

/// At any tick resolution the alpha never exceeds 200, stays positive at
/// every moment strictly inside the visible span and is 0 from its end on.
pub proof fn wreath_fades_exactly_at_its_end_in_ticks(p: VolcanoParams, n: int, t: int)
    requires
        n >= 0,
        t >= 1,
    ensures
        0 <= volcano_alpha_ticks_scaled(p, n, t) <= ALPHA_MAX * p.alpha_ramp_up_per_frame * t,
        p.alpha_ramp_up_per_frame > 0 && n > 0 && !ends_by_ticks(p, n, t) ==> volcano_alpha_ticks_scaled(p, n, t) > 0,
        ends_by_ticks(p, n, t) ==> volcano_alpha_ticks_scaled(p, n, t) == 0,
{
    let up = p.alpha_ramp_up_per_frame as int;
    let down = p.alpha_ramp_down_per_frame as int;
    let s = volcano_alpha_ticks_scaled(p, n, t);
    if n * up < 200 * t {
        assert(s <= 200 * up * t) by (nonlinear_arith) requires s == n * up * up, n * up < 200 * t, up >= 0;
        assert(s >= 0) by (nonlinear_arith) requires s == n * up * up, n >= 0, up >= 0;
        if up > 0 && n > 0 {
            assert(s > 0) by (nonlinear_arith) requires s == n * up * up, n > 0, up > 0;
        }
        if ends_by_ticks(p, n, t) {
            assert(n * up * down >= 200 * down * t) by (nonlinear_arith)
                requires n * up * down >= 200 * (up + down) * t, up > 0, down > 0, t >= 1;
            assert(n * up >= 200 * t) by (nonlinear_arith) requires n * up * down >= 200 * down * t, down > 0;
        }
    } else {
        assert((n * up - 200 * t) * down >= 0) by (nonlinear_arith) requires n * up >= 200 * t, down >= 0;
        if up > 0 && !ends_by_ticks(p, n, t) {
            if down > 0 {
                assert(200 * up * t - (n * up - 200 * t) * down > 0) by (nonlinear_arith)
                    requires n * up * down < 200 * (up + down) * t;
            } else {
                assert((n * up - 200 * t) * down == 0) by (nonlinear_arith) requires down == 0;
                assert(200 * up * t > 0) by (nonlinear_arith) requires up > 0, t >= 1;
            }
        }
        if ends_by_ticks(p, n, t) {
            assert(200 * up * t - (n * up - 200 * t) * down <= 0) by (nonlinear_arith)
                requires n * up * down >= 200 * (up + down) * t;
        }
        assert(200 * up * t - (n * up - 200 * t) * down <= 200 * up * t) by (nonlinear_arith)
            requires (n * up - 200 * t) * down >= 0;
    }
}

proof fn lemma_end_frame_bound(up: int, down: int)
    requires
        1 <= up <= 0xFFFF_FFFF,
        1 <= down <= 0xFFFF_FFFF,
    ensures
        (200 * (up + down) + up * down - 1) / (up * down) <= 400,
        (200 * (up + down) + up * down - 1) / (up * down) >= 0,
{
    let d = up * down;
    assert(d >= 1 && d >= up && d >= down) by (nonlinear_arith) requires up >= 1, down >= 1, d == up * down;
    let n = 200 * (up + down) + d - 1;
    assert(n < 401 * d);
    vstd::arithmetic::div_mod::lemma_fundamental_div_mod(n, d);
    let q = n / d;
    assert(q <= 400) by (nonlinear_arith) requires n == d * q + n % d, n % d >= 0, n < 401 * d, d >= 1;
    assert(q >= 0) by (nonlinear_arith) requires n == d * q + n % d, n % d < d, n >= 0, d >= 1;
}

proof fn lemma_duration_bound(up: int, down: int)
    requires
        1 <= up <= 0xFFFF_FFFF,
        1 <= down <= 0xFFFF_FFFF,
    ensures
        0 <= 10000 * (up + down) / (3 * (up * down)) <= 6666,
{
    let ud = up * down;
    let d = 3 * ud;
    assert(ud >= up && ud >= down) by (nonlinear_arith) requires up >= 1, down >= 1, ud == up * down;
    let n = 10000 * (up + down);
    assert(n < 6667 * d);
    vstd::arithmetic::div_mod::lemma_fundamental_div_mod(n, d);
    let q = n / d;
    assert(q <= 6666) by (nonlinear_arith) requires n == d * q + n % d, n % d >= 0, n < 6667 * d, d >= 1;
    assert(q >= 0) by (nonlinear_arith) requires n == d * q + n % d, n % d < d, n >= 0, d >= 1;
}

/// The alpha never exceeds 200; with a ramp-up that divides 200 it peaks at
/// exactly 200 when the ramp-up ends; it stays positive on every frame
/// strictly inside the visible span and is 0 from its end on; and the first
/// frame of that end is `visible_frames`.
pub proof fn wreath_fades_exactly_at_its_end(p: VolcanoParams, f: int)
    requires
        f >= 0,
    ensures
        0 <= volcano_alpha_scaled(p, f) <= ALPHA_MAX * p.alpha_ramp_up_per_frame,
        p.alpha_ramp_up_per_frame > 0 && ALPHA_MAX % p.alpha_ramp_up_per_frame == 0
            ==> volcano_alpha_scaled(p, (ALPHA_MAX / p.alpha_ramp_up_per_frame) as int)
                == ALPHA_MAX * p.alpha_ramp_up_per_frame,
        p.alpha_ramp_up_per_frame > 0 && f > 0 && !ends_by(p, f) ==> volcano_alpha_scaled(p, f) > 0,
        ends_by(p, f) ==> volcano_alpha_scaled(p, f) == 0,
        p.alpha_ramp_up_per_frame > 0 && p.alpha_ramp_down_per_frame > 0
            ==> (ends_by(p, f) <==> f >= end_frame(p)),
{
    let up = p.alpha_ramp_up_per_frame as int;
    let down = p.alpha_ramp_down_per_frame as int;
    let s = volcano_alpha_scaled(p, f);
    if f * up < 200 {
        assert(s <= 200 * up) by (nonlinear_arith) requires s == f * up * up, f * up < 200, up >= 0;
        assert(s >= 0) by (nonlinear_arith) requires s == f * up * up, f >= 0, up >= 0;
        if up > 0 && f > 0 {
            assert(s > 0) by (nonlinear_arith) requires s == f * up * up, f > 0, up > 0;
        }
        if ends_by(p, f) {
            assert(f * up * down >= 200 * down) by (nonlinear_arith)
                requires f * up * down >= 200 * (up + down), up > 0, down > 0;
            assert(f * up >= 200) by (nonlinear_arith) requires f * up * down >= 200 * down, down > 0;
        }
    } else {
        assert((f * up - 200) * down >= 0) by (nonlinear_arith) requires f * up >= 200, down >= 0;
        if up > 0 && !ends_by(p, f) {
            if down > 0 {
                assert(200 * up - (f * up - 200) * down > 0) by (nonlinear_arith)
                    requires f * up * down < 200 * (up + down);
            } else {
                assert((f * up - 200) * down == 0) by (nonlinear_arith) requires down == 0;
                assert(200 * up > 0);
            }
            assert(s > 0);
        }
        if ends_by(p, f) {
            assert(200 * up - (f * up - 200) * down <= 0) by (nonlinear_arith)
                requires f * up * down >= 200 * (up + down);
        }
    }
    if up > 0 {
        if 200int % up == 0 {
            let r = 200int / up;
            vstd::arithmetic::div_mod::lemma_fundamental_div_mod(200int, up);
            assert(r * up == 200) by (nonlinear_arith) requires 200 == up * r + 200int % up, 200int % up == 0;
            assert(volcano_alpha_scaled(p, r) == 200 * up) by (nonlinear_arith)
                requires r * up == 200, up > 0, volcano_alpha_scaled(p, r) == (if r * up < 200 { r * up * up } else {
                    let a = 200 * up - (r * up - 200) * down; if a < 0 { 0 } else { a } });
        }
        if down > 0 {
            let d = up * down;
            let n = 200 * (up + down) + d - 1;
            assert(d >= 1) by (nonlinear_arith) requires up >= 1, down >= 1, d == up * down;
            vstd::arithmetic::div_mod::lemma_fundamental_div_mod(n, d);
            let q = n / d;
            assert(f * up * down == f * d) by (nonlinear_arith) requires d == up * down;
            assert(f >= q <==> f * d >= 200 * (up + down)) by (nonlinear_arith)
                requires n == d * q + n % d, 0 <= n % d < d, d >= 1, n == 200 * (up + down) + d - 1;
        }
    }
}

/// Emitter `ec`'s ring on frame `f`: its base radius in 20ths of a unit
/// (`1.5 + 0.25·ec`, growing `0.1` a frame) and its turn in degrees
/// (`90·ec`, turning 3° a frame). The flame's outward and upward reach are
/// its tilt times the cosine and sine of the lean.
pub fn emitter_ring(ec: u32, frame: u32) -> (r: (u64, u64))
    requires
        ec < NUM_EMITTERS,
    ensures
        r.0 == 30 + 5 * ec + 2 * frame,
        r.1 == 90 * ec + ROT_DEG_PER_FRAME * frame,
{
    (30 + 5 * ec as u64 + 2 * frame as u64, 90 * ec as u64 + ROT_DEG_PER_FRAME as u64 * frame as u64)
}

} // verus!
