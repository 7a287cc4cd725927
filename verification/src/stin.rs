//! STIN wind-swirl family — `EF_STIN`, `EF_STIN2`, `EF_STIN4`, `EF_STIN5`.
//!
//! Each cast spawns one or more *swirls*: a spinning wind ring that flies
//! along the caster→target heading, leaving a four-slot motion trail. Slot 0
//! is the head; every third frame of a swirl's life the trail shifts down
//! one slot, each copy taking `0.8` of the alpha of the slot before it.
//!
//! * **STIN**: one straight blue swirl, fading in then out.
//! * **STIN2**: two homing swirls, curled `+90°` and `−90°`.
//! * **STIN4**: eight homing swirls fanning out, alternating curl.
//! * **STIN5**: five green swirls spawned over frames 0–4 at cardinal
//!   offsets.
//!
//! A straight swirl's head rises `fade_in` per frame (capped at `alpha_max`)
//! through frame `fade_after` of its life, then falls `fade_out` per frame.
//! A homing swirl in flight rises through its frame 20; from its frame 6 on
//! it seeks the target until it reaches it, and once it has it fades every
//! slot by `fade_out` per frame. A cast in place (no caster→target
//! direction) steps every swirl straight. A swirl retires once every slot is
//! dark and it is past frame `fade_after`.
//!
//! Alphas here are kept exactly in units of 1/125 of the 0..255 scale, so the
//! `0.8` trail factors stay whole. Whether a homing swirl has reached its
//! target is the renderer's geometry: it comes in as an event. Headings,
//! spin and flight are the renderer's too.
use vstd::prelude::*;
use crate::draw::EffectStatus;
use crate::rng::{lcg_step, Rng};

verus! {

/// The wind texture, with its Korean-named fallback.
pub const WIND_TEXTURE: &'static str = "wind.tga|270\u{bc14}\u{b78c}.tga";
/// Every texture the swirls draw with.
pub const TEXTURES: [&'static str; 1] = [WIND_TEXTURE];
/// Frames between two trail shifts.
pub const TRAIL_SHIFT_FRAMES: u32 = 3;
/// Frames through which a homing swirl keeps rising.
pub const HOMING_RISE_FRAMES: u32 = 20;
/// Frames a homing swirl flies before it starts seeking.
pub const HOMING_LAUNCH_FRAMES: u32 = 5;
/// Frames over which STIN5 spawns its swirls.
pub const STAGGER_FRAMES: u32 = 5;
/// One unit of the 0..255 alpha scale, in the units the swirls are kept in.
pub const ALPHA_UNIT: u32 = 125;

/// How a cast spawns its swirls.
#[derive(Clone, Copy, Debug, PartialEq, Eq, Structural)]
pub enum SpawnKind {
    /// One swirl flying straight along the heading.
    Single,
    /// Two swirls, curl `+90°` and `−90°`.
    CurlPair,
    /// `count` swirls, alternating curl side, with a random spread.
    Fan { count: u32 },
    /// Five swirls spawned over frames 0–4 at small offsets.
    Staggered,
}

/// Parameters of one STIN variant.
#[derive(Clone, Copy, Debug)]
pub struct StinParams {
    /// Tint, percent of full red, green and blue.
    pub tint_pct: [u32; 3],
    /// Swirls steer toward the target each frame.
    pub homing: bool,
    /// Travel per frame along the heading, tenths of a world unit.
    pub step_tenths: u32,
    /// The step grows while the swirl flies.
    pub grow: bool,
    /// Corner radius of a swirl, world units.
    pub distance: u32,
    /// Spread of the radius, world units.
    pub distance_rand: u32,
    /// Alpha rise per frame, 0..255 scale.
    pub fade_in: u32,
    /// Alpha cap, 0..255 scale.
    pub alpha_max: u32,
    /// Alpha fall per frame, 0..255 scale.
    pub fade_out: u32,
    /// Frame of its life after which a straight swirl starts fading.
    pub fade_after: u32,
    /// How the cast spawns its swirls.
    pub spawn: SpawnKind,
}

/// STIN: one straight blue swirl.
#[allow(non_snake_case)]
pub fn STIN() -> (p: StinParams)
    ensures
        p.spawn == SpawnKind::Single,
        !p.homing && p.grow,
        p.fade_in == 25 && p.alpha_max == 250 && p.fade_out == 5 && p.fade_after == 10,
        p.tint_pct == [45u32, 50, 100],
        p == (
            StinParams {
                tint_pct: [45, 50, 100],
                homing: false,
                step_tenths: 8,
                grow: true,
                distance: 14,
                distance_rand: 0,
                fade_in: 25,
                alpha_max: 250,
                fade_out: 5,
                fade_after: 10,
                spawn: SpawnKind::Single,
            }
        ),
{
    StinParams {
        tint_pct: [45, 50, 100],
        homing: false,
        step_tenths: 8,
        grow: true,
        distance: 14,
        distance_rand: 0,
        fade_in: 25,
        alpha_max: 250,
        fade_out: 5,
        fade_after: 10,
        spawn: SpawnKind::Single,
    }
}

/// STIN2: two homing swirls curled to either side.
#[allow(non_snake_case)]
pub fn STIN2() -> (p: StinParams)
    ensures
        p.spawn == SpawnKind::CurlPair,
        p.homing && !p.grow,
        p.fade_in == 15 && p.alpha_max == 250 && p.fade_out == 5 && p.fade_after == 140,
        p == (
            StinParams {
                tint_pct: [45, 50, 100],
                homing: true,
                step_tenths: 20,
                grow: false,
                distance: 7,
                distance_rand: 0,
                fade_in: 15,
                alpha_max: 250,
                fade_out: 5,
                fade_after: 140,
                spawn: SpawnKind::CurlPair,
            }
        ),
{
    StinParams {
        tint_pct: [45, 50, 100],
        homing: true,
        step_tenths: 20,
        grow: false,
        distance: 7,
        distance_rand: 0,
        fade_in: 15,
        alpha_max: 250,
        fade_out: 5,
        fade_after: 140,
        spawn: SpawnKind::CurlPair,
    }
}

/// STIN4: eight homing swirls fanning out.
#[allow(non_snake_case)]
pub fn STIN4() -> (p: StinParams)
    ensures
        p.spawn == (SpawnKind::Fan { count: 8 }),
        p.homing && !p.grow,
        p.fade_in == 8 && p.alpha_max == 120 && p.fade_out == 5 && p.fade_after == 20,
        p.distance == 4 && p.distance_rand == 2,
        p == (
            StinParams {
                tint_pct: [45, 50, 100],
                homing: true,
                step_tenths: 15,
                grow: false,
                distance: 4,
                distance_rand: 2,
                fade_in: 8,
                alpha_max: 120,
                fade_out: 5,
                fade_after: 20,
                spawn: SpawnKind::Fan { count: 8 },
            }
        ),
{
    StinParams {
        tint_pct: [45, 50, 100],
        homing: true,
        step_tenths: 15,
        grow: false,
        distance: 4,
        distance_rand: 2,
        fade_in: 8,
        alpha_max: 120,
        fade_out: 5,
        fade_after: 20,
        spawn: SpawnKind::Fan { count: 8 },
    }
}

/// STIN5: five green straight swirls, staggered.
#[allow(non_snake_case)]
pub fn STIN5() -> (p: StinParams)
    ensures
        p.spawn == SpawnKind::Staggered,
        !p.homing && p.grow,
        p.fade_in == 6 && p.alpha_max == 60 && p.fade_out == 3 && p.fade_after == 10,
        p.tint_pct == [45u32, 100, 50],
        p == (
            StinParams {
                tint_pct: [45, 100, 50],
                homing: false,
                step_tenths: 15,
                grow: true,
                distance: 14,
                distance_rand: 0,
                fade_in: 6,
                alpha_max: 60,
                fade_out: 3,
                fade_after: 10,
                spawn: SpawnKind::Staggered,
            }
        ),
{
    StinParams {
        tint_pct: [45, 100, 50],
        homing: false,
        step_tenths: 15,
        grow: true,
        distance: 14,
        distance_rand: 0,
        fade_in: 6,
        alpha_max: 60,
        fade_out: 3,
        fade_after: 10,
        spawn: SpawnKind::Staggered,
    }
}

/// The variant's alphas are on the 0..255 scale.
pub open spec fn params_wf(p: StinParams) -> bool {
    p.alpha_max <= 255
}

/// Planned length of a cast, milliseconds: the fade-after window, the rise
/// to `alpha_max`, the fall back to 0, and 20 frames for the trail tail and
/// the stagger, at 60 fps, rounded down.
pub open spec fn total_duration_ms_spec(p: StinParams) -> int {
    let fi = p.fade_in as int;
    let fo = p.fade_out as int;
    let n = (p.fade_after + 20) * fi * fo + p.alpha_max * fo + p.alpha_max * fi;
    1000 * n / (60 * fi * fo)
}

impl StinParams {
    /// Planned length of a cast, milliseconds.
    pub fn total_duration_ms(&self) -> (r: u64)
        requires
            params_wf(*self),
            self.fade_in > 0,
            self.fade_out > 0,
        ensures
            r == total_duration_ms_spec(*self),
    {
        let fi = self.fade_in as u128;
        let fo = self.fade_out as u128;
        let fa = self.fade_after as u128;
        let am = self.alpha_max as u128;
        proof {
            assert(fi * fo <= 0xffff_ffff * 0xffff_ffff) by (nonlinear_arith)
                requires
                    fi <= 0xffff_ffff,
                    fo <= 0xffff_ffff,
            ;
            assert((fa + 20) * (fi * fo) <= 0x1_0000_0014 * (0xffff_ffff * 0xffff_ffff)) by (nonlinear_arith)
                requires
                    fa + 20 <= 0x1_0000_0014,
                    fi * fo <= 0xffff_ffff * 0xffff_ffff,
            ;
        }
        let ff: u128 = fi * fo;
        proof {
            assert((fa + 20) * ff <= 0x1_0000_0014 * (0xffff_ffff * 0xffff_ffff));
            assert(am * fo <= 255 * 0xffff_ffff) by (nonlinear_arith)
                requires
                    am <= 255,
                    fo <= 0xffff_ffff,
            ;
            assert(am * fi <= 255 * 0xffff_ffff) by (nonlinear_arith)
                requires
                    am <= 255,
                    fi <= 0xffff_ffff,
            ;
        }
        let n: u128 = (fa + 20) * ff + am * fo + am * fi;
        let d: u128 = 60 * ff;
        let ghost bound: int = 1000 * (fa + 530);
        proof {
            assert(ff >= 1) by (nonlinear_arith)
                requires
                    fi >= 1,
                    fo >= 1,
                    ff == fi * fo,
            ;
            assert(60 * fi * fo == 60 * ff) by (nonlinear_arith)
                requires
                    ff == fi * fo,
            ;
            assert((fa + 20) * fi * fo == (fa + 20) * ff) by (nonlinear_arith)
                requires
                    ff == fi * fo,
            ;
            assert(n <= (fa + 530) * ff) by (nonlinear_arith)
                requires
                    n == (fa + 20) * ff + am * fo + am * fi,
                    ff == fi * fo,
                    am <= 255,
                    fi >= 1,
                    fo >= 1,
            ;
            assert(1000 * n <= bound * d) by (nonlinear_arith)
                requires
                    n <= (fa + 530) * ff,
                    bound == 1000 * (fa + 530),
                    d == 60 * ff,
                    ff >= 1,
            ;
            vstd::arithmetic::div_mod::lemma_div_is_ordered(1000 * n as int, bound * d, d as int);
            vstd::arithmetic::div_mod::lemma_div_by_multiple(bound, d as int);
        }
        let ms: u128 = 1000 * n / d;
        proof {
            assert(ms <= bound);
        }
        ms as u64
    }
}

/// The alpha state of one swirl: its frame count, whether it has reached
/// its target, and the alphas of its head and three trail copies, in
/// 1/125 units of the 0..255 scale.
#[derive(Clone, Copy, Debug, PartialEq, Eq, Structural)]
pub struct SwirlState {
    /// Frames stepped so far.
    pub process: u32,
    /// A homing swirl has reached its target.
    pub arrived: bool,
    /// Head alpha.
    pub head: u32,
    /// First trail copy.
    pub trail1: u32,
    /// Second trail copy.
    pub trail2: u32,
    /// Third trail copy.
    pub trail3: u32,
}

/// A swirl just spawned: frame 0, dark.
pub open spec fn fresh_swirl() -> SwirlState {
    SwirlState { process: 0, arrived: false, head: 0, trail1: 0, trail2: 0, trail3: 0 }
}

/// The alphas are whole steps of the 0.8 trail factor and within the cap:
/// the head a multiple of 125, the copies of 25, 5 and 1, each at most
/// `0.8` of the one before times the cap.
pub open spec fn swirl_wf(s: SwirlState, p: StinParams) -> bool {
    &&& s.head % 125 == 0
    &&& s.trail1 % 25 == 0
    &&& s.trail2 % 5 == 0
    &&& s.head <= 125 * p.alpha_max
    &&& s.trail1 <= 100 * p.alpha_max
    &&& s.trail2 <= 80 * p.alpha_max
    &&& s.trail3 <= 64 * p.alpha_max
}

/// `a + by`, capped at `cap`.
pub open spec fn rise(a: int, by: int, cap: int) -> int {
    if a + by < cap { a + by } else { cap }
}

/// `a − by`, floored at 0.
pub open spec fn fall(a: int, by: int) -> int {
    if a - by > 0 { a - by } else { 0 }
}

/// The alpha update of one frame, before the trail shifts. `in_flight` is
/// whether the cast has a caster→target direction; `reach` whether a
/// seeking homing swirl reaches its target this frame.
pub open spec fn swirl_fade(s: SwirlState, p: StinParams, in_flight: bool, reach: bool) -> SwirlState {
    let q = s.process + 1;
    let fi = ALPHA_UNIT * p.fade_in;
    let fo = ALPHA_UNIT * p.fade_out;
    let cap = ALPHA_UNIT * p.alpha_max;
    if p.homing && in_flight {
        let h = if q <= HOMING_RISE_FRAMES { rise(s.head as int, fi, cap) } else { s.head as int };
        if q <= HOMING_LAUNCH_FRAMES {
            SwirlState { process: q as u32, head: h as u32, ..s }
        } else if !s.arrived {
            SwirlState { process: q as u32, head: h as u32, arrived: reach, ..s }
        } else {
            SwirlState {
                process: q as u32,
                arrived: true,
                head: fall(h, fo) as u32,
                trail1: fall(s.trail1 as int, fo) as u32,
                trail2: fall(s.trail2 as int, fo) as u32,
                trail3: fall(s.trail3 as int, fo) as u32,
            }
        }
    } else {
        let h = if q <= p.fade_after { rise(s.head as int, fi, cap) } else { fall(s.head as int, fo) };
        SwirlState { process: q as u32, head: h as u32, ..s }
    }
}

/// The trail shift: each copy takes `0.8` of the slot before it.
pub open spec fn trail_shift(s: SwirlState) -> SwirlState {
    SwirlState {
        trail1: (s.head * 4 / 5) as u32,
        trail2: (s.trail1 * 4 / 5) as u32,
        trail3: (s.trail2 * 4 / 5) as u32,
        ..s
    }
}

/// One frame of a swirl: the alpha update, then the trail shift on every
/// third frame of its life.
pub open spec fn swirl_step(s: SwirlState, p: StinParams, in_flight: bool, reach: bool) -> SwirlState {
    let f = swirl_fade(s, p, in_flight, reach);
    if f.process % TRAIL_SHIFT_FRAMES == 0 { trail_shift(f) } else { f }
}

/// A swirl retires once every slot is dark and it is past `fade_after`.
pub open spec fn swirl_done(s: SwirlState, p: StinParams) -> bool {
    s.head == 0 && s.trail1 == 0 && s.trail2 == 0 && s.trail3 == 0 && s.process > p.fade_after
}

/// Taking `4/5` of a multiple of `5k` gives a multiple of `4k`, and
/// dividing first loses nothing.
proof fn lemma_four_fifths(x: int, k: int)
    requires
        x >= 0,
        k == 125 || k == 25 || k == 5,
        x % k == 0,
    ensures
        x / 5 * 4 == x * 4 / 5,
        (x * 4 / 5) % (k / 5) == 0,
        x * 4 / 5 <= x,
{
    vstd::arithmetic::div_mod::lemma_fundamental_div_mod(x, k);
    let m = x / k;
    assert(x == k * m);
    if k == 125 {
        assert(x / 5 == 25 * m);
        assert(x * 4 / 5 == 100 * m);
        assert((100 * m) % 25 == 0) by {
            vstd::arithmetic::div_mod::lemma_mod_multiples_basic(4 * m, 25);
        }
    } else if k == 25 {
        assert(x / 5 == 5 * m);
        assert(x * 4 / 5 == 20 * m);
        assert((20 * m) % 5 == 0) by {
            vstd::arithmetic::div_mod::lemma_mod_multiples_basic(4 * m, 5);
        }
    } else {
        assert(x / 5 == m);
        assert(x * 4 / 5 == 4 * m);
    }
}

/// A fall by a multiple of `k` keeps a multiple of `k` a multiple of `k`.
proof fn lemma_fall_keeps_steps(a: int, by: int, k: int)
    requires
        a >= 0,
        by >= 0,
        k > 0,
        125int % k == 0,
        by % 125 == 0,
        a % k == 0,
    ensures
        fall(a, by) % k == 0,
        0 <= fall(a, by) <= a,
{
    if a - by > 0 {
        vstd::arithmetic::div_mod::lemma_fundamental_div_mod(a, k);
        vstd::arithmetic::div_mod::lemma_fundamental_div_mod(by, 125);
        let ka = a / k;
        let kb = (by / 125) * (125int / k);
        vstd::arithmetic::div_mod::lemma_fundamental_div_mod(125int, k);
        assert(by == k * kb) by (nonlinear_arith)
            requires
                by == 125 * (by / 125),
                125int == k * (125int / k),
                kb == (by / 125) * (125int / k),
        {
            vstd::arithmetic::div_mod::lemma_fundamental_div_mod(125int, k);
        }
        assert(a - by == k * (ka - kb)) by (nonlinear_arith)
            requires
                a == k * ka,
                by == k * kb,
        ;
        vstd::arithmetic::div_mod::lemma_mod_multiples_basic(ka - kb, k);
        assert(k * (ka - kb) == (ka - kb) * k) by (nonlinear_arith);
    }
}

/// A rise by a multiple of 125, capped at a multiple of 125, stays a
/// multiple of 125 within the cap.
proof fn lemma_rise_keeps_steps(a: int, by: int, cap: int)
    requires
        0 <= a <= cap,
        by >= 0,
        a % 125 == 0,
        by % 125 == 0,
        cap % 125 == 0,
    ensures
        rise(a, by, cap) % 125 == 0,
        a <= rise(a, by, cap) <= cap,
{
    if a + by < cap {
        vstd::arithmetic::div_mod::lemma_fundamental_div_mod(a, 125);
        vstd::arithmetic::div_mod::lemma_fundamental_div_mod(by, 125);
        vstd::arithmetic::div_mod::lemma_mod_multiples_basic(a / 125 + by / 125, 125);
        assert(a + by == (a / 125 + by / 125) * 125);
    }
}

/// `a + by` capped at `cap`, for alphas in 1/125 units.
fn rise_exec(a: u32, by: u32, cap: u32) -> (r: u32)
    requires
        a <= cap,
    ensures
        r == rise(a as int, ALPHA_UNIT * by, cap as int),
{
    let sum: u64 = a as u64 + ALPHA_UNIT as u64 * by as u64;
    if sum < cap as u64 { sum as u32 } else { cap }
}

/// `a − by` floored at 0, for alphas in 1/125 units.
fn fall_exec(a: u32, by: u32) -> (r: u32)
    ensures
        r == fall(a as int, ALPHA_UNIT * by),
{
    let d: u64 = ALPHA_UNIT as u64 * by as u64;
    if (a as u64) > d { (a as u64 - d) as u32 } else { 0 }
}

impl SwirlState {
    /// A swirl just spawned.
    pub fn fresh() -> (s: SwirlState)
        ensures
            s == fresh_swirl(),
    {
        SwirlState { process: 0, arrived: false, head: 0, trail1: 0, trail2: 0, trail3: 0 }
    }

    /// Steps the swirl one frame.
    pub fn step(&self, p: &StinParams, in_flight: bool, reach: bool) -> (r: SwirlState)
        requires
            params_wf(*p),
            swirl_wf(*self, *p),
            self.process < u32::MAX,
        ensures
            r == swirl_step(*self, *p, in_flight, reach),
            swirl_wf(r, *p),
    {
        let f = self.fade(p, in_flight, reach);
        if f.process % TRAIL_SHIFT_FRAMES == 0 {
            f.shifted(p)
        } else {
            f
        }
    }

    /// The alpha update of one frame.
    fn fade(&self, p: &StinParams, in_flight: bool, reach: bool) -> (r: SwirlState)
        requires
            params_wf(*p),
            swirl_wf(*self, *p),
            self.process < u32::MAX,
        ensures
            r == swirl_fade(*self, *p, in_flight, reach),
            swirl_wf(r, *p),
    {
        let q = self.process + 1;
        let cap = ALPHA_UNIT * p.alpha_max;
        let mut s = *self;
        s.process = q;
        if p.homing && in_flight {
            if q <= HOMING_RISE_FRAMES {
                s.head = rise_exec(s.head, p.fade_in, cap);
            }
            if q > HOMING_LAUNCH_FRAMES {
                if !self.arrived {
                    s.arrived = reach;
                } else {
                    s.head = fall_exec(s.head, p.fade_out);
                    s.trail1 = fall_exec(s.trail1, p.fade_out);
                    s.trail2 = fall_exec(s.trail2, p.fade_out);
                    s.trail3 = fall_exec(s.trail3, p.fade_out);
                }
            }
        } else {
            if q <= p.fade_after {
                s.head = rise_exec(s.head, p.fade_in, cap);
            } else {
                s.head = fall_exec(s.head, p.fade_out);
            }
        }
        proof {
            lemma_fall_keeps_steps(self.head as int, ALPHA_UNIT * p.fade_out, 125);
            lemma_fall_keeps_steps(self.trail1 as int, ALPHA_UNIT * p.fade_out, 25);
            lemma_fall_keeps_steps(self.trail2 as int, ALPHA_UNIT * p.fade_out, 5);
            lemma_rise_keeps_steps(self.head as int, ALPHA_UNIT * p.fade_in, cap as int);
            if p.homing && in_flight && q <= HOMING_RISE_FRAMES {
                let h = rise(self.head as int, ALPHA_UNIT * p.fade_in, cap as int);
                lemma_fall_keeps_steps(h, ALPHA_UNIT * p.fade_out, 125);
            }
        }
        s
    }

    /// The trail shift.
    fn shifted(&self, p: &StinParams) -> (r: SwirlState)
        requires
            swirl_wf(*self, *p),
        ensures
            r == trail_shift(*self),
            swirl_wf(r, *p),
    {
        let mut s = *self;
        s.trail1 = self.head / 5 * 4;
        s.trail2 = self.trail1 / 5 * 4;
        s.trail3 = self.trail2 / 5 * 4;
        proof {
            lemma_four_fifths(self.head as int, 125);
            lemma_four_fifths(self.trail1 as int, 25);
            lemma_four_fifths(self.trail2 as int, 5);
        }
        s
    }

    /// Whether the swirl has retired.
    pub fn done(&self, p: &StinParams) -> (r: bool)
        ensures
            r == swirl_done(*self, *p),
    {
        self.head == 0 && self.trail1 == 0 && self.trail2 == 0 && self.trail3 == 0 && self.process > p.fade_after
    }
}

/// Swirls a cast spawns before its first frame (STIN5 spawns its five over
/// frames 0–4 instead).
pub open spec fn initial_count(p: StinParams) -> int {
    match p.spawn {
        SpawnKind::Single => 1,
        SpawnKind::CurlPair => 2,
        SpawnKind::Fan { count } => count as int,
        SpawnKind::Staggered => 0,
    }
}

/// Whether a STIN5 cast still spawns a swirl on frame `frame`.
pub open spec fn spawns_on(p: StinParams, frame: int) -> bool {
    p.spawn == SpawnKind::Staggered && frame < STAGGER_FRAMES
}

/// The reach event of swirl `i`: listed and true.
pub open spec fn reach_at(reached: Seq<bool>, i: int) -> bool {
    0 <= i < reached.len() && reached[i]
}

/// The first `n` swirls of `sw`, each stepped one frame, without those that
/// retire on it; order is kept.
pub open spec fn stepped_live(sw: Seq<SwirlState>, p: StinParams, in_flight: bool, reached: Seq<bool>, n: int) -> Seq<SwirlState>
    decreases n,
{
    if n <= 0 {
        Seq::empty()
    } else {
        let prev = stepped_live(sw, p, in_flight, reached, n - 1);
        let s2 = swirl_step(sw[n - 1], p, in_flight, reach_at(reached, n - 1));
        if swirl_done(s2, p) { prev } else { prev.push(s2) }
    }
}

/// A live swirl of a cast on frame `frame`: well formed, not retired,
/// spawned in the cast's first five frames, and, when it flies straight,
/// within [`straight_inv`].
pub open spec fn live_swirl(s: SwirlState, p: StinParams, in_flight: bool, frame: int) -> bool {
    &&& swirl_wf(s, p)
    &&& !swirl_done(s, p)
    &&& frame - STAGGER_FRAMES < s.process <= frame || s.process == frame
    &&& (!(p.homing && in_flight) && p.fade_out > 0) ==> straight_inv(s, p)
}

/// Most swirls a cast can have alive on frame `frame`: those it starts
/// with, plus (STIN5) one per frame over its first five.
pub open spec fn swirl_budget(p: StinParams, frame: int) -> int {
    initial_count(p) + if p.spawn == SpawnKind::Staggered {
        if frame < STAGGER_FRAMES { frame } else { STAGGER_FRAMES as int }
    } else {
        0
    }
}

/// The swirls of one cast and its frame clock.
pub struct StinClock {
    params: StinParams,
    in_flight: bool,
    frame: u32,
    swirls: Vec<SwirlState>,
}

impl StinClock {
    /// The variant.
    pub closed spec fn params_spec(&self) -> StinParams {
        self.params
    }

    /// Whether the cast has a caster→target direction.
    pub closed spec fn in_flight_spec(&self) -> bool {
        self.in_flight
    }

    /// Frames stepped so far.
    pub closed spec fn frame_spec(&self) -> u32 {
        self.frame
    }

    /// The live swirls, in spawn order.
    pub closed spec fn swirls_spec(&self) -> Seq<SwirlState> {
        self.swirls@
    }

    /// Every live swirl is well formed, has not retired, and was spawned in
    /// the first five frames; a straight swirl is where [`straight_inv`]
    /// allows.
    pub closed spec fn wf(&self) -> bool {
        &&& params_wf(self.params)
        &&& self.swirls@.len() <= swirl_budget(self.params, self.frame as int)
        &&& forall|i: int| 0 <= i < self.swirls@.len() ==> live_swirl(#[trigger] self.swirls@[i], self.params, self.in_flight, self.frame as int)
    }

    /// A cast of `params` on frame 0. `in_flight` is whether the caster and
    /// target are apart.
    pub fn new(params: StinParams, in_flight: bool) -> (c: StinClock)
        requires
            params_wf(params),
        ensures
            c.wf(),
            c.params_spec() == params,
            c.in_flight_spec() == in_flight,
            c.frame_spec() == 0,
            c.swirls_spec() == Seq::new(initial_count(params) as nat, |i: int| fresh_swirl()),
    {
        let n: u32 = match params.spawn {
            SpawnKind::Single => 1,
            SpawnKind::CurlPair => 2,
            SpawnKind::Fan { count } => count,
            SpawnKind::Staggered => 0,
        };
        let mut swirls: Vec<SwirlState> = Vec::new();
        let mut i: u32 = 0;
        while i < n
            invariant
                i <= n,
                n == initial_count(params),
                swirls@ == Seq::new(i as nat, |k: int| fresh_swirl()),
            decreases n - i,
        {
            swirls.push(SwirlState::fresh());
            i = i + 1;
            assert(swirls@ =~= Seq::new(i as nat, |k: int| fresh_swirl()));
        }
        StinClock { params, in_flight, frame: 0, swirls }
    }

    /// Steps every live swirl one frame, spawning STIN5's next swirl first
    /// on frames 0–4; `reached[i]` says whether live swirl `i` (counting a
    /// swirl spawned now last) reaches its target on this frame. Reports
    /// `Dead` once no swirl is left and none is still to come.
    pub fn step_frame(&mut self, reached: &[bool]) -> (status: EffectStatus)
        requires
            old(self).wf(),
            old(self).frame_spec() + 2 <= u32::MAX,
        ensures
            final(self).wf(),
            final(self).params_spec() == old(self).params_spec(),
            final(self).in_flight_spec() == old(self).in_flight_spec(),
            final(self).frame_spec() == old(self).frame_spec() + 1,
            ({
                let sw = if spawns_on(old(self).params_spec(), old(self).frame_spec() as int) {
                    old(self).swirls_spec().push(fresh_swirl())
                } else {
                    old(self).swirls_spec()
                };
                final(self).swirls_spec() == stepped_live(sw, old(self).params_spec(),
                    old(self).in_flight_spec(), reached@, sw.len() as int)
            }),
            status == (if final(self).swirls_spec().len() == 0
                && !spawns_on(final(self).params_spec(), final(self).frame_spec() as int) {
                EffectStatus::Dead
            } else {
                EffectStatus::Running
            }),
    {
        let spawning = self.params.spawn == SpawnKind::Staggered && self.frame < STAGGER_FRAMES;
        if spawning {
            self.swirls.push(SwirlState::fresh());
        }
        let ghost sw = self.swirls@;
        proof {
            assert forall|k: int| 0 <= k < sw.len() implies {
                &&& swirl_wf(#[trigger] sw[k], self.params)
                &&& (self.frame - STAGGER_FRAMES < sw[k].process <= self.frame || sw[k].process == self.frame)
                &&& (!(self.params.homing && self.in_flight) && self.params.fade_out > 0) ==> straight_inv(sw[k], self.params)
            } by {
                if k < old(self).swirls@.len() {
                    assert(live_swirl(old(self).swirls@[k], self.params, self.in_flight, self.frame as int));
                }
            }
        }
        let mut next: Vec<SwirlState> = Vec::new();
        let mut i: usize = 0;
        while i < self.swirls.len()
            invariant
                sw == self.swirls@,
                self.params == old(self).params,
                self.in_flight == old(self).in_flight,
                self.frame == old(self).frame,
                params_wf(self.params),
                self.frame + 2 <= u32::MAX,
                forall|k: int| 0 <= k < sw.len() ==> {
                    &&& swirl_wf(#[trigger] sw[k], self.params)
                    &&& (self.frame - STAGGER_FRAMES < sw[k].process <= self.frame || sw[k].process == self.frame)
                    &&& (!(self.params.homing && self.in_flight) && self.params.fade_out > 0) ==> straight_inv(sw[k], self.params)
                },
                i <= sw.len(),
                next@ == stepped_live(sw, self.params, self.in_flight, reached@, i as int),
                next@.len() <= i,
                sw.len() <= swirl_budget(self.params, self.frame + 1),
                forall|k: int| 0 <= k < next@.len() ==> live_swirl(#[trigger] next@[k], self.params, self.in_flight, self.frame + 1),
            decreases sw.len() - i,
        {
            let r = i < reached.len() && reached[i];
            let s2 = self.swirls[i].step(&self.params, self.in_flight, r);
            proof {
                if !(self.params.homing && self.in_flight) && self.params.fade_out > 0 {
                    straight_swirl_step(sw[i as int], self.params, self.in_flight, r);
                }
            }
            if !s2.done(&self.params) {
                next.push(s2);
            }
            i = i + 1;
        }
        self.swirls = next;
        self.frame = self.frame + 1;
        if self.swirls.len() == 0 && !(self.params.spawn == SpawnKind::Staggered && self.frame < STAGGER_FRAMES) {
            EffectStatus::Dead
        } else {
            EffectStatus::Running
        }
    }

    /// Live swirls.
    pub fn swirl_count(&self) -> (r: usize)
        ensures
            r == self.swirls_spec().len(),
    {
        self.swirls.len()
    }

    /// Live swirl `i`.
    pub fn swirl(&self, i: usize) -> (s: SwirlState)
        requires
            i < self.swirls_spec().len(),
        ensures
            s == self.swirls_spec()[i as int],
    {
        self.swirls[i]
    }
}

/// A cast never has more swirls alive than it has spawned — at most five
/// for STIN5, one per frame over its first five frames — and every slot of
/// every live swirl stays within `0..=alpha_max` (in 1/125 units) with the
/// trail copies each at most `0.8` of the slot before.
pub proof fn swirls_stay_bounded(c: StinClock)
    requires
        c.wf(),
    ensures
        c.swirls_spec().len() <= swirl_budget(c.params_spec(), c.frame_spec() as int),
        c.params_spec().spawn == SpawnKind::Staggered ==> c.swirls_spec().len() <= STAGGER_FRAMES,
        forall|i: int| 0 <= i < c.swirls_spec().len() ==> swirl_wf(#[trigger] c.swirls_spec()[i], c.params_spec()),
{
    assert forall|i: int| 0 <= i < c.swirls_spec().len() implies swirl_wf(#[trigger] c.swirls_spec()[i], c.params_spec()) by {
        assert(live_swirl(c.swirls@[i], c.params, c.in_flight, c.frame as int));
    }
}

/// The draws that place one swirl: a height jitter `random(5)`, for a fan
/// a spread `25 + random(21)` degrees, a radius step `random(11)`, and a
/// spin `random(360)` degrees, in that order.
#[derive(Clone, Copy, Debug, PartialEq, Eq, Structural)]
pub struct SpawnDraws {
    /// Height jitter, world units above `−10`.
    pub y_jitter: u32,
    /// Spread off the curl side, whole degrees (0 unless a fan).
    pub spread_deg: u32,
    /// Radius step: the swirl's radius grows by `draw · 0.1 · distance_rand`.
    pub radius_draw: u32,
    /// Initial spin, whole degrees.
    pub spin_deg: u32,
}

/// Makes the draws that place one swirl.
pub fn draw_spawn(rng: &mut Rng, fan: bool) -> (d: SpawnDraws)
    ensures
        d.y_jitter == lcg_step(old(rng).state()) % 5,
        fan ==> d.spread_deg == 25 + lcg_step(lcg_step(old(rng).state())) % 21,
        fan ==> d.radius_draw == lcg_step(lcg_step(lcg_step(old(rng).state()))) % 11,
        fan ==> d.spin_deg == lcg_step(lcg_step(lcg_step(lcg_step(old(rng).state())))) % 360,
        fan ==> final(rng).state() == lcg_step(lcg_step(lcg_step(lcg_step(old(rng).state())))),
        !fan ==> d.spread_deg == 0,
        !fan ==> d.radius_draw == lcg_step(lcg_step(old(rng).state())) % 11,
        !fan ==> d.spin_deg == lcg_step(lcg_step(lcg_step(old(rng).state()))) % 360,
        !fan ==> final(rng).state() == lcg_step(lcg_step(lcg_step(old(rng).state()))),
{
    let y_jitter = rng.random(5);
    let spread_deg = if fan { 25 + rng.random(21) } else { 0 };
    let radius_draw = rng.random(11);
    let spin_deg = rng.random(360);
    SpawnDraws { y_jitter, spread_deg, radius_draw, spin_deg }
}

/// XZ offset of STIN5's swirl spawned on frame `idx`: the four cardinal
/// points 5 units out on frames 1–4, the centre otherwise.
pub fn stagger_offset(idx: u32) -> (r: (i32, i32))
    ensures
        r == (if idx == 1 {
            (5i32, 0i32)
        } else if idx == 2 {
            (-5i32, 0i32)
        } else if idx == 3 {
            (0i32, 5i32)
        } else if idx == 4 {
            (0i32, -5i32)
        } else {
            (0i32, 0i32)
        }),
{
    if idx == 1 {
        (5, 0)
    } else if idx == 2 {
        (-5, 0)
    } else if idx == 3 {
        (0, 5)
    } else if idx == 4 {
        (0, -5)
    } else {
        (0, 0)
    }
}

/// Curl side of fan swirl `i`: `+1` for even `i`, `−1` for odd.
pub fn fan_curl(i: u32) -> (r: i32)
    ensures
        r == (if i % 2 == 0 { 1i32 } else { -1i32 }),
{
    if i % 2 == 0 { 1 } else { -1 }
}

/// Frames a straight swirl's head takes to fall from the cap to 0.
pub open spec fn fall_frames(p: StinParams) -> int {
    (p.alpha_max + p.fade_out - 1) / (p.fade_out as int)
}

/// Frame of its life from which a straight swirl's head is dark.
pub open spec fn dark_from(p: StinParams) -> int {
    p.fade_after + fall_frames(p)
}

/// The last trail-shift frame at or before `x`.
pub open spec fn last_shift(x: int) -> int {
    x - x % (TRAIL_SHIFT_FRAMES as int)
}

/// Where a straight swirl can be: its head is no brighter than the cap less
/// the fall since `fade_after`, and once the head has been dark at a trail
/// shift, the zero has moved one copy down per shift.
pub open spec fn straight_inv(s: SwirlState, p: StinParams) -> bool {
    &&& swirl_wf(s, p)
    &&& s.process >= p.fade_after ==> (s.head == 0
        || s.head + ALPHA_UNIT * p.fade_out * (s.process - p.fade_after) <= ALPHA_UNIT * p.alpha_max)
    &&& last_shift(s.process as int) >= dark_from(p) ==> s.trail1 == 0
    &&& last_shift(s.process as int) >= dark_from(p) + 3 ==> s.trail2 == 0
    &&& last_shift(s.process as int) >= dark_from(p) + 6 ==> s.trail3 == 0
}

/// Once a straight swirl has passed `dark_from`, its head is dark.
proof fn lemma_head_dark(s: SwirlState, p: StinParams)
    requires
        p.fade_out > 0,
        straight_inv(s, p),
        s.process >= dark_from(p),
    ensures
        s.head == 0,
{
    lemma_head_dark_at(s, p);
}

/// Once a homing swirl in flight has reached its target, every one of its
/// four slots — the head and all three trail copies — loses `fade_out`
/// (in 1/125 units, `125 · fade_out`) on each frame, down to 0, before the
/// trail shifts; so no slot brightens, and a lit slot always dims when the
/// swirl fades at all.
pub proof fn arrived_swirl_fades_every_slot(s: SwirlState, p: StinParams, reach: bool)
    requires
        p.homing,
        s.arrived,
        HOMING_RISE_FRAMES < s.process + 1 <= u32::MAX,
    ensures
        ({
            let f = swirl_fade(s, p, true, reach);
            let fo = 125 * p.fade_out;
            &&& f.process == s.process + 1
            &&& f.arrived
            &&& f.head == (if s.head > fo { s.head - fo } else { 0 })
            &&& f.trail1 == (if s.trail1 > fo { s.trail1 - fo } else { 0 })
            &&& f.trail2 == (if s.trail2 > fo { s.trail2 - fo } else { 0 })
            &&& f.trail3 == (if s.trail3 > fo { s.trail3 - fo } else { 0 })
            &&& f.head <= s.head && f.trail1 <= s.trail1 && f.trail2 <= s.trail2 && f.trail3 <= s.trail3
            &&& p.fade_out > 0 ==> (s.trail1 > 0 ==> f.trail1 < s.trail1) && (s.trail2 > 0 ==> f.trail2 < s.trail2)
                && (s.trail3 > 0 ==> f.trail3 < s.trail3) && (s.head > 0 ==> f.head < s.head)
        }),
{
}

/// A straight swirl keeps [`straight_inv`] from frame to frame.
pub proof fn straight_swirl_step(s: SwirlState, p: StinParams, in_flight: bool, reach: bool)
    requires
        params_wf(p),
        p.fade_out > 0,
        !(p.homing && in_flight),
        straight_inv(s, p),
        s.process < u32::MAX,
    ensures
        straight_inv(swirl_step(s, p, in_flight, reach), p),
{
    let f = swirl_fade(s, p, in_flight, reach);
    let q = s.process + 1;
    let fo = ALPHA_UNIT * p.fade_out;
    let am = ALPHA_UNIT * p.alpha_max;
    let fa = p.fade_after as int;
    lemma_fall_keeps_steps(s.head as int, fo, 125);
    lemma_rise_keeps_steps(s.head as int, ALPHA_UNIT * p.fade_in, am);
    lemma_four_fifths(f.head as int, 125);
    lemma_four_fifths(s.trail1 as int, 25);
    lemma_four_fifths(s.trail2 as int, 5);
    // The head bound one frame on.
    if q >= fa && f.head != 0 && q > fa {
        assert(s.head != 0);
        assert(f.head == s.head - fo);
        assert(fo * (q - fa) == fo * (s.process - fa) + fo) by (nonlinear_arith)
            requires
                q == s.process + 1,
        ;
        assert(ALPHA_UNIT * p.fade_out * (q - fa) == fo * (q - fa)) by (nonlinear_arith)
            requires
                fo == ALPHA_UNIT * p.fade_out,
        ;
        assert(ALPHA_UNIT * p.fade_out * (s.process - fa) == fo * (s.process - fa)) by (nonlinear_arith)
            requires
                fo == ALPHA_UNIT * p.fade_out,
        ;
    }
    if q == fa {
        assert(ALPHA_UNIT * p.fade_out * (q - fa) == 0) by (nonlinear_arith)
            requires
                q == fa,
        ;
    }
    let t = swirl_step(s, p, in_flight, reach);
    if q % 3 == 0 {
        assert(last_shift(q as int) == q);
        if q >= dark_from(p) {
            // The head bound holds at `q`, so the head is dark.
            assert(f.process >= fa ==> (f.head == 0
                || f.head + ALPHA_UNIT * p.fade_out * (f.process - fa) <= ALPHA_UNIT * p.alpha_max));
            lemma_head_dark_at(f, p);
        }
        assert(last_shift(s.process as int) == q - 3);
    } else {
        assert(last_shift(q as int) == last_shift(s.process as int));
    }
}

/// [`lemma_head_dark`] for a state whose only known facts are the head
/// bound and the cap.
proof fn lemma_head_dark_at(f: SwirlState, p: StinParams)
    requires
        p.fade_out > 0,
        f.process >= dark_from(p),
        f.process >= p.fade_after ==> (f.head == 0
            || f.head + ALPHA_UNIT * p.fade_out * (f.process - p.fade_after) <= ALPHA_UNIT * p.alpha_max),
    ensures
        f.head == 0,
{
    let fo = p.fade_out as int;
    let am = p.alpha_max as int;
    let k = fall_frames(p);
    vstd::arithmetic::div_mod::lemma_fundamental_div_mod(am + fo - 1, fo);
    assert(k * fo >= am) by (nonlinear_arith)
        requires
            am + fo - 1 == fo * k + (am + fo - 1) % fo,
            (am + fo - 1) % fo < fo,
    ;
    assert(k >= 0) by {
        vstd::arithmetic::div_mod::lemma_div_pos_is_pos(am + fo - 1, fo);
    }
    if f.head != 0 {
        assert(fo * (f.process - p.fade_after) >= fo * k) by (nonlinear_arith)
            requires
                f.process - p.fade_after >= k,
                fo > 0,
        ;
        assert(false) by (nonlinear_arith)
            requires
                f.head > 0,
                f.head + 125 * fo * (f.process - p.fade_after) <= 125 * am,
                fo * (f.process - p.fade_after) >= fo * k,
                k * fo >= am,
        ;
    }
}

/// A straight swirl has retired by frame `dark_from + 8` of its life: the
/// head is dark from `dark_from`, and the next three trail shifts carry the
/// dark down the trail.
pub proof fn straight_swirl_retires(s: SwirlState, p: StinParams)
    requires
        p.fade_out > 0,
        straight_inv(s, p),
        s.process >= dark_from(p) + 8,
    ensures
        swirl_done(s, p),
{
    lemma_head_dark(s, p);
    assert(last_shift(s.process as int) >= s.process - 2);
    vstd::arithmetic::div_mod::lemma_div_pos_is_pos(p.alpha_max + p.fade_out - 1, p.fade_out as int);
}

/// A cast whose swirls all fly straight (no homing swirl in flight) has
/// no swirl left, and reports `Dead`, from frame `dark_from + 12`; that
/// frame falls within the cast's planned duration.
pub proof fn straight_cast_ends_in_time(c: StinClock)
    requires
        c.wf(),
        !(c.params_spec().homing && c.in_flight_spec()),
        c.params_spec().fade_out > 0,
        c.params_spec().fade_in > 0,
        c.frame_spec() >= dark_from(c.params_spec()) + 12,
    ensures
        c.swirls_spec().len() == 0,
        !spawns_on(c.params_spec(), c.frame_spec() as int),
        (dark_from(c.params_spec()) + 12) * 1000 / 60 <= total_duration_ms_spec(c.params_spec()),
{
    let p = c.params_spec();
    vstd::arithmetic::div_mod::lemma_div_pos_is_pos(p.alpha_max + p.fade_out - 1, p.fade_out as int);
    if c.swirls_spec().len() > 0 {
        let s = c.swirls_spec()[0];
        assert(live_swirl(s, p, c.in_flight_spec(), c.frame_spec() as int));
        straight_swirl_retires(s, p);
    }
    lemma_dark_within_duration(p);
}

/// `dark_from + 12` frames fit in the planned duration.
proof fn lemma_dark_within_duration(p: StinParams)
    requires
        p.fade_out > 0,
        p.fade_in > 0,
    ensures
        (dark_from(p) + 12) * 1000 / 60 <= total_duration_ms_spec(p),
{
    let fi = p.fade_in as int;
    let fo = p.fade_out as int;
    let am = p.alpha_max as int;
    let fa = p.fade_after as int;
    let k = fall_frames(p);
    vstd::arithmetic::div_mod::lemma_fundamental_div_mod(am + fo - 1, fo);
    assert(k * fo <= am + fo - 1) by (nonlinear_arith)
        requires
            am + fo - 1 == fo * k + (am + fo - 1) % fo,
            (am + fo - 1) % fo >= 0,
    ;
    let m = dark_from(p) + 12;
    let n = (fa + 20) * fi * fo + am * fo + am * fi;
    assert(m * fi * fo <= n) by (nonlinear_arith)
        requires
            m == fa + k + 12,
            k * fo <= am + fo - 1,
            n == (fa + 20) * fi * fo + am * fo + am * fi,
            fi > 0,
            fo > 0,
            am >= 0,
    {
        assert(k * fo * fi <= (am + fo - 1) * fi) by (nonlinear_arith)
            requires
                k * fo <= am + fo - 1,
                fi > 0,
        ;
    }
    let d = 60 * fi * fo;
    assert(d > 0) by (nonlinear_arith)
        requires
            d == 60 * fi * fo,
            fi > 0,
            fo > 0,
    ;
    assert(1000 * m * (fi * fo) <= 1000 * n) by (nonlinear_arith)
        requires
            m * fi * fo <= n,
    ;
    vstd::arithmetic::div_mod::lemma_div_is_ordered(1000 * m * (fi * fo), 1000 * n, d);
    // `(1000·m·fi·fo) / (60·fi·fo) == 1000·m / 60`.
    vstd::arithmetic::div_mod::lemma_fundamental_div_mod(1000 * m, 60);
    let q = (1000 * m) / 60;
    let r = (1000 * m) % 60;
    assert(1000 * m * (fi * fo) == q * d + r * (fi * fo)) by (nonlinear_arith)
        requires
            1000 * m == 60 * q + r,
            d == 60 * fi * fo,
    ;
    assert(0 <= r * (fi * fo) < d) by (nonlinear_arith)
        requires
            0 <= r < 60,
            d == 60 * fi * fo,
            fi > 0,
            fo > 0,
    ;
    vstd::arithmetic::div_mod::lemma_fundamental_div_mod_converse(1000 * m * (fi * fo), d, q, r * (fi * fo));
}

} // verus!
