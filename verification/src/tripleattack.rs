//! TripleAttack family — `EF_TRIPLEATTACK` (329), `EF_TRIPLEATTACK2` (388,
//! sharpshooting) and `EF_TRIPLEATTACK3` (393, arrow vulcan).
//!
//! Each launch wave builds four thin streaks pointing from the caster toward
//! the target. A streak does not travel: after its delay it flashes in
//! (`alphaB += fade_in` for the first five frames) then fades out
//! (`alphaB -= fade_out`) and is retired once its alpha runs out. Every
//! emitter starts with a negative `process` delay of
//! `delay_base + random(delay_rand) + wave` frames.
//!
//! This module holds the streaks' frame-level state (alphas in `0..=255`
//! units) and the variant timing; the streak geometry stays with the renderer.
use vstd::prelude::*;
use crate::rng::{lcg_iter, scramble, Rng};

verus! {

/// Native engine framerate.
pub const FRAMES_PER_SECOND: u32 = 60;
/// Each launch wave fires four streaks.
pub const STREAKS_PER_WAVE: u32 = 4;
/// `process <= 5` ramps the alpha up; afterwards it ramps down.
pub const RAMP_FRAMES: i32 = 5;

pub const TEXTURES: [&'static str; 2] = ["cloud11.tga", "alpha_center.tga"];

/// Timing of one TripleAttack variant, as the contracts read it.
#[derive(Clone, Copy, Debug)]
pub struct TripleAttackTiming {
    /// Streak texture.
    pub texture: &'static str,
    /// Launch waves (frames the launcher re-fires).
    pub waves: u32,
    /// Fixed part of the start delay, frames.
    pub delay_base: i32,
    /// Random part of the start delay: `random(delay_rand)`.
    pub delay_rand: u32,
    /// Alpha gained per ramp frame.
    pub fade_in: u32,
    /// Alpha lost per fade frame.
    pub fade_out: u32,
    /// Whether each streak also draws a random extra radius.
    pub radius_draw: bool,
}

/// One TripleAttack variant. Its fields are private: the only values are
/// the three variants below.
#[derive(Clone, Copy, Debug)]
pub struct TripleAttackParams {
    texture: &'static str,
    waves: u32,
    delay_base: i32,
    delay_rand: u32,
    fade_in: u32,
    fade_out: u32,
    radius_draw: bool,
}

impl View for TripleAttackParams {
    type V = TripleAttackTiming;

    closed spec fn view(&self) -> TripleAttackTiming {
        TripleAttackTiming {
            texture: self.texture,
            waves: self.waves,
            delay_base: self.delay_base,
            delay_rand: self.delay_rand,
            fade_in: self.fade_in,
            fade_out: self.fade_out,
            radius_draw: self.radius_draw,
        }
    }
}

/// What every variant satisfies: a positive fade-out, a non-negative base
/// delay, and sizes far from the integer limits.
pub open spec fn params_ok(p: TripleAttackTiming) -> bool {
    &&& p.fade_out > 0
    &&& 0 <= p.delay_base <= 1_000_000
    &&& p.delay_rand <= 1_000_000
    &&& p.waves <= 1_000_000
    &&& p.fade_in <= 1_000
    &&& p.fade_out <= 1_000
}

impl TripleAttackParams {
    #[verifier::type_invariant]
    spec fn every_variant_is_ok(self) -> bool {
        params_ok(self@)
    }

    /// Streak texture.
    pub fn texture(&self) -> (r: &'static str)
        ensures
            r == self@.texture,
    {
        self.texture
    }

    /// Launch waves.
    pub fn waves(&self) -> (r: u32)
        ensures
            r == self@.waves,
    {
        self.waves
    }

    /// Alpha gained per ramp frame.
    pub fn fade_in(&self) -> (r: u32)
        ensures
            r == self@.fade_in,
    {
        self.fade_in
    }

    /// Alpha lost per fade frame.
    pub fn fade_out(&self) -> (r: u32)
        ensures
            r == self@.fade_out,
    {
        self.fade_out
    }
}

/// `EF_TRIPLEATTACK` — two waves, bright snappy fade.
#[allow(non_snake_case)]
pub fn TRIPLEATTACK() -> (p: TripleAttackParams)
    ensures
        p@ == (TripleAttackTiming { texture: "cloud11.tga", waves: 2, delay_base: 0, delay_rand: 20,
            fade_in: 8, fade_out: 4, radius_draw: false }),
{
    TripleAttackParams { texture: "cloud11.tga", waves: 2, delay_base: 0, delay_rand: 20, fade_in: 8, fade_out: 4, radius_draw: false }
}

/// `EF_TRIPLEATTACK2` — four waves, long faint fade.
#[allow(non_snake_case)]
pub fn TRIPLEATTACK2() -> (p: TripleAttackParams)
    ensures
        p@ == (TripleAttackTiming { texture: "alpha_center.tga", waves: 4, delay_base: 45, delay_rand: 20,
            fade_in: 2, fade_out: 1, radius_draw: false }),
{
    TripleAttackParams { texture: "alpha_center.tga", waves: 4, delay_base: 45, delay_rand: 20, fade_in: 2, fade_out: 1, radius_draw: false }
}

/// `EF_TRIPLEATTACK3` — nine waves, the densest and longest stream.
#[allow(non_snake_case)]
pub fn TRIPLEATTACK3() -> (p: TripleAttackParams)
    ensures
        p@ == (TripleAttackTiming { texture: "alpha_center.tga", waves: 9, delay_base: 30, delay_rand: 110,
            fade_in: 8, fade_out: 4, radius_draw: true }),
{
    TripleAttackParams { texture: "alpha_center.tga", waves: 9, delay_base: 30, delay_rand: 110, fade_in: 8, fade_out: 4, radius_draw: true }
}

/// Frames after its delay at which a streak is retired: five ramp frames,
/// then `ceil(5 * fade_in / fade_out)` fade frames (at least one).
pub open spec fn streak_life(fade_in: int, fade_out: int) -> int {
    let peak = RAMP_FRAMES * fade_in;
    let fade = if peak <= 0 { 1 } else { (peak + fade_out - 1) / fade_out };
    RAMP_FRAMES + fade
}

/// `total_duration_ms` in exact arithmetic: the latest delay plus the waves,
/// the ramp and `5 * fade_in / fade_out` fade frames, in ms, plus 100 ms.
pub open spec fn total_duration_spec(p: TripleAttackTiming) -> int {
    let frames_num = (p.delay_base + p.delay_rand + p.waves + RAMP_FRAMES) * p.fade_out
        + RAMP_FRAMES * p.fade_in;
    frames_num * 1000 / (FRAMES_PER_SECOND * p.fade_out) + 100
}

impl TripleAttackParams {
    /// Wall-clock end: the latest-delayed streak plus its ramp and fade,
    /// plus 100 ms of slack.
    pub fn total_duration_ms(&self) -> (r: u32)
        ensures
            r == total_duration_spec(self@),
    {
        proof {
            use_type_invariant(self);
        }
        let max_delay = self.delay_base as u64 + self.delay_rand as u64;
        let fo = self.fade_out as u64;
        assert((max_delay + self.waves + 5) * fo <= 3_000_005 * 1000) by (nonlinear_arith)
            requires
                max_delay + self.waves + 5 <= 3_000_005,
                fo <= 1000,
        ;
        assert(5 * self.fade_in <= 5000);
        let frames_num = (max_delay + self.waves as u64 + 5) * fo + 5 * self.fade_in as u64;
        assert(frames_num <= 3_000_005 * 1000 + 5000) by (nonlinear_arith)
            requires
                frames_num == (max_delay + self.waves + 5) * fo + 5 * self.fade_in,
                max_delay <= 2_000_000,
                self.waves <= 1_000_000,
                fo <= 1000,
                self.fade_in <= 1000,
        ;
        assert(frames_num <= 3_005_005 * fo) by (nonlinear_arith)
            requires
                frames_num == (max_delay + self.waves + 5) * fo + 5 * self.fade_in,
                max_delay + self.waves + 5 <= 3_000_005,
                5 * self.fade_in <= 5000,
                fo >= 1,
        ;
        let ms = frames_num * 1000 / (60 * fo);
        proof {
            vstd::arithmetic::div_mod::lemma_div_is_ordered((frames_num * 1000) as int, fo * 3_005_005_000int, 60 * fo);
            vstd::arithmetic::div_mod::lemma_div_multiples_vanish_quotient(fo as int, 3_005_005_000int, 60);
            assert(fo * 60 == 60 * fo);
        }
        (ms + 100) as u32
    }
}

/// Frame-level state of one streak.
#[derive(Clone, Copy, Debug)]
pub struct StreakClock {
    /// `process`; negative while the streak waits out its delay.
    pub process: i32,
    /// `alphaB`.
    pub alpha: i32,
    /// Cleared when the fade has run out.
    pub alive: bool,
}

/// A live streak's alpha at `process` `q`: `fade_in` per frame for five
/// frames, then `fade_out` per frame down.
pub open spec fn streak_alpha_at(fade_in: int, fade_out: int, q: int) -> int {
    if q <= 0 {
        0
    } else if q <= RAMP_FRAMES {
        fade_in * q
    } else {
        RAMP_FRAMES * fade_in - fade_out * (q - RAMP_FRAMES)
    }
}

impl StreakClock {
    /// A live streak sits on its alpha curve, has a positive alpha once past
    /// its ramp, and is never past its retirement frame.
    pub open spec fn wf(&self, fade_in: u32, fade_out: u32) -> bool {
        &&& self.alive
        &&& self.process <= streak_life(fade_in as int, fade_out as int)
        &&& self.alpha == streak_alpha_at(fade_in as int, fade_out as int, self.process as int)
        &&& self.process > RAMP_FRAMES ==> self.alpha > 0
    }

    /// A streak that waits `delay` frames before it flashes in.
    pub fn new(delay: i32) -> (s: StreakClock)
        requires
            0 <= delay,
        ensures
            s.process == -delay,
            s.alpha == 0,
            s.alive,
    {
        StreakClock { process: -delay, alpha: 0, alive: true }
    }

    /// One frame of `PrimTripleAttack`: age, then ramp the alpha in for five
    /// frames or fade it out, retiring the streak when it runs out.
    pub fn step(&mut self, p: &TripleAttackParams)
        requires
            old(self).wf(p@.fade_in, p@.fade_out),
        ensures
            final(self).process == old(self).process + 1,
            final(self).alive <==> final(self).process < streak_life(p@.fade_in as int, p@.fade_out as int),
            final(self).alive ==> final(self).wf(p@.fade_in, p@.fade_out),
            !final(self).alive ==> final(self).alpha == 0,
    {
        proof {
            use_type_invariant(p);
        }
        let fade_in = p.fade_in;
        let fade_out = p.fade_out;
        let ghost fi = fade_in as int;
        let ghost fo = fade_out as int;
        let ghost peak = RAMP_FRAMES * fi;
        let ghost q = self.process + 1;
        proof {
            if 1 <= q <= RAMP_FRAMES {
                assert(self.alpha + fi == fi * q && fi * q <= 5000) by (nonlinear_arith)
                    requires
                        1 <= q <= 5,
                        0 <= fi <= 1000,
                        self.alpha == (if q - 1 <= 0 { 0 } else { fi * (q - 1) }),
                ;
            }
            if peak > 0 {
                assert((peak + fo - 1) / fo >= 1) by (nonlinear_arith)
                    requires
                        peak >= 1,
                        fo >= 1,
                ;
            }
            if q > RAMP_FRAMES {
                assert(self.alpha - fo == peak - fo * (q - RAMP_FRAMES)) by (nonlinear_arith)
                    requires
                        q > 5,
                        peak == 5 * fi,
                        self.alpha == (if q - 1 <= 5 { fi * (q - 1) } else { peak - fo * (q - 1 - 5) }),
                ;
                let life = streak_life(fi, fo);
                if peak > 0 {
                    let k = (peak + fo - 1) / fo;
                    assert(fo * k >= peak && fo * (k - 1) < peak) by (nonlinear_arith)
                        requires
                            k == (peak + fo - 1) / fo,
                            fo > 0,
                            peak > 0,
                    ;
                    assert(peak - fo * (q - RAMP_FRAMES) <= 0 <==> q - RAMP_FRAMES >= k) by (nonlinear_arith)
                        requires
                            fo * k >= peak,
                            fo * (k - 1) < peak,
                            fo > 0,
                    ;
                } else {
                    assert(peak - fo * (q - RAMP_FRAMES) <= 0) by (nonlinear_arith)
                        requires
                            peak == 0,
                            q > 5,
                            fo > 0,
                    ;
                }
            }
        }
        self.process = self.process + 1;
        if self.process <= 0 {
            return;
        }
        if self.process <= RAMP_FRAMES {
            self.alpha = self.alpha + fade_in as i32;
            assert(self.alpha == streak_alpha_at(fi, fo, q));
        } else {
            self.alpha = self.alpha - fade_out as i32;
            assert(self.alpha == peak - fo * (q - RAMP_FRAMES));
            if self.alpha <= 0 {
                self.alpha = 0;
                self.alive = false;
            } else {
                assert(q < streak_life(fi, fo));
                assert(self.alpha == streak_alpha_at(fi, fo, q));
            }
        }
    }
}

/// A streak delayed `delay` frames is retired exactly on frame
/// `delay + streak_life`, which is the frame the effect's
/// `total_duration_ms` budgets for the latest possible streak.
pub proof fn volley_fits_its_duration(p: TripleAttackTiming, wave: u32, draw: u32)
    requires
        params_ok(p),
        wave < p.waves,
        draw < p.delay_rand,
    ensures
        ({
            let delay = p.delay_base + draw + wave;
            (delay + streak_life(p.fade_in as int, p.fade_out as int)) * 1000 / (FRAMES_PER_SECOND as int)
                <= total_duration_spec(p)
        }),
{
    let fi = p.fade_in as int;
    let fo = p.fade_out as int;
    let peak = RAMP_FRAMES * fi;
    let m = p.delay_base + p.delay_rand + p.waves + RAMP_FRAMES;
    let delay = p.delay_base + draw + wave;
    let life = streak_life(fi, fo);
    // The streak is retired within one frame past `peak / fade_out`.
    assert(fo * (life - RAMP_FRAMES - 1) <= peak) by (nonlinear_arith)
        requires
            fo > 0,
            peak >= 0,
            life - RAMP_FRAMES == (if peak <= 0 { 1 } else { (peak + fo - 1) / fo }),
    ;
    let lhs = delay + life;
    assert(delay <= m - 7);
    assert(lhs * fo <= m * fo + peak) by (nonlinear_arith)
        requires
            lhs == delay + life,
            delay <= m - 7,
            fo * (life - RAMP_FRAMES - 1) <= peak,
            fo > 0,
    ;
    let big = (m * fo + peak) * 1000;
    assert(lhs * 1000 * fo <= big) by (nonlinear_arith)
        requires
            lhs * fo <= m * fo + peak,
            big == (m * fo + peak) * 1000,
    ;
    assert(lhs >= 0);
    vstd::arithmetic::div_mod::lemma_div_is_ordered(fo * (lhs * 1000), big, fo * 60);
    vstd::arithmetic::div_mod::lemma_div_multiples_vanish_quotient(fo, lhs * 1000, 60);
    assert(fo * (lhs * 1000) == lhs * 1000 * fo) by (nonlinear_arith);
    assert(fo * 60 == 60 * fo);
    assert(m * fo + peak == (p.delay_base + p.delay_rand + p.waves + RAMP_FRAMES) * p.fade_out + RAMP_FRAMES * p.fade_in);
}

/// Generator draws one streak takes, in order: x and z jitter, pull-back,
/// lift, the extra radius when the variant draws one, reach, and last its
/// delay.
pub open spec fn draws_per_streak(p: TripleAttackTiming) -> int {
    if p.radius_draw { 7 } else { 6 }
}

/// Start delay of streak `k` (wave `k / 4`) of a volley seeded with `seed`:
/// `delay_base + random(delay_rand) + wave`, the random part from the
/// streak's last draw.
pub open spec fn streak_delay(p: TripleAttackTiming, seed: u32, k: int) -> int {
    let st = lcg_iter(scramble(seed), (draws_per_streak(p) * (k + 1)) as nat);
    p.delay_base + (st as int % (if p.delay_rand == 0 { 1int } else { p.delay_rand as int })) + k / 4
}

/// The start delays of every streak of a volley seeded with `seed`, wave by
/// wave (the streak geometry drawn alongside is the renderer's).
pub fn streak_delays(p: &TripleAttackParams, seed: u32) -> (v: Vec<i32>)
    ensures
        v@.len() == STREAKS_PER_WAVE * p@.waves,
        forall|k: int| 0 <= k < v@.len() ==> #[trigger] v@[k] == streak_delay(p@, seed, k),
{
    proof {
        use_type_invariant(p);
    }
    let mut rng = Rng::from_seed(seed);
    let ghost s0 = scramble(seed);
    let d: u32 = if p.radius_draw { 7 } else { 6 };
    let mut v: Vec<i32> = Vec::new();
    let mut wave: u32 = 0;
    while wave < p.waves
        invariant
            params_ok(p@),
            d == draws_per_streak(p@),
            wave <= p.waves,
            v@.len() == STREAKS_PER_WAVE * wave,
            rng.state() == lcg_iter(s0, (d * v@.len()) as nat),
            s0 == scramble(seed),
            forall|k: int| 0 <= k < v@.len() ==> #[trigger] v@[k] == streak_delay(p@, seed, k),
        decreases p.waves - wave,
    {
        let mut j: u32 = 0;
        while j < STREAKS_PER_WAVE
            invariant
                params_ok(p@),
                d == draws_per_streak(p@),
                wave < p.waves,
                j <= STREAKS_PER_WAVE,
                v@.len() == STREAKS_PER_WAVE * wave + j,
                rng.state() == lcg_iter(s0, (d * v@.len()) as nat),
                s0 == scramble(seed),
                forall|k: int| 0 <= k < v@.len() ==> #[trigger] v@[k] == streak_delay(p@, seed, k),
            decreases STREAKS_PER_WAVE - j,
        {
            let ghost base: nat = (d * v@.len()) as nat;
            let mut t: u32 = 1;
            while t < d
                invariant
                    1 <= t <= d,
                    d <= 7,
                    rng.state() == lcg_iter(s0, (base + t - 1) as nat),
                decreases d - t,
            {
                let ghost before: nat = (base + t - 1) as nat;
                rng.next_u32();
                assert(lcg_iter(s0, before + 1) == crate::rng::lcg_step(lcg_iter(s0, before)));
                t = t + 1;
            }
            let ghost last: nat = (base + d - 1) as nat;
            assert(lcg_iter(s0, last + 1) == crate::rng::lcg_step(lcg_iter(s0, last)));
            let r = rng.random(p.delay_rand);
            let ghost k = v@.len() as int;
            assert(rng.state() == lcg_iter(s0, (d * (k + 1)) as nat)) by {
                assert(base + d == d * (k + 1)) by (nonlinear_arith)
                    requires
                        base == d * k,
                ;
            }
            assert(k / 4 == wave as int);
            let delay: i32 = p.delay_base + r as i32 + wave as i32;
            v.push(delay);
            j = j + 1;
        }
        wave = wave + 1;
    }
    v
}

/// Every streak of a seeded volley waits at least `delay_base + wave` frames
/// and is retired within the effect's `total_duration_ms` budget.
pub proof fn every_streak_fits_its_duration(p: TripleAttackTiming, seed: u32, k: int)
    requires
        params_ok(p),
        p.delay_rand > 0,
        0 <= k < STREAKS_PER_WAVE * p.waves,
    ensures
        streak_delay(p, seed, k) >= p.delay_base + k / 4,
        (streak_delay(p, seed, k) + streak_life(p.fade_in as int, p.fade_out as int)) * 1000 / (FRAMES_PER_SECOND as int)
            <= total_duration_spec(p),
{
    let st = lcg_iter(scramble(seed), (draws_per_streak(p) * (k + 1)) as nat);
    let draw = st % p.delay_rand;
    assert(k / 4 < p.waves);
    volley_fits_its_duration(p, (k / 4) as u32, draw);
}

} // verus!
