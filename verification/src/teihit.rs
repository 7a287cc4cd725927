//! Taekwon hit bursts.
//!
//! * `EF_TEIHIT1` / `EF_TEIHIT1X` / `EF_TEIHIT3` — radial streak bursts: `N`
//!   launches of four streaks each. Every streak takes three generator draws
//!   (two angles, then its wait `delay_base + random(delay_rand)`). Once its
//!   wait is over a streak slides outward `distance_speed` per step from −10;
//!   its alpha rises `+15` per step on steps 11..=20 (to 150) and falls `−5`
//!   per step after. The burst lasts while any streak is at most 20 steps in
//!   or still visible.
//! * `EF_TEIHIT2` / `EF_BACKSTAP` — a directional dart spray: `N` launches of
//!   four darts. Every dart takes five draws (jitter, size, speed, rise, then
//!   its wait `40 − random(10)`). A dart's alpha rises `+25` per step for 10
//!   steps, then falls `−3` per step; the spray lasts while any dart is at
//!   most 10 steps in or still visible.
//!
//! Streak generators are seeded with [`Rng::from_seed`]. This module holds
//! the schedules and clocks in steps (the caller decides how many steps a
//! frame is worth); angles, sizes and positions are the renderer's.
use vstd::prelude::*;
use crate::draw::EffectStatus;
use crate::rng::{lcg_iter, lcg_step, scramble, Rng};

verus! {

pub const TEXTURES: [&'static str; 4] = ["alpha_center.tga", "lens1.tga", "lens2.tga", "alpha_center.tga"];
/// The dispatcher's budget, ms.
pub const TOTAL_DURATION_MS: u32 = 3000;
/// Streaks or darts per launch.
pub const PER_LAUNCH: usize = 4;

/// Integer parameters of a streak burst.
#[derive(Clone, Copy, Debug)]
pub struct TeihitParams {
    /// Streak texture.
    pub texture: &'static str,
    /// Launches; each fires four streaks.
    pub prim_count: usize,
    /// Outward slide per step, world units.
    pub distance_speed: u32,
    /// Shortest wait, steps.
    pub delay_base: u32,
    /// Spread of the waits: `random(delay_rand)`.
    pub delay_rand: u32,
}

/// `EF_TEIHIT1`: 20 yellow launches.
#[allow(non_snake_case)]
pub fn TEIHIT1() -> (p: TeihitParams)
    ensures
        p.texture == "alpha_center.tga" && p.prim_count == 20 && p.distance_speed == 3 && p.delay_base == 4
            && p.delay_rand == 12,
{
    TeihitParams { texture: "alpha_center.tga", prim_count: 20, distance_speed: 3, delay_base: 4, delay_rand: 12 }
}

/// `EF_TEIHIT1X`: 24 neutral launches.
#[allow(non_snake_case)]
pub fn TEIHIT1X() -> (p: TeihitParams)
    ensures
        p.texture == "lens1.tga" && p.prim_count == 24 && p.distance_speed == 3 && p.delay_base == 4
            && p.delay_rand == 12,
{
    TeihitParams { texture: "lens1.tga", prim_count: 24, distance_speed: 3, delay_base: 4, delay_rand: 12 }
}

/// `EF_TEIHIT3`: 20 bluish launches, slower and tighter.
#[allow(non_snake_case)]
pub fn TEIHIT3() -> (p: TeihitParams)
    ensures
        p.texture == "lens2.tga" && p.prim_count == 20 && p.distance_speed == 2 && p.delay_base == 6
            && p.delay_rand == 8,
{
    TeihitParams { texture: "lens2.tga", prim_count: 20, distance_speed: 2, delay_base: 6, delay_rand: 8 }
}

/// Launch count of a dart-splash variant.
#[derive(Clone, Copy, Debug, PartialEq, Eq, Structural)]
pub struct TeiHit2Params {
    /// Launches; each spawns four darts.
    pub prim_count: usize,
}

/// `EF_TEIHIT2` — 5 launches (20 darts).
#[allow(non_snake_case)]
pub fn TEIHIT2() -> (p: TeiHit2Params)
    ensures
        p.prim_count == 5,
{
    TeiHit2Params { prim_count: 5 }
}

/// `EF_BACKSTAP` — 20 launches (80 darts).
#[allow(non_snake_case)]
pub fn BACKSTAP() -> (p: TeiHit2Params)
    ensures
        p.prim_count == 20,
{
    TeiHit2Params { prim_count: 20 }
}

/// A streak's or dart's clock.
#[derive(Clone, Copy, Debug)]
pub struct HitMote {
    /// Steps into its life; negative while it waits.
    pub process: i32,
    /// Alpha, `0..=255` units.
    pub alpha: i32,
}

/// Streak alpha on step `p`.
pub open spec fn streak_alpha_at(p: int) -> int {
    if p <= 10 {
        0
    } else if p <= 20 {
        15 * (p - 10)
    } else if 150 - 5 * (p - 20) > 0 {
        150 - 5 * (p - 20)
    } else {
        0
    }
}

/// Dart alpha on step `p`.
pub open spec fn dart_alpha_at(p: int) -> int {
    if p <= 0 {
        0
    } else if p <= 10 {
        25 * p
    } else if 250 - 3 * (p - 10) > 0 {
        250 - 3 * (p - 10)
    } else {
        0
    }
}

/// Streak `k`'s wait, drawn from the stream starting at `s0`.
pub open spec fn streak_delay(p: TeihitParams, s0: u32, k: int) -> int {
    p.delay_base + lcg_iter(s0, (3 * k + 3) as nat) % p.delay_rand
}

/// Dart `k`'s wait, drawn from the stream starting at `s0`.
pub open spec fn dart_delay(s0: u32, k: int) -> int {
    40 - lcg_iter(s0, (5 * k + 5) as nat) % 10
}

/// Parameters a burst can be made of: a spread to draw from, a longest
/// wait whose negation fits the `i32` step counter, and a streak count that
/// fits a `usize`.
pub open spec fn teihit_params_ok(p: TeihitParams) -> bool {
    &&& p.delay_rand > 0
    &&& p.delay_base + p.delay_rand <= 0x8000_0001
    &&& 4 * p.prim_count <= usize::MAX
}

/// Most steps a burst can take: its `i32` step counters must not overflow.
pub const MAX_STEPS: u32 = 0x7fff_fffe;

/// Streak `k` after `t` steps: its clock and distance are their closed forms.
pub open spec fn streak_ok(p: TeihitParams, s0: u32, m: HitMote, d: i64, t: int, k: int) -> bool {
    &&& m.process == t - streak_delay(p, s0, k)
    &&& m.alpha == streak_alpha_at(m.process as int)
    &&& d == -10 + p.distance_speed * (if m.process > 0 { m.process as int } else { 0 })
}

/// One step of one streak.
fn step_streak(p: TeihitParams, Ghost(s0): Ghost<u32>, m0: HitMote, d0: i64, Ghost(t): Ghost<int>, Ghost(k): Ghost<int>)
    -> (r: (HitMote, i64))
    requires
        teihit_params_ok(p),
        streak_ok(p, s0, m0, d0, t, k),
        0 <= t < MAX_STEPS,
    ensures
        streak_ok(p, s0, r.0, r.1, t + 1, k),
{
    let mut m = m0;
    let mut d = d0;
    proof {
        assert(m.process <= MAX_STEPS);
        if m.process > 0 {
            assert(p.distance_speed * m.process <= 0xffff_ffff * 0x7fff_fffei64) by (nonlinear_arith)
                requires p.distance_speed <= 0xffff_ffff, m.process <= 0x7fff_fffe, m.process > 0;
            assert(p.distance_speed * (m.process + 1) == p.distance_speed * m.process + p.distance_speed)
                by (nonlinear_arith);
        }
        assert(p.distance_speed * 1int == p.distance_speed);
        assert(p.distance_speed * 0int == 0);
    }
    m.process = m.process + 1;
    if m.process > 0 {
        d = d + p.distance_speed as i64;
    }
    if m.process > 10 && m.process <= 20 {
        m.alpha = if m.alpha + 15 < 150 { m.alpha + 15 } else { 150 };
    } else if m.process > 20 {
        m.alpha = if m.alpha - 5 > 0 { m.alpha - 5 } else { 0 };
    }
    (m, d)
}

/// The streaks of one burst and the steps taken.
pub struct TeihitStreaks {
    params: TeihitParams,
    seed: Ghost<u32>,
    streaks: Vec<HitMote>,
    distances: Vec<i64>,
    steps: u32,
}

impl TeihitStreaks {
    /// The burst's parameters.
    pub closed spec fn params_spec(&self) -> TeihitParams {
        self.params
    }

    /// The generator seed.
    pub closed spec fn seed_spec(&self) -> u32 {
        self.seed@
    }

    /// Steps taken.
    pub closed spec fn steps_spec(&self) -> u32 {
        self.steps
    }

    /// The streak clocks.
    pub closed spec fn streaks_spec(&self) -> Seq<HitMote> {
        self.streaks@
    }

    /// Each streak's distance from the centre.
    pub closed spec fn distances_spec(&self) -> Seq<i64> {
        self.distances@
    }

    /// Every streak — `4 · prim_count` of them — is its closed form in the
    /// steps taken: its clock, alpha and distance.
    pub open spec fn on_schedule(&self) -> bool {
        let s0 = scramble(self.seed_spec());
        &&& self.streaks_spec().len() == 4 * self.params_spec().prim_count
        &&& self.distances_spec().len() == self.streaks_spec().len()
        &&& forall|k: int| 0 <= k < self.streaks_spec().len() ==> streak_ok(self.params_spec(), s0,
            #[trigger] self.streaks_spec()[k], self.distances_spec()[k], self.steps_spec() as int, k)
    }

    /// Every streak is exactly its closed form in the steps taken.
    pub closed spec fn wf(&self) -> bool {
        let s0 = scramble(self.seed@);
        &&& teihit_params_ok(self.params)
        &&& self.streaks@.len() == 4 * self.params.prim_count
        &&& self.distances@.len() == self.streaks@.len()
        &&& self.steps <= MAX_STEPS
        &&& forall|k: int| 0 <= k < self.streaks@.len() ==>
            streak_ok(self.params, s0, #[trigger] self.streaks@[k], self.distances@[k], self.steps as int, k)
    }

    /// Spawns `4 * prim_count` streaks from the generator seeded with `seed`.
    pub fn new(params: TeihitParams, seed: u32) -> (e: TeihitStreaks)
        requires
            teihit_params_ok(params),
        ensures
            e.wf(),
            e.on_schedule(),
            e.params_spec() == params,
            e.seed_spec() == seed,
            e.steps_spec() == 0,
    {
        let mut rng = Rng::from_seed(seed);
        let ghost s0 = rng.state();
        let n = 4 * params.prim_count;
        let mut streaks: Vec<HitMote> = Vec::new();
        let mut distances: Vec<i64> = Vec::new();
        let mut k: usize = 0;
        while k < n
            invariant
                n == 4 * params.prim_count,
                teihit_params_ok(params),
                s0 == scramble(seed),
                k <= n,
                streaks@.len() == k,
                distances@.len() == k,
                rng.state() == lcg_iter(s0, (3 * k) as nat),
                forall|i: int| 0 <= i < k ==> streak_ok(params, s0, #[trigger] streaks@[i], distances@[i], 0, i),
            decreases n - k,
        {
            rng.next_u32();
            rng.next_u32();
            let r = rng.random(params.delay_rand);
            proof {
                assert(lcg_iter(s0, (3 * k + 3) as nat) == lcg_step(lcg_iter(s0, (3 * k + 2) as nat)));
                assert(lcg_iter(s0, (3 * k + 2) as nat) == lcg_step(lcg_iter(s0, (3 * k + 1) as nat)));
                assert(lcg_iter(s0, (3 * k + 1) as nat) == lcg_step(lcg_iter(s0, (3 * k) as nat)));
            }
            let start: i64 = -(params.delay_base as i64) - r as i64;
            assert(start >= -0x8000_0000);
            streaks.push(HitMote { process: start as i32, alpha: 0 });
            distances.push(-10);
            k = k + 1;
        }
        TeihitStreaks { params, seed: Ghost(seed), streaks, distances, steps: 0 }
    }

    /// One step: every streak ages, slides out once its wait is over, and
    /// fades in then out.
    pub fn step(&mut self)
        requires
            old(self).wf(),
            old(self).steps_spec() < MAX_STEPS,
        ensures
            final(self).wf(),
            final(self).on_schedule(),
            final(self).params_spec() == old(self).params_spec(),
            final(self).seed_spec() == old(self).seed_spec(),
            final(self).steps_spec() == old(self).steps_spec() + 1,
    {
        let ghost s0 = scramble(self.seed@);
        let n = self.streaks.len();
        let mut k: usize = 0;
        while k < n
            invariant
                n == self.streaks@.len(),
                n == self.distances@.len(),
                k <= n,
                self.params == old(self).params,
                self.seed@ == old(self).seed@,
                self.steps == old(self).steps,
                self.steps < MAX_STEPS,
                teihit_params_ok(self.params),
                s0 == scramble(self.seed@),
                forall|i: int| 0 <= i < n ==> streak_ok(self.params, s0, #[trigger] self.streaks@[i], self.distances@[i],
                    if i < k { self.steps + 1 } else { self.steps as int }, i),
            decreases n - k,
        {
            let m0 = self.streaks[k];
            let d0 = self.distances[k];
            let (m, d) = step_streak(self.params, Ghost(s0), m0, d0, Ghost(self.steps as int), Ghost(k as int));
            self.streaks.set(k, m);
            self.distances.set(k, d);
            k = k + 1;
        }
        self.steps = self.steps + 1;
    }

    /// Whether any streak is at most 20 steps in or still visible.
    pub fn alive(&self) -> (r: bool)
        ensures
            r == exists|k: int| 0 <= k < self.streaks_spec().len()
                && (self.streaks_spec()[k].process <= 20 || self.streaks_spec()[k].alpha > 0),
    {
        let mut k: usize = 0;
        while k < self.streaks.len()
            invariant
                k <= self.streaks@.len(),
                forall|i: int| 0 <= i < k ==> !(self.streaks@[i].process <= 20 || self.streaks@[i].alpha > 0),
            decreases self.streaks@.len() - k,
        {
            if self.streaks[k].process <= 20 || self.streaks[k].alpha > 0 {
                assert(self.streaks_spec()[k as int].process <= 20 || self.streaks_spec()[k as int].alpha > 0);
                return true;
            }
            k = k + 1;
        }
        false
    }

    /// Advances by `steps` steps and reports `Dead` once no streak is alive.
    pub fn advance(&mut self, steps: u32) -> (status: EffectStatus)
        requires
            old(self).wf(),
            old(self).steps_spec() + steps <= MAX_STEPS,
        ensures
            final(self).wf(),
            final(self).on_schedule(),
            final(self).params_spec() == old(self).params_spec(),
            final(self).seed_spec() == old(self).seed_spec(),
            final(self).steps_spec() == old(self).steps_spec() + steps,
            status == (if exists|k: int| 0 <= k < final(self).streaks_spec().len()
                && (final(self).streaks_spec()[k].process <= 20 || final(self).streaks_spec()[k].alpha > 0) {
                EffectStatus::Running
            } else {
                EffectStatus::Dead
            }),
    {
        let mut i: u32 = 0;
        while i < steps
            invariant
                self.wf(),
                self.params_spec() == old(self).params_spec(),
                self.seed_spec() == old(self).seed_spec(),
                self.steps_spec() == old(self).steps_spec() + i,
                old(self).steps_spec() + steps <= MAX_STEPS,
                i <= steps,
            decreases steps - i,
        {
            self.step();
            i = i + 1;
        }
        if self.alive() { EffectStatus::Running } else { EffectStatus::Dead }
    }

    /// Number of streaks.
    pub fn streak_count(&self) -> (r: usize)
        ensures
            r == self.streaks_spec().len(),
    {
        self.streaks.len()
    }

    /// Streak `i`'s clock.
    pub fn streak(&self, i: usize) -> (r: HitMote)
        requires
            i < self.streaks_spec().len(),
        ensures
            r == self.streaks_spec()[i as int],
    {
        self.streaks[i]
    }

    /// Streak `i`'s distance from the centre, world units.
    pub fn distance(&self, i: usize) -> (r: i64)
        requires
            self.wf(),
            i < self.streaks_spec().len(),
        ensures
            r == -10 + self.params_spec().distance_speed * (if self.streaks_spec()[i as int].process > 0 {
                self.streaks_spec()[i as int].process as int
            } else {
                0
            }),
    {
        self.distances[i]
    }
}

/// A streak is alive (at most 20 steps in, or visible) exactly while it has
/// not yet run 50 steps, so a burst ends exactly when its latest streak has.
pub proof fn streak_alive_until_step_50(p: int)
    ensures
        (p <= 20 || streak_alpha_at(p) > 0) <==> p < 50,
        streak_alpha_at(p) <= 150,
{
}

/// A streak burst has ended once `delay_base + delay_rand + 49` steps have
/// run: its latest streak waits `delay_base + delay_rand − 1` steps and
/// lives 50.
pub proof fn burst_ends_after_latest_streak(e: TeihitStreaks)
    requires
        e.wf(),
        e.steps_spec() >= e.params_spec().delay_base + e.params_spec().delay_rand + 49,
    ensures
        forall|k: int| 0 <= k < e.streaks_spec().len() ==>
            !(#[trigger] e.streaks_spec()[k].process <= 20 || e.streaks_spec()[k].alpha > 0),
{
    assert forall|k: int| 0 <= k < e.streaks_spec().len() implies
        !(#[trigger] e.streaks_spec()[k].process <= 20 || e.streaks_spec()[k].alpha > 0) by {
        let s0 = scramble(e.seed@);
        assert(streak_ok(e.params, s0, e.streaks@[k], e.distances@[k], e.steps as int, k));
        assert(lcg_iter(s0, (3 * k + 3) as nat) % e.params.delay_rand < e.params.delay_rand);
    }
}

/// The darts of one spray and the steps taken.
pub struct TeiHit2Darts {
    seed: Ghost<u32>,
    darts: Vec<HitMote>,
    steps: u32,
}

impl TeiHit2Darts {
    /// The generator seed.
    pub closed spec fn seed_spec(&self) -> u32 {
        self.seed@
    }

    /// Steps taken.
    pub closed spec fn steps_spec(&self) -> u32 {
        self.steps
    }

    /// The dart clocks.
    pub closed spec fn darts_spec(&self) -> Seq<HitMote> {
        self.darts@
    }

    /// Every dart is its closed form in the steps taken: its clock and
    /// alpha.
    pub open spec fn on_schedule(&self) -> bool {
        let s0 = scramble(self.seed_spec());
        forall|k: int| 0 <= k < self.darts_spec().len() ==> {
            let m = #[trigger] self.darts_spec()[k];
            &&& m.process == self.steps_spec() - dart_delay(s0, k)
            &&& m.alpha == dart_alpha_at(m.process as int)
        }
    }

    /// Every dart is exactly its closed form in the steps taken.
    pub closed spec fn wf(&self) -> bool {
        let s0 = scramble(self.seed@);
        &&& self.steps <= MAX_STEPS
        &&& forall|k: int| 0 <= k < self.darts@.len() ==> {
            let m = #[trigger] self.darts@[k];
            &&& m.process == self.steps - dart_delay(s0, k)
            &&& m.alpha == dart_alpha_at(m.process as int)
        }
    }

    /// Spawns `4 * prim_count` darts from the generator seeded with `seed`.
    pub fn new(params: TeiHit2Params, seed: u32) -> (e: TeiHit2Darts)
        requires
            4 * params.prim_count <= usize::MAX,
        ensures
            e.wf(),
            e.on_schedule(),
            e.seed_spec() == seed,
            e.steps_spec() == 0,
            e.darts_spec().len() == 4 * params.prim_count,
    {
        let mut rng = Rng::from_seed(seed);
        let ghost s0 = rng.state();
        let n = 4 * params.prim_count;
        let mut darts: Vec<HitMote> = Vec::new();
        let mut k: usize = 0;
        while k < n
            invariant
                n == 4 * params.prim_count,
                s0 == scramble(seed),
                k <= n,
                darts@.len() == k,
                rng.state() == lcg_iter(s0, (5 * k) as nat),
                forall|i: int| 0 <= i < k ==> {
                    let m = #[trigger] darts@[i];
                    &&& m.process == 0 - dart_delay(s0, i)
                    &&& m.alpha == 0
                },
            decreases n - k,
        {
            rng.next_u32();
            rng.next_u32();
            rng.next_u32();
            rng.next_u32();
            let r = rng.random(10);
            proof {
                assert(lcg_iter(s0, (5 * k + 5) as nat) == lcg_step(lcg_iter(s0, (5 * k + 4) as nat)));
                assert(lcg_iter(s0, (5 * k + 4) as nat) == lcg_step(lcg_iter(s0, (5 * k + 3) as nat)));
                assert(lcg_iter(s0, (5 * k + 3) as nat) == lcg_step(lcg_iter(s0, (5 * k + 2) as nat)));
                assert(lcg_iter(s0, (5 * k + 2) as nat) == lcg_step(lcg_iter(s0, (5 * k + 1) as nat)));
                assert(lcg_iter(s0, (5 * k + 1) as nat) == lcg_step(lcg_iter(s0, (5 * k) as nat)));
            }
            darts.push(HitMote { process: -40 + r as i32, alpha: 0 });
            k = k + 1;
        }
        TeiHit2Darts { seed: Ghost(seed), darts, steps: 0 }
    }

    /// One step: every dart ages and fades in then out.
    pub fn step(&mut self)
        requires
            old(self).wf(),
            old(self).steps_spec() < MAX_STEPS,
        ensures
            final(self).wf(),
            final(self).on_schedule(),
            final(self).seed_spec() == old(self).seed_spec(),
            final(self).steps_spec() == old(self).steps_spec() + 1,
            final(self).darts_spec().len() == old(self).darts_spec().len(),
    {
        let ghost s0 = scramble(self.seed@);
        let n = self.darts.len();
        let mut k: usize = 0;
        while k < n
            invariant
                n == self.darts@.len(),
                k <= n,
                self.seed@ == old(self).seed@,
                self.steps == old(self).steps,
                self.steps < MAX_STEPS,
                s0 == scramble(self.seed@),
                forall|i: int| 0 <= i < n ==> {
                    let m = #[trigger] self.darts@[i];
                    let t = if i < k { self.steps + 1 } else { self.steps as int };
                    &&& m.process == t - dart_delay(s0, i)
                    &&& m.alpha == dart_alpha_at(m.process as int)
                },
            decreases n - k,
        {
            let mut m = self.darts[k];
            m.process = m.process + 1;
            if m.process > 0 {
                if m.process <= 10 {
                    m.alpha = if m.alpha + 25 < 255 { m.alpha + 25 } else { 255 };
                } else {
                    m.alpha = if m.alpha - 3 > 0 { m.alpha - 3 } else { 0 };
                }
            }
            self.darts.set(k, m);
            k = k + 1;
        }
        self.steps = self.steps + 1;
    }

    /// Whether any dart is at most 10 steps in or still visible.
    pub fn alive(&self) -> (r: bool)
        ensures
            r == exists|k: int| 0 <= k < self.darts_spec().len()
                && (self.darts_spec()[k].process <= 10 || self.darts_spec()[k].alpha > 0),
    {
        let mut k: usize = 0;
        while k < self.darts.len()
            invariant
                k <= self.darts@.len(),
                forall|i: int| 0 <= i < k ==> !(self.darts@[i].process <= 10 || self.darts@[i].alpha > 0),
            decreases self.darts@.len() - k,
        {
            if self.darts[k].process <= 10 || self.darts[k].alpha > 0 {
                assert(self.darts_spec()[k as int].process <= 10 || self.darts_spec()[k as int].alpha > 0);
                return true;
            }
            k = k + 1;
        }
        false
    }

    /// Advances by `steps` steps and reports `Dead` once no dart is alive.
    pub fn advance(&mut self, steps: u32) -> (status: EffectStatus)
        requires
            old(self).wf(),
            old(self).steps_spec() + steps <= MAX_STEPS,
        ensures
            final(self).wf(),
            final(self).on_schedule(),
            final(self).seed_spec() == old(self).seed_spec(),
            final(self).steps_spec() == old(self).steps_spec() + steps,
            final(self).darts_spec().len() == old(self).darts_spec().len(),
            status == (if exists|k: int| 0 <= k < final(self).darts_spec().len()
                && (final(self).darts_spec()[k].process <= 10 || final(self).darts_spec()[k].alpha > 0) {
                EffectStatus::Running
            } else {
                EffectStatus::Dead
            }),
    {
        let mut i: u32 = 0;
        while i < steps
            invariant
                self.wf(),
                self.seed_spec() == old(self).seed_spec(),
                self.steps_spec() == old(self).steps_spec() + i,
                self.darts_spec().len() == old(self).darts_spec().len(),
                old(self).steps_spec() + steps <= MAX_STEPS,
                i <= steps,
            decreases steps - i,
        {
            self.step();
            i = i + 1;
        }
        if self.alive() { EffectStatus::Running } else { EffectStatus::Dead }
    }

    /// Number of darts.
    pub fn dart_count(&self) -> (r: usize)
        ensures
            r == self.darts_spec().len(),
    {
        self.darts.len()
    }

    /// Dart `i`'s clock.
    pub fn dart(&self, i: usize) -> (r: HitMote)
        requires
            i < self.darts_spec().len(),
        ensures
            r == self.darts_spec()[i as int],
    {
        self.darts[i]
    }
}

/// A dart is alive exactly while it has not yet run 94 steps; every spray
/// ends within 134 steps (a wait of at most 40 plus 94), and no dart's alpha
/// exceeds 250.
pub proof fn spray_ends_within_134_steps(e: TeiHit2Darts)
    requires
        e.wf(),
        e.steps_spec() >= 134,
    ensures
        forall|k: int| 0 <= k < e.darts_spec().len() ==>
            !(#[trigger] e.darts_spec()[k].process <= 10 || e.darts_spec()[k].alpha > 0),
{
    assert forall|k: int| 0 <= k < e.darts_spec().len() implies
        !(#[trigger] e.darts_spec()[k].process <= 10 || e.darts_spec()[k].alpha > 0) by {
        let m = e.darts@[k];
        assert(m.process == e.steps - dart_delay(scramble(e.seed@), k));
    }
}

} // verus!
