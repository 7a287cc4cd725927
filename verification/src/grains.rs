//! Periodic particle spawning with per-update ageing, the pattern the sand
//! and stat-buff parents share.
//!
//! On an update of `n` frames the parent first fires a particle on every
//! frame it has not yet processed, up to the current one, that lies within
//! its spawn window (`f <= parent_frames`) and on its period
//! (`f % period == 0`); each new particle takes three generator draws for its
//! scatter. Then every particle, the new ones included, ages by `n`, and
//! particles at least `life` frames old are dropped. A gated parent (the
//! stat buffs) only spawns on updates that end inside its window.
//!
//! Time is counted in ticks, a caller-chosen `1/ticks` of a frame, so an
//! update of a fractional frame count is kept exactly: the spawn loop runs
//! over the whole frames reached (the current frame is the elapsed ticks
//! divided by the ticks per frame, rounded down), while ages count ticks.
//!
//! The generator is the bare linear congruential step of [`crate::rng`],
//! seeded directly (the seed mixes float bits, which the caller supplies).
use vstd::prelude::*;
use crate::rng::{lcg_iter, lcg_next};

verus! {

/// One particle: the frame it fired on, its age in frames, and its three
/// scatter draws (raw generator states, mapped to ranges by the renderer).
#[derive(Clone, Copy, Debug)]
pub struct Grain {
    /// Frame the particle fired on.
    pub spawn_frame: u32,
    /// Frames aged.
    pub age: u32,
    /// First scatter draw.
    pub draw0: u32,
    /// Second scatter draw.
    pub draw1: u32,
    /// Third scatter draw.
    pub draw2: u32,
}

/// Spawn rule of one parent.
#[derive(Clone, Copy, Debug)]
pub struct GrainRule {
    /// Frames between spawns.
    pub period: u32,
    /// Last frame a particle may fire on.
    pub parent_frames: u32,
    /// Frames a particle lives.
    pub life: u32,
    /// Spawn only on updates that end inside the window.
    pub gated: bool,
}

/// The rule's arithmetic is well defined.
pub open spec fn rule_ok(r: GrainRule) -> bool {
    r.period > 0
}

/// Number of spawn frames in `lo..=hi`.
pub open spec fn spawn_count(r: GrainRule, lo: int, hi: int) -> nat
    decreases hi - lo + 1,
{
    if hi < lo {
        0
    } else {
        spawn_count(r, lo, hi - 1) + (if hi <= r.parent_frames && hi % (r.period as int) == 0 { 1nat } else { 0nat })
    }
}

/// The particle fired on frame `f` as the `k`-th of the stream starting at
/// `s0`: draws `3k + 1`, `3k + 2`, `3k + 3`.
pub open spec fn fresh_grain(s0: u32, k: int, f: int) -> Grain {
    Grain {
        spawn_frame: f as u32,
        age: 0,
        draw0: lcg_iter(s0, (3 * k + 1) as nat),
        draw1: lcg_iter(s0, (3 * k + 2) as nat),
        draw2: lcg_iter(s0, (3 * k + 3) as nat),
    }
}

/// The particles an update fires on the frames `lo..=hi`, numbered from `k`.
pub open spec fn fresh_grains(r: GrainRule, s0: u32, k: int, lo: int, hi: int) -> Seq<Grain>
    decreases hi - lo + 1,
{
    if hi < lo {
        Seq::empty()
    } else {
        let prev = fresh_grains(r, s0, k, lo, hi - 1);
        if hi <= r.parent_frames && hi % (r.period as int) == 0 {
            prev.push(fresh_grain(s0, k + prev.len(), hi))
        } else {
            prev
        }
    }
}

/// Every particle ages by `n`; those at least `life` frames old drop out.
pub open spec fn aged_grains(gs: Seq<Grain>, n: int, life: int) -> Seq<Grain>
    decreases gs.len(),
{
    if gs.len() == 0 {
        Seq::empty()
    } else {
        let kept = aged_grains(gs.drop_last(), n, life);
        let g = gs.last();
        if g.age + n < life { kept.push(Grain { age: (g.age + n) as u32, ..g }) } else { kept }
    }
}

/// The particles fired on `lo..=hi` fired inside the window and that range,
/// with age 0.
proof fn fresh_grains_props(r: GrainRule, s0: u32, k: int, lo: int, hi: int)
    requires
        0 <= lo,
        hi <= u32::MAX,
    ensures
        forall|j: int| 0 <= j < fresh_grains(r, s0, k, lo, hi).len() ==> {
            let g = #[trigger] fresh_grains(r, s0, k, lo, hi)[j];
            &&& lo <= g.spawn_frame <= hi
            &&& g.spawn_frame <= r.parent_frames
            &&& g.age == 0
        },
    decreases hi - lo + 1,
{
    if hi >= lo {
        fresh_grains_props(r, s0, k, lo, hi - 1);
        let prev = fresh_grains(r, s0, k, lo, hi - 1);
        let cur = fresh_grains(r, s0, k, lo, hi);
        assert forall|j: int| 0 <= j < cur.len() implies {
            let g = #[trigger] cur[j];
            &&& lo <= g.spawn_frame <= hi
            &&& g.spawn_frame <= r.parent_frames
            &&& g.age == 0
        } by {
            if j < prev.len() {
                assert(cur[j] == prev[j]);
            }
        }
    }
}

/// Ageing keeps every surviving particle younger than its life, and at
/// least as old as the ticks since it fired (`t` ticks a frame).
proof fn aged_grains_props(gs: Seq<Grain>, n: int, life: int, now: int, parent: int, last: int, t: int)
    requires
        forall|j: int| 0 <= j < gs.len() ==> {
            let g = #[trigger] gs[j];
            &&& g.spawn_frame <= parent
            &&& g.spawn_frame as int <= last
            &&& g.age + n >= now - g.spawn_frame * t
        },
        n >= 0,
        forall|j: int| 0 <= j < gs.len() ==> (#[trigger] gs[j]).age + n <= u32::MAX || gs[j].age + n >= life,
        life <= u32::MAX,
    ensures
        forall|j: int| 0 <= j < aged_grains(gs, n, life).len() ==> {
            let g = #[trigger] aged_grains(gs, n, life)[j];
            &&& g.spawn_frame <= parent
            &&& g.spawn_frame as int <= last
            &&& g.age < life
            &&& g.age >= now - g.spawn_frame * t
        },
    decreases gs.len(),
{
    if gs.len() > 0 {
        let d = gs.drop_last();
        assert forall|j: int| 0 <= j < d.len() implies {
            let g = #[trigger] d[j];
            &&& g.spawn_frame <= parent
            &&& g.spawn_frame as int <= last
            &&& g.age + n >= now - g.spawn_frame * t
        } by {
            assert(d[j] == gs[j]);
        }
        assert forall|j: int| 0 <= j < d.len() implies (#[trigger] d[j]).age + n <= u32::MAX || d[j].age + n >= life by {
            assert(d[j] == gs[j]);
        }
        aged_grains_props(d, n, life, now, parent, last, t);
        assert(gs.last() == gs[gs.len() - 1]);
        let kept = aged_grains(d, n, life);
        let cur = aged_grains(gs, n, life);
        assert forall|j: int| 0 <= j < cur.len() implies {
            let g = #[trigger] cur[j];
            &&& g.spawn_frame <= parent
            &&& g.spawn_frame as int <= last
            &&& g.age < life
            &&& g.age >= now - g.spawn_frame * t
        } by {
            if j < kept.len() {
                assert(cur[j] == kept[j]);
            }
        }
    }
}

/// Fires, in order, a particle on every spawn frame of `lo..=hi`, drawing
/// three generator states for each.
fn fire_frames(grains: &mut Vec<Grain>, rng_state: &mut u32, spawned: &mut u32, rule: GrainRule,
    Ghost(s0): Ghost<u32>, lo: u64, hi: u32)
    requires
        rule_ok(rule),
        *old(rng_state) == lcg_iter(s0, (3 * *old(spawned)) as nat),
        *old(spawned) <= lo,
        hi < u32::MAX,
        lo <= hi + 1,
    ensures
        *final(spawned) <= hi + 1,
        final(grains)@ == old(grains)@ + fresh_grains(rule, s0, *old(spawned) as int, lo as int, hi as int),
        *final(spawned) == *old(spawned) + fresh_grains(rule, s0, *old(spawned) as int, lo as int, hi as int).len(),
        *final(rng_state) == lcg_iter(s0, (3 * *final(spawned)) as nat),
{
    let ghost k0 = *spawned as int;
    let ghost pre = grains@;
    let ghost mut born: Seq<Grain> = Seq::empty();
    let mut f: u64 = lo;
    while f <= hi as u64
        invariant
            lo <= f <= hi + 1,
            rule_ok(rule),
            born == fresh_grains(rule, s0, k0, lo as int, f - 1),
            *spawned as int == k0 + born.len(),
            born.len() <= f - lo,
            k0 <= lo,
            hi < u32::MAX,
            *rng_state == lcg_iter(s0, (3 * *spawned) as nat),
            grains@ == pre + born,
        decreases hi + 1 - f,
    {
        if f <= rule.parent_frames as u64 && f % rule.period as u64 == 0 {
            let ghost k = *spawned as int;
            let d0 = lcg_next(rng_state);
            let d1 = lcg_next(rng_state);
            let d2 = lcg_next(rng_state);
            let g = Grain { spawn_frame: f as u32, age: 0, draw0: d0, draw1: d1, draw2: d2 };
            proof {
                assert(lcg_iter(s0, (3 * k + 1) as nat) == crate::rng::lcg_step(lcg_iter(s0, (3 * k) as nat)));
                assert(lcg_iter(s0, (3 * k + 2) as nat) == crate::rng::lcg_step(lcg_iter(s0, (3 * k + 1) as nat)));
                assert(lcg_iter(s0, (3 * k + 3) as nat) == crate::rng::lcg_step(lcg_iter(s0, (3 * k + 2) as nat)));
                assert(g == fresh_grain(s0, k, f as int));
            }
            grains.push(g);
            *spawned = *spawned + 1;
            proof {
                born = born.push(g);
                assert(grains@ =~= pre + born);
            }
        }
        proof {
            assert(born == fresh_grains(rule, s0, k0, lo as int, f as int));
        }
        f = f + 1;
    }
}

/// `after` is `before` advanced by `frames` ticks: the particles due in the
/// whole frames reached (when the parent still fires) are born from the
/// generator, every particle ages by `frames`, and the expired drop out.
pub open spec fn advanced_by(before: GrainField, after: GrainField, frames: int) -> bool {
    let t = before.ticks_spec() as int;
    let now = after.age_spec() as int;
    let now_frame = now / t;
    let fire = !before.rule().gated || now <= before.rule().parent_frames * t;
    let lo = before.last_spawn_spec() + 1;
    let born = if fire {
        fresh_grains(before.rule(), before.seed_spec(), before.spawned_spec() as int, lo, now_frame)
    } else {
        Seq::empty()
    };
    &&& after.rule() == before.rule()
    &&& after.ticks_spec() == before.ticks_spec()
    &&& after.seed_spec() == before.seed_spec()
    &&& after.age_spec() == before.age_spec() + frames
    &&& after.last_spawn_spec() == (if fire { now_frame } else { before.last_spawn_spec() })
    &&& after.spawned_spec() == before.spawned_spec() + born.len()
    &&& after.grains_spec() == aged_grains(before.grains_spec() + born, frames, before.rule().life * t)
}

/// Particle state and spawn bookkeeping of one parent.
pub struct GrainField {
    rule: GrainRule,
    ticks: u32,
    age: u32,
    last_spawn: Option<u32>,
    seed: Ghost<u32>,
    rng_state: u32,
    spawned: u32,
    grains: Vec<Grain>,
}

impl GrainField {
    /// The spawn rule.
    pub closed spec fn rule(&self) -> GrainRule {
        self.rule
    }

    /// Ticks per frame.
    pub closed spec fn ticks_spec(&self) -> u32 {
        self.ticks
    }

    /// Ticks elapsed.
    pub closed spec fn age_spec(&self) -> u32 {
        self.age
    }

    /// Last frame the spawn loop has processed, `-1` before the first.
    pub closed spec fn last_spawn_spec(&self) -> int {
        match self.last_spawn {
            Some(f) => f as int,
            None => -1,
        }
    }

    /// The generator's seed.
    pub closed spec fn seed_spec(&self) -> u32 {
        self.seed@
    }

    /// Particles fired so far.
    pub closed spec fn spawned_spec(&self) -> nat {
        self.spawned as nat
    }

    /// Live particles, oldest first.
    pub closed spec fn grains_spec(&self) -> Seq<Grain> {
        self.grains@
    }

    /// A frame is at least one tick and a particle's life in ticks fits a
    /// `u32`; the generator has taken three draws per particle; every live
    /// particle fired inside the window, before now, and is younger than its
    /// life but at least as old as the ticks since it fired.
    pub closed spec fn wf(&self) -> bool {
        &&& rule_ok(self.rule)
        &&& self.ticks >= 1
        &&& self.rule.life * self.ticks <= u32::MAX
        &&& self.rng_state == lcg_iter(self.seed@, (3 * self.spawned) as nat)
        &&& self.last_spawn_spec() <= (self.age as int) / (self.ticks as int)
        &&& self.spawned <= self.last_spawn_spec() + 1
        &&& (self.last_spawn_spec() == (self.age as int) / (self.ticks as int) || (self.last_spawn_spec() == -1 && self.age == 0)
            || (self.rule.gated && self.age > self.rule.parent_frames * self.ticks))
        &&& forall|i: int| 0 <= i < self.grains@.len() ==> {
            let g = #[trigger] self.grains@[i];
            &&& g.spawn_frame <= self.rule.parent_frames
            &&& g.spawn_frame as int <= self.last_spawn_spec()
            &&& g.age < self.rule.life * self.ticks
            &&& g.age >= self.age - g.spawn_frame * self.ticks
        }
    }

    /// A parent with rule `rule` and generator seed `seed`, before its first
    /// update, counting `ticks` ticks a frame.
    pub fn new_in_ticks(rule: GrainRule, seed: u32, ticks: u32) -> (g: GrainField)
        requires
            rule_ok(rule),
            ticks >= 1,
            rule.life * ticks <= u32::MAX,
        ensures
            g.wf(),
            g.rule() == rule,
            g.ticks_spec() == ticks,
            g.age_spec() == 0,
            g.last_spawn_spec() == -1,
            g.seed_spec() == seed,
            g.spawned_spec() == 0,
            g.grains_spec().len() == 0,
    {
        GrainField { rule, ticks, age: 0, last_spawn: None, seed: Ghost(seed), rng_state: seed, spawned: 0, grains: Vec::new() }
    }

    /// A parent with rule `rule` and generator seed `seed`, before its first
    /// update, counting whole frames.
    pub fn new(rule: GrainRule, seed: u32) -> (g: GrainField)
        requires
            rule_ok(rule),
        ensures
            g.wf(),
            g.rule() == rule,
            g.ticks_spec() == 1,
            g.age_spec() == 0,
            g.last_spawn_spec() == -1,
            g.seed_spec() == seed,
            g.spawned_spec() == 0,
            g.grains_spec().len() == 0,
    {
        Self::new_in_ticks(rule, seed, 1)
    }

    /// An update of `frames` ticks: fire the particles due in the whole
    /// frames reached, age all, drop the expired. Returns whether the parent
    /// has finished: its window and a particle's life have passed and no
    /// particle is left.
    #[verifier::rlimit(80)]
    #[verifier::spinoff_prover]
    pub fn advance(&mut self, frames: u32) -> (done: bool)
        requires
            old(self).wf(),
            old(self).age_spec() + frames < u32::MAX,
        ensures
            final(self).wf(),
            final(self).rule() == old(self).rule(),
            final(self).ticks_spec() == old(self).ticks_spec(),
            final(self).seed_spec() == old(self).seed_spec(),
            final(self).age_spec() == old(self).age_spec() + frames,
            advanced_by(*old(self), *final(self), frames as int),
            done == (final(self).age_spec() >= (final(self).rule().parent_frames + final(self).rule().life)
                * final(self).ticks_spec() && final(self).grains_spec().len() == 0),
    {
        let ghost s0 = self.seed@;
        let ghost k0 = self.spawned as int;
        let ghost pre = self.grains@;
        let ghost old_last = self.last_spawn_spec();
        let ghost a0 = self.age as int;
        let t = self.ticks;
        self.age = self.age + frames;
        let now = self.age;
        let now_frame = now / t;
        proof {
            vstd::arithmetic::div_mod::lemma_div_is_ordered(a0, now as int, t as int);
            vstd::arithmetic::div_mod::lemma_fundamental_div_mod(a0, t as int);
            vstd::arithmetic::div_mod::lemma_fundamental_div_mod(now as int, t as int);
            assert(now_frame <= now) by (nonlinear_arith)
                requires
                    now_frame == now as int / t as int,
                    t >= 1,
                    now >= 0,
            {
                vstd::arithmetic::div_mod::lemma_div_is_ordered_by_denominator(now as int, 1, t as int);
            }
            assert(self.rule.parent_frames * t <= 0xffff_ffff * 0xffff_ffffu64) by (nonlinear_arith)
                requires
                    self.rule.parent_frames <= 0xffff_ffff,
                    t <= 0xffff_ffff,
            ;
        }
        let fire = !self.rule.gated || (now as u64) <= self.rule.parent_frames as u64 * t as u64;
        if fire {
            let lo: u64 = match self.last_spawn { Some(l) => l as u64 + 1, None => 0 };
            fire_frames(&mut self.grains, &mut self.rng_state, &mut self.spawned, self.rule, Ghost(s0), lo, now_frame);
            self.last_spawn = Some(now_frame);
        }
        let ghost mid = self.grains@;
        assert(mid == pre + (if fire { fresh_grains(self.rule, s0, k0, old_last + 1, now_frame as int) } else { Seq::empty() })) by {
            if !fire {
                assert(mid =~= pre + Seq::<Grain>::empty());
            }
        }
        let n = self.grains.len();
        let life: u64 = self.rule.life as u64 * t as u64;
        let mut kept: Vec<Grain> = Vec::new();
        let mut i: usize = 0;
        while i < n
            invariant
                n == self.grains@.len(),
                self.grains@ == mid,
                i <= n,
                life == self.rule.life * self.ticks,
                life <= u32::MAX,
                kept@ == aged_grains(mid.take(i as int), frames as int, life as int),
                forall|j: int| 0 <= j < kept@.len() ==> (#[trigger] kept@[j]).age < life,
            decreases n - i,
        {
            proof {
                assert(mid.take(i + 1).drop_last() =~= mid.take(i as int));
                assert(mid.take(i + 1).last() == mid[i as int]);
            }
            let g = self.grains[i];
            if (g.age as u64) + (frames as u64) < life {
                kept.push(Grain { age: g.age + frames, ..g });
            }
            i = i + 1;
        }
        proof {
            assert(mid.take(n as int) =~= mid);
        }
        self.grains = kept;
        proof {
            let now = self.age as int;
            let lo = old_last + 1;
            let tt = t as int;
            if fire {
                fresh_grains_props(self.rule, s0, k0, lo, now_frame as int);
            }
            assert forall|j: int| 0 <= j < mid.len() implies {
                let g = #[trigger] mid[j];
                &&& g.spawn_frame <= self.rule.parent_frames
                &&& g.spawn_frame as int <= self.last_spawn_spec()
                &&& g.age + frames >= now - g.spawn_frame * tt
            } by {
                if j < pre.len() {
                    assert(mid[j] == pre[j]);
                    assert(old(self).grains@[j] == pre[j]);
                } else {
                    let born = fresh_grains(self.rule, s0, k0, lo, now_frame as int);
                    assert(mid[j] == born[j - pre.len()]);
                    let f = mid[j].spawn_frame as int;
                    assert(f >= lo);
                    if old_last == -1 && a0 == 0 {
                        assert(f * tt >= 0) by (nonlinear_arith)
                            requires
                                f >= 0,
                                tt >= 1,
                        ;
                    } else {
                        assert(old_last == a0 / tt);
                        assert(f * tt > a0) by (nonlinear_arith)
                            requires
                                f >= a0 / tt + 1,
                                a0 == tt * (a0 / tt) + a0 % tt,
                                a0 % tt < tt,
                                tt >= 1,
                        ;
                    }
                }
            }
            aged_grains_props(mid, frames as int, life as int, now, self.rule.parent_frames as int, self.last_spawn_spec(), tt);
        }
        proof {
            assert((self.rule.parent_frames + self.rule.life) * t <= 0x2_0000_0000 * 0xffff_ffffu128) by (nonlinear_arith)
                requires
                    self.rule.parent_frames <= 0xffff_ffff,
                    self.rule.life <= 0xffff_ffff,
                    t <= 0xffff_ffff,
            ;
        }
        (self.age as u128) >= (self.rule.parent_frames as u128 + self.rule.life as u128) * t as u128 && self.grains.len() == 0
    }

    /// Live particles, oldest first.
    pub fn grains(&self) -> (r: &Vec<Grain>)
        ensures
            r@ == self.grains_spec(),
    {
        &self.grains
    }
}

/// Once the spawn window and a particle's lifetime have both passed, no
/// particle is left, so the parent finishes.
pub proof fn grains_run_out(g: GrainField)
    requires
        g.wf(),
        g.age_spec() >= (g.rule().parent_frames + g.rule().life) * g.ticks_spec(),
    ensures
        g.grains_spec().len() == 0,
{
    if g.grains@.len() > 0 {
        let x = g.grains@[0];
        assert(x.age >= g.age - x.spawn_frame * g.ticks);
        assert(x.spawn_frame * g.ticks <= g.rule.parent_frames * g.ticks) by (nonlinear_arith)
            requires
                x.spawn_frame <= g.rule.parent_frames,
                g.ticks >= 1,
        ;
        assert((g.rule.parent_frames + g.rule.life) * g.ticks == g.rule.parent_frames * g.ticks + g.rule.life * g.ticks)
            by (nonlinear_arith);
    }
}

} // verus!
