//! `EF_PIERCE` — Knight Pierce: a yellow ring punches through the target once
//! per hit, with a spray of particles on every hit after the first.
//!
//! A skill of level `L` (clamped to `1..=10`) lands `L` hits, one every 20
//! frames from frame 0. Each hit fires a ring that lives 15 frames and grows
//! with the hit index; every hit but the first also sprays four particles
//! forward and four backward. The effect ends 45 frames after the last hit.
//!
//! A ring stays fully opaque for the first half of its life and then fades
//! linearly to nothing; it slides forward along the heading `0.7·(t −
//! t(t+1)/60)` units at local frame `t`.
//!
//! This module holds the hit schedule and the rings drawn, with time counted
//! in ticks, a caller-chosen `1/ticks` of a frame (whole frames being the
//! case of one tick a frame); the particle motion and the ring orientation
//! are the renderer's.
use vstd::prelude::*;
use crate::bursts::{frames_of, live_burst_seq, live_bursts, live_bursts_bounded, live_seq_membership};
use crate::draw::EffectStatus;

verus! {

pub const RING_TEXTURE: &'static str = "ring_yellow.tga";
pub const TEXTURES: [&'static str; 1] = ["ring_yellow.tga"];

/// Frames between two hits.
pub const BURST_INTERVAL_FRAMES: u32 = 20;
/// Frames a ring lives.
pub const CYLINDER_LIFETIME_FRAMES: u32 = 15;
/// Longest particle life in frames.
pub const PARTICLE_MAX_LIFE_FRAMES: u32 = 30;
/// Particles sprayed per direction on a hit after the first.
pub const PARTICLES_PER_DIR: u32 = 4;
/// Highest skill level.
pub const MAX_LEVEL: u8 = 10;
/// Level used when none is given.
pub const DEFAULT_LEVEL: u8 = 1;
/// Ring outer radius of the first hit (world units).
pub const CYLINDER_INITIAL_OUTER: u32 = 11;
/// Ring inner radius of the first hit (world units).
pub const CYLINDER_INITIAL_INNER: u32 = 6;
/// Radius a ring gains per hit index.
pub const CYLINDER_GROWTH_PER_BURST: u32 = 2;
/// Wall-clock length at the highest level: last hit at frame 180 plus 45.
pub const TOTAL_DURATION_MS: u32 = 3750;

/// Frame on which the effect ends at level `level`.
pub open spec fn end_frame(level: int) -> int {
    (level - 1) * BURST_INTERVAL_FRAMES + CYLINDER_LIFETIME_FRAMES + PARTICLE_MAX_LIFE_FRAMES
}

/// `level` clamped to `1..=10`.
pub open spec fn clamp_level(level: u8) -> u8 {
    if level < 1 { 1 } else if level > MAX_LEVEL { MAX_LEVEL } else { level }
}

/// Largest tick resolution a Pierce accepts: its `u32` tick counter must
/// reach its last hit plus one interval.
pub const MAX_TICKS_PER_FRAME: u32 = 20_000_000;

/// Hit clock of one Pierce: the clamped level and the time elapsed in
/// ticks (a caller-chosen `1/ticks` of a 60 fps frame, so fractional frame
/// counts are kept exactly).
pub struct PierceClock {
    level: u8,
    ticks: u32,
    age: u32,
}

impl PierceClock {
    /// The clamped skill level.
    pub closed spec fn level_spec(&self) -> u8 {
        self.level
    }

    /// Ticks per frame.
    pub closed spec fn ticks_spec(&self) -> u32 {
        self.ticks
    }

    /// Ticks elapsed.
    pub closed spec fn age_spec(&self) -> u32 {
        self.age
    }

    /// The level is within `1..=10` and a frame is 1 to 20,000,000 ticks.
    pub closed spec fn wf(&self) -> bool {
        &&& 1 <= self.level <= MAX_LEVEL
        &&& 1 <= self.ticks <= MAX_TICKS_PER_FRAME
    }

    /// Spawn ticks of the rings alive now.
    pub open spec fn ring_spec(&self) -> Seq<int> {
        let t = self.ticks_spec() as int;
        live_burst_seq(0, BURST_INTERVAL_FRAMES * t,
            (self.level_spec() - 1) * BURST_INTERVAL_FRAMES * t,
            CYLINDER_LIFETIME_FRAMES * t, self.age_spec() as int, self.age_spec() as int)
    }

    /// Hits landed so far: one every 20 frames from frame 0, at most `level`.
    pub open spec fn hits_spec(&self) -> int {
        let due = self.age_spec() as int / (BURST_INTERVAL_FRAMES * self.ticks_spec()) + 1;
        if due < self.level_spec() { due } else { self.level_spec() as int }
    }

    /// A level-1 Pierce at frame 0, counting whole frames.
    pub fn new() -> (c: PierceClock)
        ensures
            c.wf(),
            c.level_spec() == DEFAULT_LEVEL,
            c.ticks_spec() == 1,
            c.age_spec() == 0,
    {
        Self::new_with_level(DEFAULT_LEVEL)
    }

    /// A Pierce of skill level `level` (clamped to `1..=10`) at frame 0,
    /// counting whole frames.
    pub fn new_with_level(level: u8) -> (c: PierceClock)
        ensures
            c.wf(),
            c.level_spec() == clamp_level(level),
            c.ticks_spec() == 1,
            c.age_spec() == 0,
    {
        Self::new_in_ticks(level, 1)
    }

    /// A Pierce of skill level `level` (clamped to `1..=10`) at frame 0,
    /// counting `ticks` ticks a frame.
    pub fn new_in_ticks(level: u8, ticks: u32) -> (c: PierceClock)
        requires
            1 <= ticks <= MAX_TICKS_PER_FRAME,
        ensures
            c.wf(),
            c.level_spec() == clamp_level(level),
            c.ticks_spec() == ticks,
            c.age_spec() == 0,
    {
        let level = if level < 1 { 1 } else if level > MAX_LEVEL { MAX_LEVEL } else { level };
        PierceClock { level, ticks, age: 0 }
    }

    /// Advances by `ticks` ticks; reports `Dead` 45 frames after the last
    /// hit.
    pub fn advance(&mut self, ticks: u32) -> (status: EffectStatus)
        requires
            old(self).wf(),
            old(self).age_spec() + ticks <= u32::MAX,
        ensures
            final(self).wf(),
            final(self).level_spec() == old(self).level_spec(),
            final(self).ticks_spec() == old(self).ticks_spec(),
            final(self).age_spec() == old(self).age_spec() + ticks,
            status == (if final(self).age_spec() >= end_frame(final(self).level_spec() as int) * final(self).ticks_spec() {
                EffectStatus::Dead
            } else {
                EffectStatus::Running
            }),
    {
        proof {
            assert(1 <= self.level <= 10 && 1 <= self.ticks <= 20_000_000);
        }
        self.age = self.age + ticks;
        let end: u64 = (self.level as u64 - 1) * BURST_INTERVAL_FRAMES as u64 + CYLINDER_LIFETIME_FRAMES as u64
            + PARTICLE_MAX_LIFE_FRAMES as u64;
        let tw = self.ticks as u64;
        proof {
            assert(end * tw <= 225 * 20_000_000u64) by (nonlinear_arith) requires end <= 225, tw <= 20_000_000;
        }
        if self.age as u64 >= end * tw {
            EffectStatus::Dead
        } else {
            EffectStatus::Running
        }
    }

    /// Hits landed so far.
    pub fn hits(&self) -> (r: u32)
        requires
            self.wf(),
        ensures
            r == self.hits_spec(),
    {
        proof {
            assert(1 <= self.level <= 10 && 1 <= self.ticks <= 20_000_000);
        }
        let d = BURST_INTERVAL_FRAMES * self.ticks;
        proof {
            assert(self.age / d < 0xFFFF_FFFF) by (nonlinear_arith) requires d >= 20, self.age <= 0xFFFF_FFFF;
        }
        let due = self.age / d + 1;
        if due < self.level as u32 { due } else { self.level as u32 }
    }

    /// Spawn ticks of the live rings, oldest first.
    pub fn rings(&self) -> (v: Vec<u32>)
        requires
            self.wf(),
        ensures
            frames_of(v@) == self.ring_spec(),
    {
        let t = self.ticks;
        proof {
            assert((self.level - 1) * 20 * t + 20 * t <= 200 * 20_000_000) by (nonlinear_arith)
                requires 1 <= self.level <= 10, t <= 20_000_000;
        }
        live_bursts(0, BURST_INTERVAL_FRAMES * t, (self.level as u32 - 1) * BURST_INTERVAL_FRAMES * t,
            CYLINDER_LIFETIME_FRAMES * t, self.age, self.age)
    }
}

/// Outer and inner radius of hit `burst_idx`'s ring: 11 and 6 world units,
/// growing by 2 per hit.
pub fn cylinder_radii(burst_idx: u8) -> (r: (u32, u32))
    ensures
        r.0 == CYLINDER_INITIAL_OUTER + CYLINDER_GROWTH_PER_BURST * burst_idx,
        r.1 == CYLINDER_INITIAL_INNER + CYLINDER_GROWTH_PER_BURST * burst_idx,
{
    let grow = CYLINDER_GROWTH_PER_BURST * burst_idx as u32;
    (CYLINDER_INITIAL_OUTER + grow, CYLINDER_INITIAL_INNER + grow)
}

/// Particles sprayed by hit `burst_idx`: none on the first hit, four forward
/// and four backward on every later one.
pub fn particles_for_burst(burst_idx: u8) -> (r: u32)
    ensures
        r == (if burst_idx == 0 { 0 } else { 2 * PARTICLES_PER_DIR }),
{
    if burst_idx == 0 { 0 } else { 2 * PARTICLES_PER_DIR }
}

/// Rings never overlap (each fades before the next hit), and every level
/// ends within [`TOTAL_DURATION_MS`].
pub proof fn pierce_rings_one_at_a_time(c: PierceClock)
    requires
        c.wf(),
    ensures
        c.ring_spec().len() <= 1,
        end_frame(c.level_spec() as int) * 1000 / 60 <= TOTAL_DURATION_MS,
{
    let a = c.age_spec() as int;
    let t = c.ticks_spec() as int;
    live_bursts_bounded(0, 20 * t, (c.level_spec() - 1) * 20 * t, 15 * t, a, a);
    assert((15 * t + 20 * t - 1) / (20 * t) <= 1) by (nonlinear_arith)
        requires t >= 1
    {
        vstd::arithmetic::div_mod::lemma_fundamental_div_mod(35 * t - 1, 20 * t);
    }
}

/// A ring's alpha `l` ticks into its life, at `t` ticks a frame, in
/// `1/(15·t)` of full: full before its half-life (7.5 frames), then
/// `(15 − l/t) / 7.5`.
pub open spec fn ring_fade(l: int, t: int) -> int {
    if 2 * l < CYLINDER_LIFETIME_FRAMES * t { 15 * t } else if l < CYLINDER_LIFETIME_FRAMES * t { 2 * (15 * t - l) } else { 0 }
}

/// How far a ring has slid `l` ticks into its life, in `1/(60·t²)` of 0.7
/// units: `60·a − a(a+1)` with `a = l/t`.
pub open spec fn ring_travel(l: int, t: int) -> int {
    60 * l * t - l * (l + t)
}

/// One drawn ring: its hit index, outer and inner radius (world units), its
/// alpha in `1/(15·T)` and its slide in `1/(60·T²)` of 0.7 units, `T` the
/// clock's ticks per frame.
#[derive(Clone, Copy, Debug, PartialEq, Eq, Structural)]
pub struct PierceRing {
    pub burst_idx: u32,
    pub outer: u32,
    pub inner: u32,
    pub alpha_num: u64,
    pub travel_num: u64,
}

/// The ring fired at tick `s`, drawn at tick `age`, at `t` ticks a frame.
pub open spec fn pierce_ring(age: int, t: int, s: int) -> PierceRing {
    PierceRing {
        burst_idx: (s / (20 * t)) as u32,
        outer: (CYLINDER_INITIAL_OUTER + CYLINDER_GROWTH_PER_BURST * (s / (20 * t))) as u32,
        inner: (CYLINDER_INITIAL_INNER + CYLINDER_GROWTH_PER_BURST * (s / (20 * t))) as u32,
        alpha_num: ring_fade(age - s, t) as u64,
        travel_num: ring_travel(age - s, t) as u64,
    }
}

impl PierceClock {
    /// The rings drawn now, oldest first.
    pub open spec fn ring_draws_spec(&self) -> Seq<PierceRing> {
        Seq::new(self.ring_spec().len(), |k: int| pierce_ring(self.age_spec() as int, self.ticks_spec() as int, self.ring_spec()[k]))
    }

    /// The rings drawn now, each with its radii, fade and slide.
    pub fn ring_draws(&self) -> (v: Vec<PierceRing>)
        requires
            self.wf(),
        ensures
            v@ == self.ring_draws_spec(),
    {
        let spawns = self.rings();
        let ghost sp = self.ring_spec();
        let t = self.ticks;
        let ghost last = (self.level - 1) * BURST_INTERVAL_FRAMES * t;
        let mut v: Vec<PierceRing> = Vec::new();
        let mut k: usize = 0;
        while k < spawns.len()
            invariant
                self.wf(),
                t == self.ticks_spec(),
                frames_of(spawns@) == sp,
                sp == self.ring_spec(),
                last == (self.level_spec() - 1) * BURST_INTERVAL_FRAMES * t,
                k <= spawns@.len(),
                v@.len() == k,
                forall|i: int| 0 <= i < k ==> #[trigger] v@[i] == pierce_ring(self.age_spec() as int, t as int, sp[i]),
            decreases spawns@.len() - k,
        {
            let s = spawns[k];
            proof {
                assert(sp[k as int] == s as int);
                assert(sp.contains(sp[k as int]));
                live_seq_membership(0, 20 * t, last, 15 * t, self.age as int, self.age as int, sp[k as int]);
                let d: int = 20 * t as int;
                assert(last <= d * 9) by (nonlinear_arith)
                    requires last == (self.level - 1) * 20 * t, 1 <= self.level <= 10, d == 20 * t;
                vstd::arithmetic::div_mod::lemma_div_is_ordered(s as int, d * 9, d);
                vstd::arithmetic::div_mod::lemma_div_multiples_vanish(9, d);
                assert(s as int / d <= 9);
            }
            let l = (self.age - s) as u64;
            let tw = t as u64;
            let idx = s / (BURST_INTERVAL_FRAMES * t);
            let (outer, inner) = cylinder_radii(idx as u8);
            let alpha: u64 = if 2 * l < CYLINDER_LIFETIME_FRAMES as u64 * tw { 15 * tw } else { 2 * (15 * tw - l) };
            proof {
                assert(l * (l + tw) <= 60 * l * tw) by (nonlinear_arith) requires l < 15 * tw, tw >= 1;
                assert(60 * l * tw <= 60 * 300_000_000 * 20_000_000u64) by (nonlinear_arith)
                    requires l < 15 * tw, tw <= 20_000_000;
            }
            let travel: u64 = 60 * l * tw - l * (l + tw);
            v.push(PierceRing { burst_idx: idx, outer, inner, alpha_num: alpha, travel_num: travel });
            k = k + 1;
        }
        assert(v@ =~= self.ring_draws_spec());
        v
    }
}

/// A ring is lit through its whole life and only dims, at any tick
/// resolution: its alpha starts full, never rises, and is still positive on
/// its last tick; its slide only grows.
pub proof fn ring_only_dims(a: int, b: int, t: int)
    requires
        t >= 1,
        0 <= a <= b < CYLINDER_LIFETIME_FRAMES * t,
    ensures
        ring_fade(0, t) == 15 * t,
        0 < ring_fade(b, t) <= ring_fade(a, t) <= 15 * t,
        0 <= ring_travel(a, t) <= ring_travel(b, t),
{
    assert(a * (a + t) <= 60 * a * t) by (nonlinear_arith) requires 0 <= a < 15 * t, t >= 1;
    assert(60 * a * t - a * (a + t) <= 60 * b * t - b * (b + t)) by (nonlinear_arith) requires 0 <= a <= b < 15 * t, t >= 1;
}

} // verus!
