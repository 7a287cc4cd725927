//! `EF_SPRAYPOND` — pond spray / water fountain.
//!
//! Composite, parent lifetime 130 frames at 60 fps:
//!
//! * eight water-stream panels around the entity while the parent lives;
//! * every 10 frames a ring of eight short crests that lives 30 frames;
//! * every 20 frames an expanding ground ring that lives 25 frames.
//!
//! The effect ends once the last crest has faded, 30 frames after the
//! parent. This module holds the frame bookkeeping (which crest and ring
//! bursts are alive at a given time) and the exact azimuths, fades and ring
//! radii the panels and rings are drawn with. Time is counted in ticks, a
//! caller-chosen `1/ticks` of a 60 fps frame, so fractional frame counts
//! give the fades and radii the client gives them, as exact fractions.
use vstd::prelude::*;
use crate::bursts::{frames_of, live_burst_seq, live_bursts, live_bursts_bounded, live_seq_membership, train_runs_out};
use crate::draw::EffectStatus;

verus! {

pub const WATER_TEXTURE: &'static str = "pond_water.bmp";
pub const CREST_TEXTURE: &'static str = "alpha_down.tga";
pub const RING_TEXTURE: &'static str = "alpha_center.tga";
pub const TEXTURES: [&'static str; 3] = ["pond_water.bmp", "alpha_down.tga", "alpha_center.tga"];

/// Parent lifetime: streams show and bursts fire through this frame.
pub const PARENT_DURATION_FRAMES: u32 = 130;
/// Water streams (and crests per crest burst) around the entity.
pub const STREAM_COUNT: u32 = 8;
/// A crest burst fires every 10 frames.
pub const CREST_SPAWN_PERIOD_FRAMES: u32 = 10;
/// A crest burst lives 30 frames.
pub const CREST_DURATION_FRAMES: u32 = 30;
/// A ground ring fires every 20 frames.
pub const RING_SPAWN_PERIOD_FRAMES: u32 = 20;
/// A ground ring lives 25 frames.
pub const RING_DURATION_FRAMES: u32 = 25;
/// Wall-clock length: the parent plus a crest's lifetime, 160 frames.
pub const TOTAL_DURATION_MS: u32 = (PARENT_DURATION_FRAMES + CREST_DURATION_FRAMES) * 1000 / 60;

/// Largest tick resolution a fountain accepts: its `u32` tick counter
/// must reach the last burst frame plus one period.
pub const MAX_TICKS_PER_FRAME: u32 = 28_000_000;

/// Frame clock of one fountain: time elapsed in ticks (a caller-chosen
/// `1/ticks` of a 60 fps frame, so fractional frame counts are kept
/// exactly) and the last tick through which bursts have fired.
pub struct SpraypondClock {
    ticks: u32,
    age: u32,
    fired: Option<u32>,
}

/// `fired` as an integer, `-1` before the first burst.
pub open spec fn fired_int(fired: Option<u32>) -> int {
    match fired {
        Some(f) => f as int,
        None => -1,
    }
}

impl SpraypondClock {
    /// Ticks per frame.
    pub closed spec fn ticks_spec(&self) -> u32 {
        self.ticks
    }

    /// Ticks elapsed.
    pub closed spec fn age_spec(&self) -> u32 {
        self.age
    }

    /// Last tick through which bursts have fired.
    pub closed spec fn fired_spec(&self) -> Option<u32> {
        self.fired
    }

    /// Bursts have fired only through the current tick, and only within
    /// the parent's lifetime; a frame is 1 to 28,000,000 ticks.
    pub closed spec fn wf(&self) -> bool {
        &&& 1 <= self.ticks <= MAX_TICKS_PER_FRAME
        &&& match self.fired {
            Some(f) => f <= self.age && f <= PARENT_DURATION_FRAMES * self.ticks,
            None => true,
        }
    }

    /// Spawn ticks of the crest bursts alive now: every 10th frame through
    /// frame 130 that has fired and is less than 30 frames old.
    pub open spec fn crest_spec(&self) -> Seq<int> {
        let t = self.ticks_spec() as int;
        live_burst_seq(0, CREST_SPAWN_PERIOD_FRAMES * t, PARENT_DURATION_FRAMES * t,
            CREST_DURATION_FRAMES * t, fired_int(self.fired_spec()), self.age_spec() as int)
    }

    /// Spawn ticks of the ground rings alive now: every 20th frame through
    /// frame 130 that has fired and is less than 25 frames old.
    pub open spec fn ring_spec(&self) -> Seq<int> {
        let t = self.ticks_spec() as int;
        live_burst_seq(0, RING_SPAWN_PERIOD_FRAMES * t, PARENT_DURATION_FRAMES * t,
            RING_DURATION_FRAMES * t, fired_int(self.fired_spec()), self.age_spec() as int)
    }

    /// A fountain before its first update, counting `ticks` ticks a frame.
    pub fn new_in_ticks(ticks: u32) -> (c: SpraypondClock)
        requires
            1 <= ticks <= MAX_TICKS_PER_FRAME,
        ensures
            c.wf(),
            c.ticks_spec() == ticks,
            c.age_spec() == 0,
            c.fired_spec() is None,
    {
        SpraypondClock { ticks, age: 0, fired: None }
    }

    /// A fountain before its first update, counting whole frames.
    pub fn new() -> (c: SpraypondClock)
        ensures
            c.wf(),
            c.ticks_spec() == 1,
            c.age_spec() == 0,
            c.fired_spec() is None,
    {
        Self::new_in_ticks(1)
    }

    /// Advances the clock by `ticks` ticks: while the parent lives, every
    /// burst frame up to the new time fires; the effect reports `Dead`
    /// once the parent and a crest's lifetime have elapsed.
    pub fn advance(&mut self, ticks: u32) -> (status: EffectStatus)
        requires
            old(self).wf(),
            old(self).age_spec() + ticks <= u32::MAX,
        ensures
            final(self).wf(),
            final(self).ticks_spec() == old(self).ticks_spec(),
            final(self).age_spec() == old(self).age_spec() + ticks,
            final(self).fired_spec() == (if final(self).age_spec() <= PARENT_DURATION_FRAMES * final(self).ticks_spec() {
                Some(final(self).age_spec())
            } else {
                old(self).fired_spec()
            }),
            status == (if final(self).age_spec() >= (PARENT_DURATION_FRAMES + CREST_DURATION_FRAMES) * final(self).ticks_spec() {
                EffectStatus::Dead
            } else {
                EffectStatus::Running
            }),
    {
        let t = self.ticks as u64;
        self.age = self.age + ticks;
        if self.age as u64 <= PARENT_DURATION_FRAMES as u64 * t {
            self.fired = Some(self.age);
        }
        let end: u64 = (PARENT_DURATION_FRAMES + CREST_DURATION_FRAMES) as u64;
        assert(end == 160);
        if self.age as u64 >= end * t {
            EffectStatus::Dead
        } else {
            EffectStatus::Running
        }
    }

    /// Whether the eight water streams are drawn: through frame 130.
    pub fn streams_visible(&self) -> (r: bool)
        requires
            self.wf(),
        ensures
            r == (self.age_spec() <= PARENT_DURATION_FRAMES * self.ticks_spec()),
    {
        self.age as u64 <= PARENT_DURATION_FRAMES as u64 * self.ticks as u64
    }

    /// Spawn ticks of the live crest bursts, oldest first.
    pub fn crests(&self) -> (v: Vec<u32>)
        requires
            self.wf(),
        ensures
            frames_of(v@) == self.crest_spec(),
    {
        let t = self.ticks;
        match self.fired {
            Some(f) => live_bursts(0, CREST_SPAWN_PERIOD_FRAMES * t, PARENT_DURATION_FRAMES * t,
                CREST_DURATION_FRAMES * t, f, self.age),
            None => {
                let v: Vec<u32> = Vec::new();
                assert(frames_of(v@) =~= self.crest_spec());
                v
            },
        }
    }

    /// Spawn ticks of the live ground rings, oldest first.
    pub fn rings(&self) -> (v: Vec<u32>)
        requires
            self.wf(),
        ensures
            frames_of(v@) == self.ring_spec(),
    {
        let t = self.ticks;
        match self.fired {
            Some(f) => live_bursts(0, RING_SPAWN_PERIOD_FRAMES * t, PARENT_DURATION_FRAMES * t,
                RING_DURATION_FRAMES * t, f, self.age),
            None => {
                let v: Vec<u32> = Vec::new();
                assert(frames_of(v@) =~= self.ring_spec());
                v
            },
        }
    }
}

/// At most three crest bursts (24 crests) and two ground rings are alive at
/// any time, and once the effect reports `Dead` nothing is left to draw.
pub proof fn spray_bursts_stay_few(c: SpraypondClock)
    requires
        c.wf(),
    ensures
        c.crest_spec().len() <= 3,
        c.ring_spec().len() <= 2,
        c.age_spec() >= (PARENT_DURATION_FRAMES + CREST_DURATION_FRAMES) * c.ticks_spec() ==> c.crest_spec().len() == 0
            && c.ring_spec().len() == 0,
{
    let f = fired_int(c.fired_spec());
    let a = c.age_spec() as int;
    let t = c.ticks_spec() as int;
    live_bursts_bounded(0, 10 * t, 130 * t, 30 * t, f, a);
    live_bursts_bounded(0, 20 * t, 130 * t, 25 * t, f, a);
    assert((30 * t + 10 * t - 1) / (10 * t) <= 3) by (nonlinear_arith)
        requires t >= 1
    {
        vstd::arithmetic::div_mod::lemma_fundamental_div_mod(40 * t - 1, 10 * t);
    }
    assert((25 * t + 20 * t - 1) / (20 * t) <= 2) by (nonlinear_arith)
        requires t >= 1
    {
        vstd::arithmetic::div_mod::lemma_fundamental_div_mod(45 * t - 1, 20 * t);
    }
    if a >= 160 * t {
        train_runs_out(0, 10 * t, 130 * t, 30 * t, f, a);
        train_runs_out(0, 20 * t, 130 * t, 25 * t, f, a);
    }
}

/// Radius of the stream circle, tenths of a unit (12.2).
pub const STREAM_RADIUS_TENTHS: u32 = 122;
/// Radius of the crest circle, tenths of a unit (13.8).
pub const CREST_RADIUS_TENTHS: u32 = 138;
/// Peak alpha of a stream, of 255.
pub const STREAM_MAX_ALPHA_255: u32 = 120;
/// Peak alpha of a crest or ring, of 255.
pub const BURST_MAX_ALPHA_255: u32 = 100;

/// Azimuth of stream (and crest) `i`, half-degrees: `45·i + 22.5`°.
pub fn stream_azimuth_halves(i: u32) -> (r: u32)
    requires
        i < STREAM_COUNT,
    ensures
        r == 90 * i + 45,
{
    90 * i + 45
}

/// The streams' texture scroll on frame `age`, in 30ths of the texture: it
/// slides down one texture every 30 frames.
pub fn stream_scroll_30ths(age: u32) -> (r: u32)
    ensures
        r == age,
{
    age
}

/// A crest burst's alpha `age` frames after it fired, 30ths of its peak:
/// a linear fade over its 30 frames.
pub fn crest_alpha_30ths(age: u32) -> (r: u32)
    ensures
        r == (if age < CREST_DURATION_FRAMES { CREST_DURATION_FRAMES - age } else { 0 }),
{
    if age < CREST_DURATION_FRAMES { CREST_DURATION_FRAMES - age } else { 0 }
}

/// A ground ring's radius `age` frames after it fired, 200ths of a unit:
/// 13 growing `0.25` a frame and slowing by `0.01` a frame, so
/// `13 + age/4 − age(age+1)/200`.
pub open spec fn ring_radius_200(age: int) -> int {
    2600 + 50 * age - age * (age + 1)
}

/// A ground ring `age` frames after it fired (within its 25 frames): its
/// radius in 200ths and its alpha in 25ths of its peak.
pub fn ring_shape(age: u32) -> (r: (u32, u32))
    requires
        age < RING_DURATION_FRAMES,
    ensures
        r.0 == ring_radius_200(age as int),
        r.1 == RING_DURATION_FRAMES - age,
{
    assert(age * (age + 1) <= 50 * age) by (nonlinear_arith)
        requires
            age < 25,
    ;
    (2600 + 50 * age - age * (age + 1), RING_DURATION_FRAMES - age)
}

/// Over its life a ground ring only widens, never below its 13-unit start.
pub proof fn ground_ring_only_widens(a: int, b: int)
    requires
        0 <= a <= b < RING_DURATION_FRAMES,
    ensures
        2600 <= ring_radius_200(a) <= ring_radius_200(b),
{
    assert(50 * a - a * (a + 1) <= 50 * b - b * (b + 1)) by (nonlinear_arith)
        requires
            0 <= a <= b < 25,
    ;
    assert(a * (a + 1) <= 50 * a) by (nonlinear_arith)
        requires
            0 <= a < 25,
    ;
}

/// One primitive of a fountain's frame, as its integer parameters; `T` is
/// the clock's ticks per frame.
#[derive(Clone, Copy, Debug, PartialEq, Eq, Structural)]
pub enum SprayPrimitive {
    /// A water-stream panel (120/255 tint, alpha blend) at an azimuth, in
    /// half-degrees.
    Water { azimuth_halves: u32 },
    /// A crest (additive) at an azimuth, in half-degrees, with its alpha in
    /// `1/(30·T)` of its 100/255 peak.
    Crest { azimuth_halves: u32, alpha_num: u64 },
    /// A ground ring (additive) with its radius in `1/(200·T²)` of a unit
    /// and its alpha in `1/(25·T)` of its 100/255 peak.
    Ring { radius_num: u64, alpha_num: u64 },
}

/// The eight stream panels, when they are drawn.
pub open spec fn water_draws(visible: bool) -> Seq<SprayPrimitive> {
    if visible {
        Seq::new(STREAM_COUNT as nat, |i: int| SprayPrimitive::Water { azimuth_halves: (90 * i + 45) as u32 })
    } else {
        Seq::empty()
    }
}

/// Eight crests per live crest burst, burst by burst, each at its stream's
/// azimuth with the burst's fade `1 − a/30`, `a` its age in frames.
pub open spec fn crest_draws(now: int, t: int, spawns: Seq<int>) -> Seq<SprayPrimitive> {
    Seq::new((STREAM_COUNT * spawns.len()) as nat, |k: int| SprayPrimitive::Crest {
        azimuth_halves: (90 * (k % 8) + 45) as u32,
        alpha_num: (CREST_DURATION_FRAMES * t - (now - spawns[k / 8])) as u64,
    })
}

/// A ground ring `d` ticks after it fired, at `t` ticks a frame, in
/// `1/(200·t²)` of a unit: `13 + a/4 − a(a+1)/200` with `a = d/t`.
pub open spec fn ring_radius_num(d: int, t: int) -> int {
    2600 * t * t + 50 * d * t - d * (d + t)
}

/// One ground ring per live ring burst, with its radius and fade `1 − a/25`.
pub open spec fn ring_draws(now: int, t: int, spawns: Seq<int>) -> Seq<SprayPrimitive> {
    Seq::new(spawns.len(), |k: int| SprayPrimitive::Ring {
        radius_num: ring_radius_num(now - spawns[k], t) as u64,
        alpha_num: (RING_DURATION_FRAMES * t - (now - spawns[k])) as u64,
    })
}

impl SpraypondClock {
    /// Everything the fountain draws at its current time, in order: the
    /// streams, the crests, the ground rings.
    pub open spec fn draw_list_spec(&self) -> Seq<SprayPrimitive> {
        let t = self.ticks_spec() as int;
        water_draws(self.age_spec() <= PARENT_DURATION_FRAMES * t)
            + crest_draws(self.age_spec() as int, t, self.crest_spec())
            + ring_draws(self.age_spec() as int, t, self.ring_spec())
    }

    /// Appends the current primitives to `out`, leaving the clock as it is.
    pub fn collect_draws(&self, out: &mut Vec<SprayPrimitive>)
        requires
            self.wf(),
        ensures
            final(out)@ == old(out)@ + self.draw_list_spec(),
    {
        let ghost l0 = out@;
        let ghost now = self.age as int;
        let t = self.ticks as u64;
        let vis = self.streams_visible();
        if vis {
            let mut i: u32 = 0;
            while i < STREAM_COUNT
                invariant
                    i <= STREAM_COUNT,
                    out@.len() == l0.len() + i,
                    forall|k: int| 0 <= k < l0.len() ==> #[trigger] out@[k] == l0[k],
                    forall|k: int| 0 <= k < i ==> #[trigger] out@[l0.len() + k] == water_draws(true)[k],
                decreases STREAM_COUNT - i,
            {
                out.push(SprayPrimitive::Water { azimuth_halves: stream_azimuth_halves(i) });
                i = i + 1;
            }
        }
        assert forall|k: int| l0.len() <= k < out@.len() implies out@[k] == water_draws(vis)[k - l0.len()] by {
            assert(out@[l0.len() + (k - l0.len())] == water_draws(true)[k - l0.len()]);
        }
        assert(out@ =~= l0 + water_draws(vis));
        let ghost l1 = out@;
        let crests = self.crests();
        let ghost sp = self.crest_spec();
        let mut j: usize = 0;
        while j < crests.len()
            invariant
                self.wf(),
                now == self.age_spec(),
                t == self.ticks_spec(),
                frames_of(crests@) == sp,
                sp == self.crest_spec(),
                j <= crests@.len(),
                out@.len() == l1.len() + 8 * j,
                forall|k: int| 0 <= k < l1.len() ==> #[trigger] out@[k] == l1[k],
                forall|k: int| 0 <= k < 8 * j ==> #[trigger] out@[l1.len() + k] == crest_draws(now, t as int, sp)[k],
            decreases crests@.len() - j,
        {
            let s = crests[j];
            proof {
                assert(sp[j as int] == s as int);
                assert(sp.contains(sp[j as int]));
                live_seq_membership(0, 10 * t, 130 * t, 30 * t, fired_int(self.fired_spec()), now, sp[j as int]);
            }
            let alpha: u64 = CREST_DURATION_FRAMES as u64 * t - (self.age - s) as u64;
            let mut i: u32 = 0;
            while i < STREAM_COUNT
                invariant
                    i <= STREAM_COUNT,
                    j < crests@.len(),
                    sp.len() == crests@.len(),
                    sp[j as int] == s as int,
                    alpha == CREST_DURATION_FRAMES * t - (now - s),
                    out@.len() == l1.len() + 8 * j + i,
                    forall|k: int| 0 <= k < l1.len() ==> #[trigger] out@[k] == l1[k],
                    forall|k: int| 0 <= k < 8 * j + i ==> #[trigger] out@[l1.len() + k] == crest_draws(now, t as int, sp)[k],
                decreases STREAM_COUNT - i,
            {
                proof {
                    vstd::arithmetic::div_mod::lemma_fundamental_div_mod_converse(8 * j + i, 8, j as int, i as int);
                }
                out.push(SprayPrimitive::Crest { azimuth_halves: stream_azimuth_halves(i), alpha_num: alpha });
                i = i + 1;
            }
            j = j + 1;
        }
        assert forall|k: int| l1.len() <= k < out@.len() implies out@[k] == crest_draws(now, t as int, sp)[k - l1.len()] by {
            assert(out@[l1.len() + (k - l1.len())] == crest_draws(now, t as int, sp)[k - l1.len()]);
        }
        assert(out@ =~= l1 + crest_draws(now, t as int, sp));
        let ghost l2 = out@;
        let rings = self.rings();
        let ghost rp = self.ring_spec();
        let mut j: usize = 0;
        while j < rings.len()
            invariant
                self.wf(),
                now == self.age_spec(),
                t == self.ticks_spec(),
                frames_of(rings@) == rp,
                rp == self.ring_spec(),
                j <= rings@.len(),
                out@.len() == l2.len() + j,
                forall|k: int| 0 <= k < l2.len() ==> #[trigger] out@[k] == l2[k],
                forall|k: int| 0 <= k < j ==> #[trigger] out@[l2.len() + k] == ring_draws(now, t as int, rp)[k],
            decreases rings@.len() - j,
        {
            let s = rings[j];
            proof {
                assert(rp[j as int] == s as int);
                assert(rp.contains(rp[j as int]));
                live_seq_membership(0, 20 * t, 130 * t, 25 * t, fired_int(self.fired_spec()), now, rp[j as int]);
            }
            let d: u64 = (self.age - s) as u64;
            proof {
                assert(d * (d + t) <= 50 * d * t) by (nonlinear_arith) requires d < 25 * t, t >= 1;
                assert(2600 * t * t + 50 * d * t <= 2600 * 28_000_000 * 28_000_000u64 + 50 * 700_000_000 * 28_000_000u64)
                    by (nonlinear_arith) requires t <= 28_000_000, d < 25 * t;
            }
            let radius: u64 = 2600 * t * t + 50 * d * t - d * (d + t);
            let alpha: u64 = RING_DURATION_FRAMES as u64 * t - d;
            out.push(SprayPrimitive::Ring { radius_num: radius, alpha_num: alpha });
            j = j + 1;
        }
        assert forall|k: int| l2.len() <= k < out@.len() implies out@[k] == ring_draws(now, t as int, rp)[k - l2.len()] by {
            assert(out@[l2.len() + (k - l2.len())] == ring_draws(now, t as int, rp)[k - l2.len()]);
        }
        assert(out@ =~= l2 + ring_draws(now, t as int, rp));
    }
}

/// Every crest burst drawn is under 30 frames old and every ground ring
/// under 25 (so each is lit, with a fade of `1/(30·T)` up to full), and a
/// frame draws eight streams while the parent lives, eight crests per live
/// crest burst and one disc per live ring.
pub proof fn drawn_bursts_are_lit(c: SpraypondClock)
    requires
        c.wf(),
    ensures
        forall|k: int| 0 <= k < c.crest_spec().len()
            ==> 0 <= c.age_spec() - #[trigger] c.crest_spec()[k] < CREST_DURATION_FRAMES * c.ticks_spec(),
        forall|k: int| 0 <= k < c.ring_spec().len()
            ==> 0 <= c.age_spec() - #[trigger] c.ring_spec()[k] < RING_DURATION_FRAMES * c.ticks_spec(),
        c.draw_list_spec().len() == (if c.age_spec() <= PARENT_DURATION_FRAMES * c.ticks_spec() { 8int } else { 0int })
            + 8 * c.crest_spec().len() + c.ring_spec().len(),
{
    let f = fired_int(c.fired_spec());
    let a = c.age_spec() as int;
    let t = c.ticks_spec() as int;
    assert forall|k: int| 0 <= k < c.crest_spec().len() implies 0 <= a - #[trigger] c.crest_spec()[k] < 30 * t by {
        assert(c.crest_spec().contains(c.crest_spec()[k]));
        live_seq_membership(0, 10 * t, 130 * t, 30 * t, f, a, c.crest_spec()[k]);
    }
    assert forall|k: int| 0 <= k < c.ring_spec().len() implies 0 <= a - #[trigger] c.ring_spec()[k] < 25 * t by {
        assert(c.ring_spec().contains(c.ring_spec()[k]));
        live_seq_membership(0, 20 * t, 130 * t, 25 * t, f, a, c.ring_spec()[k]);
    }
}

} // verus!
