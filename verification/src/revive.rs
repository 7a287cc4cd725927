//! `EF_REVIVE` — yellow rings expanding around a revived player.
//!
//! The parent fires one ring every 25 frames while its counter is below 150
//! (frames 0, 25, …, 125). The first is the "hero" ring that keeps its size
//! for its whole 60-frame life; the later ones shrink inward as they age.
//! The effect ends 60 frames after the parent, at frame 210.
//!
//! This module holds the ring bookkeeping and each ring's exact size, turn
//! and fade. Time is counted in ticks, a caller-chosen `1/ticks` of a 60 fps
//! frame, so fractional frame counts are kept exactly.
use vstd::prelude::*;
use crate::bursts::{frames_of, live_burst_seq, live_bursts, live_bursts_bounded, train_runs_out};
use crate::draw::EffectStatus;

verus! {

pub const TEXTURE: &'static str = "ring_yellow.tga";
pub const TEXTURES: [&'static str; 1] = ["ring_yellow.tga"];

/// Frames between two rings.
pub const SPAWN_INTERVAL_FRAMES: u32 = 25;
/// Frames a ring lives.
pub const RING_LIFETIME_FRAMES: u32 = 60;
/// Rings fire while the parent's counter is below this.
pub const PARENT_FRAMES: u32 = 150;
/// Last frame a ring fires on.
pub const LAST_SPAWN_FRAME: u32 = 125;
/// Largest tick resolution a revive accepts: a ring's turn, kept in
/// `1/(200·ticks²)` of a degree, must fit a `u64`.
pub const MAX_TICKS_PER_FRAME: u32 = 20_000_000;
/// Wall-clock length: parent plus one ring lifetime, 210 frames.
pub const TOTAL_DURATION_MS: u32 = (PARENT_FRAMES + RING_LIFETIME_FRAMES) * 1000 / 60;

/// Ring clock of one revive: time elapsed in ticks.
pub struct ReviveClock {
    ticks: u32,
    age: u32,
}

impl ReviveClock {
    /// Ticks per frame.
    pub closed spec fn ticks_spec(&self) -> u32 {
        self.ticks
    }

    /// Ticks elapsed.
    pub closed spec fn age_spec(&self) -> u32 {
        self.age
    }

    /// A frame is 1 to 20,000,000 ticks.
    pub closed spec fn wf(&self) -> bool {
        1 <= self.ticks <= MAX_TICKS_PER_FRAME
    }

    /// Spawn ticks of the rings alive now: every 25th frame below 150, up
    /// to the current time, that is less than 60 frames old.
    pub open spec fn ring_spec(&self) -> Seq<int> {
        let t = self.ticks_spec() as int;
        live_burst_seq(0, SPAWN_INTERVAL_FRAMES * t, LAST_SPAWN_FRAME * t,
            RING_LIFETIME_FRAMES * t, self.age_spec() as int, self.age_spec() as int)
    }

    /// A revive at frame 0, its hero ring already lit, counting `ticks`
    /// ticks a frame.
    pub fn new_in_ticks(ticks: u32) -> (c: ReviveClock)
        requires
            1 <= ticks <= MAX_TICKS_PER_FRAME,
        ensures
            c.wf(),
            c.ticks_spec() == ticks,
            c.age_spec() == 0,
    {
        ReviveClock { ticks, age: 0 }
    }

    /// A revive at frame 0, counting whole frames.
    pub fn new() -> (c: ReviveClock)
        ensures
            c.wf(),
            c.ticks_spec() == 1,
            c.age_spec() == 0,
    {
        Self::new_in_ticks(1)
    }

    /// Advances by `ticks` ticks; reports `Dead` from frame 210.
    pub fn advance(&mut self, ticks: u32) -> (status: EffectStatus)
        requires
            old(self).wf(),
            old(self).age_spec() + ticks <= u32::MAX,
        ensures
            final(self).wf(),
            final(self).ticks_spec() == old(self).ticks_spec(),
            final(self).age_spec() == old(self).age_spec() + ticks,
            status == (if final(self).age_spec() >= (PARENT_FRAMES + RING_LIFETIME_FRAMES) * final(self).ticks_spec() {
                EffectStatus::Dead
            } else {
                EffectStatus::Running
            }),
    {
        self.age = self.age + ticks;
        let end: u64 = (PARENT_FRAMES + RING_LIFETIME_FRAMES) as u64;
        assert(end == 210);
        if self.age as u64 >= end * self.ticks as u64 {
            EffectStatus::Dead
        } else {
            EffectStatus::Running
        }
    }

    /// Ticks elapsed.
    pub fn age(&self) -> (r: u32)
        ensures
            r == self.age_spec(),
    {
        self.age
    }

    /// Spawn ticks of the live rings, oldest first.
    pub fn rings(&self) -> (v: Vec<u32>)
        requires
            self.wf(),
        ensures
            frames_of(v@) == self.ring_spec(),
    {
        let t = self.ticks;
        live_bursts(0, SPAWN_INTERVAL_FRAMES * t, LAST_SPAWN_FRAME * t, RING_LIFETIME_FRAMES * t, self.age, self.age)
    }
}

/// Whether the ring fired on `spawn_frame` is the full-size hero ring (the
/// one fired at frame 0) rather than a shrinking follow-up.
pub fn is_hero_ring(spawn_frame: u32) -> (r: bool)
    ensures
        r == (spawn_frame == 0),
{
    spawn_frame == 0
}

/// At most three rings are alive at once, and none is left once the effect
/// reports `Dead`.
pub proof fn revive_rings_stay_few(c: ReviveClock)
    requires
        c.wf(),
    ensures
        c.ring_spec().len() <= 3,
        c.age_spec() >= (PARENT_FRAMES + RING_LIFETIME_FRAMES) * c.ticks_spec() ==> c.ring_spec().len() == 0,
{
    let a = c.age_spec() as int;
    let t = c.ticks_spec() as int;
    live_bursts_bounded(0, 25 * t, 125 * t, 60 * t, a, a);
    assert((60 * t + 25 * t - 1) / (25 * t) <= 3) by (nonlinear_arith)
        requires t >= 1
    {
        vstd::arithmetic::div_mod::lemma_fundamental_div_mod(85 * t - 1, 25 * t);
    }
    if a >= 210 * t {
        train_runs_out(0, 25 * t, 125 * t, 60 * t, a, a);
    }
}

/// Height of every ring, halves of a unit (7.5).
pub const RING_HEIGHT_HALVES: u32 = 15;
/// Segments of every ring.
pub const SIDES: u32 = 24;
/// Peak alpha of a ring, of 255.
pub const ALPHA_MAX_255: u32 = 240;
/// The hero ring's outer radius, 2000ths of a unit (11).
pub const HERO_OUTER_2000: u32 = 22000;
/// The hero ring's inner radius, 2000ths of a unit (7.5).
pub const HERO_INNER_2000: u32 = 15000;
/// A follow-up ring's starting outer radius, 2000ths of a unit (10.5).
pub const FOLLOWUP_OUTER_2000: u32 = 21000;
/// A follow-up ring's starting inner radius, 2000ths of a unit (7.5).
pub const FOLLOWUP_INNER_2000: u32 = 15000;

/// How far a follow-up ring has shrunk `l` ticks after it fired, at `t`
/// ticks a frame, in `1/(2000·t²)` of a unit: it moves in `0.12` a frame,
/// slowing by `0.003` a frame, so `0.12·a − 0.0015·a(a+1)` with `a = l/t`.
pub open spec fn followup_shrink_2000(l: int, t: int) -> int {
    240 * l * t - 3 * l * (l + t)
}

/// A ring's turn `l` ticks after it fired, in `1/(200·t²)` of a degree: the
/// hero ring turns `1.5°` a frame; a follow-up starts at `1.5°` and speeds
/// up by `0.03°` a frame.
pub open spec fn ring_turn_200(hero: bool, l: int, t: int) -> int {
    if hero { 300 * l * t } else { 300 * l * t + 3 * l * (l + t) }
}

/// What the renderer gets of one ring; `den` is the clock's ticks per frame.
#[derive(Clone, Copy, Debug, PartialEq, Eq, Structural)]
pub struct RingDraw {
    /// Ticks per frame.
    pub den: u64,
    /// Top (outer) radius, `1/(2000·den²)` of a unit.
    pub outer_2000: u64,
    /// Bottom (inner) radius, `1/(2000·den²)` of a unit.
    pub inner_2000: u64,
    /// Turn about its axis, `1/(200·den²)` of a degree.
    pub turn_200: u64,
    /// Alpha numerator, of [`Self::alpha_den`] times [`ALPHA_MAX_255`].
    pub alpha: u64,
    /// Alpha denominator: the ring's fade length (6 frames for the hero, 30
    /// for a follow-up) in ticks.
    pub alpha_den: u64,
}

/// The ring that is the hero (`hero`) or a follow-up, `local` ticks into
/// its 60-frame life at `ticks` ticks a frame: the hero holds its size and
/// fades over its last 6 frames; a follow-up shrinks and fades over its
/// second half.
pub fn ring_draw_in_ticks(hero: bool, local: u32, ticks: u32) -> (r: RingDraw)
    requires
        1 <= ticks <= MAX_TICKS_PER_FRAME,
        local < RING_LIFETIME_FRAMES * ticks,
    ensures
        ({
            let t = ticks as int;
            let l = local as int;
            let fade_at: int = if hero { 54 * t } else { 30 * t };
            &&& r.den == ticks
            &&& r.outer_2000 == (if hero { HERO_OUTER_2000 * t * t } else { FOLLOWUP_OUTER_2000 * t * t - followup_shrink_2000(l, t) })
            &&& r.inner_2000 == (if hero { HERO_INNER_2000 * t * t } else { FOLLOWUP_INNER_2000 * t * t - followup_shrink_2000(l, t) })
            &&& r.turn_200 == ring_turn_200(hero, l, t)
            &&& r.alpha_den == RING_LIFETIME_FRAMES * t - fade_at
            &&& r.alpha == (if l < fade_at { r.alpha_den as int } else { RING_LIFETIME_FRAMES * t - l })
        }),
{
    let t = ticks as u64;
    let l = local as u64;
    proof {
        assert(t * t <= 400_000_000_000_000) by (nonlinear_arith) requires 1 <= t <= 20_000_000;
        assert(3 * l * (l + t) <= 183 * (l * t)) by (nonlinear_arith) requires l < 60 * t, t >= 1;
        assert(3 * l * (l + t) >= 0) by (nonlinear_arith);
        assert(l * t <= 60 * (t * t)) by (nonlinear_arith) requires l < 60 * t, t >= 1;
        assert(240 * l * t == 240 * (l * t)) by (nonlinear_arith);
        assert(300 * l * t == 300 * (l * t)) by (nonlinear_arith);
        assert(22000 * t * t == 22000 * (t * t)) by (nonlinear_arith);
        assert(21000 * t * t == 21000 * (t * t)) by (nonlinear_arith);
        assert(15000 * t * t == 15000 * (t * t)) by (nonlinear_arith);
    }
    let tt = t * t;
    assert(tt <= 400_000_000_000_000);
    assert(22000 * tt <= 8_800_000_000_000_000_000);
    assert(15000 * tt <= 6_000_000_000_000_000_000);
    assert(21000 * tt <= 8_400_000_000_000_000_000);
    if hero {
        let den: u64 = 6 * t;
        RingDraw {
            den: t,
            outer_2000: HERO_OUTER_2000 as u64 * tt,
            inner_2000: HERO_INNER_2000 as u64 * tt,
            turn_200: 300 * l * t,
            alpha: if l < 54 * t { den } else { 60 * t - l },
            alpha_den: den,
        }
    } else {
        let shrink = 240 * l * t - 3 * l * (l + t);
        let den: u64 = 30 * t;
        RingDraw {
            den: t,
            outer_2000: FOLLOWUP_OUTER_2000 as u64 * tt - shrink,
            inner_2000: FOLLOWUP_INNER_2000 as u64 * tt - shrink,
            turn_200: 300 * l * t + 3 * l * (l + t),
            alpha: if l < 30 * t { den } else { 60 * t - l },
            alpha_den: den,
        }
    }
}

/// The ring fired on `spawn_frame`, `local` whole frames into its life.
pub fn ring_draw(spawn_frame: u32, local: u32) -> (r: RingDraw)
    requires
        local < RING_LIFETIME_FRAMES,
    ensures
        ({
            let hero = spawn_frame == 0;
            let f = local as int;
            let fade_at: int = if hero { 54 } else { 30 };
            &&& r.den == 1
            &&& r.outer_2000 == (if hero { HERO_OUTER_2000 as int } else { FOLLOWUP_OUTER_2000 - followup_shrink_2000(f, 1) })
            &&& r.inner_2000 == (if hero { HERO_INNER_2000 as int } else { FOLLOWUP_INNER_2000 - followup_shrink_2000(f, 1) })
            &&& r.turn_200 == ring_turn_200(hero, f, 1)
            &&& r.alpha_den == RING_LIFETIME_FRAMES - fade_at
            &&& r.alpha == (if f < fade_at { r.alpha_den as int } else { RING_LIFETIME_FRAMES - f })
        }),
{
    ring_draw_in_ticks(spawn_frame == 0, local, 1)
}

/// Every follow-up ring stays a proper band (its outer radius 3 units past
/// its inner one) and, once it has fired, is smaller than it started for
/// the rest of its life.
pub proof fn followups_contract(l: int, t: int)
    requires
        t >= 1,
        0 <= l < RING_LIFETIME_FRAMES * t,
    ensures
        followup_shrink_2000(l, t) >= 0,
        l > 0 ==> followup_shrink_2000(l, t) > 0,
        FOLLOWUP_INNER_2000 * t * t - followup_shrink_2000(l, t) > 0,
{
    assert(3 * l * (l + t) <= 183 * l * t) by (nonlinear_arith)
        requires
            0 <= l < 60 * t,
            t >= 1,
    ;
    assert(3 * l * (l + t) >= 0) by (nonlinear_arith)
        requires
            0 <= l,
            t >= 1,
    ;
    assert(l > 0 ==> 3 * l * (l + t) < 240 * l * t) by (nonlinear_arith)
        requires
            0 <= l < 60 * t,
            t >= 1,
    ;
    assert(240 * l * t - 3 * l * (l + t) < 15000 * t * t) by (nonlinear_arith)
        requires
            0 <= l < 60 * t,
            t >= 1,
    ;
}

} // verus!
