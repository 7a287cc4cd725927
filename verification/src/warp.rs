//! `EF_WARP` — the warp portal's yellow ground rings.
//!
//! The parent lives 80 frames and fires a ground ring every 20 frames while
//! it lives — frames 0, 20, 40 and 60, four rings; each ring expands for 80
//! frames and fades over its second half, so the last is still fading at
//! frame 139. The effect ends when the parent has expired and no ring is
//! left, 140 frames after it started.
//!
//! This module holds the ring bookkeeping (which rings are alive, and when
//! the effect ends) and each ring's exact radius, band width and fade. Time
//! is counted in ticks, a caller-chosen `1/ticks` of a 60 fps frame, so
//! fractional frame counts are kept exactly.
use vstd::prelude::*;
use crate::bursts::{frames_of, live_burst_seq, live_bursts, live_bursts_bounded};
use crate::draw::EffectStatus;

verus! {

pub const WARP_TEXTURE: &'static str = "ring_yellow.tga";
pub const TEXTURES: [&'static str; 1] = ["ring_yellow.tga"];

/// Parent lifetime; rings fire only before this frame.
pub const PARENT_DURATION_FRAMES: u32 = 80;
/// The frame the last ring fires on.
pub const LAST_SPAWN_FRAME: u32 = 60;
/// Frames a ring lives.
pub const RING_DURATION_FRAMES: u32 = 80;
/// Frames between two rings.
pub const SPAWN_INTERVAL_FRAMES: u32 = 20;
/// The budget the effect table gives the portal: parent plus one ring
/// lifetime, 160 frames (the rings are gone by frame 140).
pub const TOTAL_DURATION_MS: u32 = (PARENT_DURATION_FRAMES + RING_DURATION_FRAMES) * 1000 / 60;

/// Largest tick resolution a portal accepts: a ring's radius, kept in
/// `1/(256·ticks²)` of a unit, must fit a `u64`.
pub const MAX_TICKS_PER_FRAME: u32 = 20_000_000;

/// Ring clock of one portal: time elapsed in ticks (a caller-chosen
/// `1/ticks` of a 60 fps frame, so fractional frame counts are kept
/// exactly), and whether it has been updated yet (the first ring fires on
/// the first update).
pub struct WarpClock {
    ticks: u32,
    age: u32,
    started: bool,
}

impl WarpClock {
    /// Ticks per frame.
    pub closed spec fn ticks_spec(&self) -> u32 {
        self.ticks
    }

    /// Ticks elapsed.
    pub closed spec fn age_spec(&self) -> u32 {
        self.age
    }

    /// Whether the clock has been updated at least once.
    pub closed spec fn started_spec(&self) -> bool {
        self.started
    }

    /// A frame is 1 to 20,000,000 ticks.
    pub closed spec fn wf(&self) -> bool {
        1 <= self.ticks <= MAX_TICKS_PER_FRAME
    }

    /// Spawn ticks of the rings alive now: every 20th frame through frame
    /// 60, up to the current time, that is less than 80 frames old.
    pub open spec fn ring_spec(&self) -> Seq<int> {
        let t = self.ticks_spec() as int;
        if self.started_spec() {
            live_burst_seq(0, SPAWN_INTERVAL_FRAMES * t, LAST_SPAWN_FRAME * t,
                RING_DURATION_FRAMES * t, self.age_spec() as int, self.age_spec() as int)
        } else {
            Seq::empty()
        }
    }

    /// A portal before its first update, counting `ticks` ticks a frame.
    pub fn new_in_ticks(ticks: u32) -> (c: WarpClock)
        requires
            1 <= ticks <= MAX_TICKS_PER_FRAME,
        ensures
            c.wf(),
            c.ticks_spec() == ticks,
            c.age_spec() == 0,
            !c.started_spec(),
    {
        WarpClock { ticks, age: 0, started: false }
    }

    /// A portal before its first update, counting whole frames.
    pub fn new() -> (c: WarpClock)
        ensures
            c.wf(),
            c.ticks_spec() == 1,
            c.age_spec() == 0,
            !c.started_spec(),
    {
        Self::new_in_ticks(1)
    }

    /// Advances by `ticks` ticks (rings due meanwhile fire, already aged);
    /// reports `Dead` once the parent has expired and no ring is left.
    pub fn update(&mut self, ticks: u32) -> (status: EffectStatus)
        requires
            old(self).wf(),
            old(self).age_spec() + ticks <= u32::MAX,
        ensures
            final(self).wf(),
            final(self).ticks_spec() == old(self).ticks_spec(),
            final(self).age_spec() == old(self).age_spec() + ticks,
            final(self).started_spec(),
            status == (if final(self).age_spec() >= PARENT_DURATION_FRAMES * final(self).ticks_spec()
                && final(self).ring_spec().len() == 0 {
                EffectStatus::Dead
            } else {
                EffectStatus::Running
            }),
    {
        self.age = self.age + ticks;
        self.started = true;
        let rings = self.rings();
        if self.age as u64 >= PARENT_DURATION_FRAMES as u64 * self.ticks as u64 && rings.len() == 0 {
            EffectStatus::Dead
        } else {
            EffectStatus::Running
        }
    }

    /// Spawn ticks of the live rings, oldest first.
    pub fn rings(&self) -> (v: Vec<u32>)
        requires
            self.wf(),
        ensures
            frames_of(v@) == self.ring_spec(),
    {
        if self.started {
            let t = self.ticks;
            live_bursts(0, SPAWN_INTERVAL_FRAMES * t, LAST_SPAWN_FRAME * t, RING_DURATION_FRAMES * t,
                self.age, self.age)
        } else {
            let v: Vec<u32> = Vec::new();
            assert(frames_of(v@) =~= self.ring_spec());
            v
        }
    }
}

/// Rings fire only on frames 0, 20, 40 and 60 — never at or after the
/// parent's frame 80 — so at most four are alive at once, and the portal
/// ends exactly when 140 frames have elapsed: the last ring (frame 60)
/// fades until then. This holds at any tick resolution.
pub proof fn warp_ends_at_frame_140(c: WarpClock, g: int)
    requires
        c.wf(),
        c.started_spec(),
    ensures
        c.ring_spec().len() <= 4,
        c.ring_spec().contains(g) ==> g % (20 * c.ticks_spec()) == 0 && 0 <= g <= 60 * c.ticks_spec(),
        (c.age_spec() >= PARENT_DURATION_FRAMES * c.ticks_spec() && c.ring_spec().len() == 0)
            <==> c.age_spec() >= (LAST_SPAWN_FRAME + RING_DURATION_FRAMES) * c.ticks_spec(),
{
    let a = c.age_spec() as int;
    let t = c.ticks_spec() as int;
    live_bursts_bounded(0, 20 * t, 60 * t, 80 * t, a, a);
    assert((80 * t + 20 * t - 1) / (20 * t) <= 4) by (nonlinear_arith)
        requires t >= 1
    {
        vstd::arithmetic::div_mod::lemma_fundamental_div_mod(100 * t - 1, 20 * t);
    }
    crate::bursts::live_seq_membership(0, 20 * t, 60 * t, 80 * t, a, a, g);
    if a >= 140 * t {
        if c.ring_spec().len() > 0 {
            crate::bursts::live_seq_membership(0, 20 * t, 60 * t, 80 * t, a, a, c.ring_spec()[0]);
            assert(c.ring_spec().contains(c.ring_spec()[0]));
        }
    } else if a >= 80 * t {
        // The ring fired on frame 60 is still alive.
        crate::bursts::live_seq_membership(0, 20 * t, 60 * t, 80 * t, a, a, 60 * t);
        assert((60 * t - 0) % (20 * t) == 0) by (nonlinear_arith) requires t >= 1
        {
            vstd::arithmetic::div_mod::lemma_fundamental_div_mod_converse(60 * t, 20 * t, 3, 0);
        }
        assert(c.ring_spec().contains(60 * t));
    }
}

/// Each ring is a full disc, its texture tiled 4× around it.
pub const ARC_ANGLE_DEG: u32 = 360;
/// Texture repeats around a ring.
pub const UV_REPEAT: u32 = 4;
/// A ring's band width cap (its `innerSize`, 10 units), in 256ths.
pub const RING_THICKNESS_256: u32 = 2560;
/// A ring's peak alpha, of 255.
pub const PEAK_ALPHA_255: u32 = 200;

/// A ring's outer radius `n` ticks after it fired, at `t` ticks a frame,
/// in `1/(256·t²)` of a unit: it starts at 2 and grows `1.25` a frame,
/// slowing by `1/128` a frame, so `2 + 1.25·a − a(a+1)/256` with `a = n/t`.
pub open spec fn ring_radius_256(n: int, t: int) -> int {
    512 * t * t + 320 * n * t - n * (n + t)
}

/// A ring's alpha `n` ticks after it fired, in `1/(40·t)` of the peak:
/// held through its frame 40, then falling to zero at frame 80.
pub open spec fn ring_alpha_40(n: int, t: int) -> int {
    if n <= 40 * t { 40 * t } else if n >= RING_DURATION_FRAMES * t { 0 } else { RING_DURATION_FRAMES * t - n }
}

/// What the renderer gets of one ring, in units over `den` (the clock's
/// ticks per frame).
#[derive(Clone, Copy, Debug, PartialEq, Eq, Structural)]
pub struct RingDraw {
    /// Ticks per frame.
    pub den: u64,
    /// Outer radius, `1/(256·den²)` of a unit.
    pub radius_256: u64,
    /// Band width: the radius while under 10 units (a filled disc), else 10.
    pub thickness_256: u64,
    /// Alpha, `1/(40·den)` of [`PEAK_ALPHA_255`].
    pub alpha_40: u64,
}

/// The ring that fired `age` ticks ago, at `ticks` ticks a frame (its
/// growth stops at frame 80).
pub fn ring_draw_in_ticks(age: u32, ticks: u32) -> (r: RingDraw)
    requires
        1 <= ticks <= MAX_TICKS_PER_FRAME,
    ensures
        ({
            let t = ticks as int;
            let n = if age < RING_DURATION_FRAMES * t { age as int } else { RING_DURATION_FRAMES * t };
            &&& r.den == ticks
            &&& r.radius_256 == ring_radius_256(n, t)
            &&& r.thickness_256 == (if ring_radius_256(n, t) < RING_THICKNESS_256 * t * t {
                ring_radius_256(n, t)
            } else {
                RING_THICKNESS_256 * t * t
            })
            &&& r.alpha_40 == ring_alpha_40(n, t)
        }),
{
    let t = ticks as u64;
    let end: u64 = RING_DURATION_FRAMES as u64 * t;
    let n: u64 = if (age as u64) < end { age as u64 } else { end };
    proof {
        assert(n * (n + t) <= 320 * n * t) by (nonlinear_arith)
            requires
                n <= 80 * t,
                t >= 1,
        ;
        assert(512 * t * t + 320 * n * t <= 512 * 20_000_000 * 20_000_000u64 + 320 * 1_600_000_000 * 20_000_000u64)
            by (nonlinear_arith)
            requires
                n <= 80 * t,
                t <= 20_000_000,
        ;
        assert(RING_THICKNESS_256 as u64 * t * t <= 2560 * 20_000_000 * 20_000_000u64) by (nonlinear_arith)
            requires t <= 20_000_000;
        assert(512 * t * t <= 512 * 20_000_000 * 20_000_000u64) by (nonlinear_arith)
            requires t <= 20_000_000;
        assert(320 * n * t <= 320 * 1_600_000_000 * 20_000_000u64) by (nonlinear_arith)
            requires n <= 80 * t, t <= 20_000_000;
    }
    let radius: u64 = 512 * t * t + 320 * n * t - n * (n + t);
    let cap: u64 = RING_THICKNESS_256 as u64 * t * t;
    let thickness = if radius < cap { radius } else { cap };
    let alpha: u64 = if n <= 40 * t { 40 * t } else if n >= end { 0 } else { end - n };
    RingDraw { den: t, radius_256: radius, thickness_256: thickness, alpha_40: alpha }
}

/// The ring that fired `age` whole frames ago.
pub fn ring_draw(age: u32) -> (r: RingDraw)
    ensures
        ({
            let n = if age < RING_DURATION_FRAMES { age as int } else { RING_DURATION_FRAMES as int };
            &&& r.den == 1
            &&& r.radius_256 == ring_radius_256(n, 1)
            &&& r.thickness_256 == (if ring_radius_256(n, 1) < RING_THICKNESS_256 { ring_radius_256(n, 1) } else { RING_THICKNESS_256 as int })
            &&& r.alpha_40 == ring_alpha_40(n, 1)
        }),
{
    ring_draw_in_ticks(age, 1)
}

/// Over its life a ring only widens and only dims, at any tick resolution:
/// for ticks `a ≤ b` of it, its radius at `b` is no smaller and its alpha
/// no larger.
pub proof fn ring_widens_and_dims(a: int, b: int, t: int)
    requires
        t >= 1,
        0 <= a <= b <= RING_DURATION_FRAMES * t,
    ensures
        ring_radius_256(a, t) <= ring_radius_256(b, t),
        ring_alpha_40(b, t) <= ring_alpha_40(a, t),
        ring_radius_256(a, t) > 0,
{
    assert(320 * a * t - a * (a + t) <= 320 * b * t - b * (b + t)) by (nonlinear_arith)
        requires
            0 <= a <= b <= 80 * t,
            t >= 1,
    ;
    assert(a * (a + t) <= 320 * a * t) by (nonlinear_arith)
        requires
            0 <= a <= 80 * t,
            t >= 1,
    ;
    assert(512 * t * t > 0) by (nonlinear_arith) requires t >= 1;
}

} // verus!
