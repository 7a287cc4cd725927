//! EF_STORMGUST — Wizard Storm Gust.
//!
//! Besides the `stormgust.str` cloud, the parent spawns **PP_3DQUADHORN** ice
//! shards in pairs every 29 frames from frame 58 while its counter is at most
//! 150 — 4 spawn events × 2 shards = **8 falling ice spikes**. Each spike
//! lives `215 − spawn_frame` frames (at least 10), so every spike fades out
//! at frame 215 and the visible burst lasts 215 frames ≈ 3.58 s.
//!
//! This module holds that timetable at the native 60 fps frame rate; a
//! spike's own clock may count ticks, a caller-chosen `1/ticks` of a frame,
//! so fractional frame counts are kept exactly.
use vstd::prelude::*;

verus! {

pub const ICE_TEXTURE: &'static str = "ice.tga";
pub const STR_OVERLAY: &'static str = "stormgust";

/// Native engine framerate.
pub const FRAMES_PER_SECOND: u32 = 60;
/// Parent emitter lifetime; spawns stop after this frame.
pub const SPAWN_END_FRAME: u32 = 150;
/// First spawn frame (29 * 2, since `m_stateCnt % 29 == 0 && > 30`).
pub const SPAWN_START_FRAME: u32 = 58;
/// Frames between two spawn events.
pub const SPAWN_INTERVAL_FRAMES: u32 = 29;
/// Spikes per spawn event (`for (a = 0; a < 2; a++)`).
pub const SPIKES_PER_SPAWN: u32 = 2;
/// Parent frame at which the last surviving spike fades out.
pub const FINAL_FRAME: u32 = 215;
/// Frames over which a spike fades before it dies (also its minimum life).
pub const SPIKE_FADE_FRAMES: u32 = 10;
/// Spawn events over the burst's lifetime.
pub const SPAWN_EVENTS: u32 = 4;

/// Total wall-clock duration of the visible burst, ms.
pub const TOTAL_DURATION_MS: u32 = FINAL_FRAME * 1000 / FRAMES_PER_SECOND;

/// Frame of the `k`-th spawn event.
pub open spec fn spawn_frame_of(k: int) -> int {
    SPAWN_START_FRAME + k * SPAWN_INTERVAL_FRAMES
}

/// Lifetime in frames of a spike spawned at `spawn_frame`:
/// `max(215 − spawn_frame, 10)`.
pub open spec fn spike_duration_spec(spawn_frame: int) -> int {
    if FINAL_FRAME - spawn_frame > SPIKE_FADE_FRAMES {
        FINAL_FRAME - spawn_frame
    } else {
        SPIKE_FADE_FRAMES as int
    }
}

/// Number of spawn events that have fired once the parent's counter reads
/// `frame`.
pub open spec fn events_due(frame: int) -> int {
    if frame < SPAWN_START_FRAME {
        0
    } else {
        let upto = if frame < SPAWN_END_FRAME { frame } else { SPAWN_END_FRAME as int };
        (upto - SPAWN_START_FRAME) / (SPAWN_INTERVAL_FRAMES as int) + 1
    }
}

/// Lifetime in frames of a spike spawned at `spawn_frame`.
pub fn spike_duration_frames(spawn_frame: u32) -> (r: u32)
    ensures
        r == spike_duration_spec(spawn_frame as int),
{
    if spawn_frame < FINAL_FRAME && FINAL_FRAME - spawn_frame > SPIKE_FADE_FRAMES {
        FINAL_FRAME - spawn_frame
    } else {
        SPIKE_FADE_FRAMES
    }
}

/// The parent's spawn clock: the frame of the next spawn event and how many
/// events have fired.
pub struct SpikeSpawner {
    next_spawn_frame: u32,
    events: u32,
}

impl SpikeSpawner {
    /// Frame of the next spawn event.
    pub closed spec fn next_frame(&self) -> u32 {
        self.next_spawn_frame
    }

    /// Spawn events fired so far.
    pub closed spec fn fired(&self) -> u32 {
        self.events
    }

    /// The clock sits on the `fired`-th slot of the 29-frame timetable and
    /// never passes the fifth slot.
    pub closed spec fn wf(&self) -> bool {
        &&& self.events <= SPAWN_EVENTS
        &&& self.next_spawn_frame == spawn_frame_of(self.events as int)
    }

    /// A clock whose first event is due at frame 58.
    pub fn new() -> (s: SpikeSpawner)
        ensures
            s.wf(),
            s.fired() == 0,
            s.next_frame() == SPAWN_START_FRAME,
    {
        SpikeSpawner { next_spawn_frame: SPAWN_START_FRAME, events: 0 }
    }

    /// Fires every spawn event due by parent frame `frame` (catch-up when a
    /// tick covers several intervals) and returns each event's spawn frame in
    /// order; each event then spawns [`SPIKES_PER_SPAWN`] spikes.
    pub fn spawn_due(&mut self, frame: u32) -> (spawned: Vec<u32>)
        requires
            old(self).wf(),
        ensures
            final(self).wf(),
            final(self).fired() >= old(self).fired(),
            final(self).fired() == (if events_due(frame as int) > old(self).fired() {
                events_due(frame as int)
            } else {
                old(self).fired() as int
            }),
            spawned@.len() == final(self).fired() - old(self).fired(),
            forall|j: int| 0 <= j < spawned@.len() ==>
                #[trigger] spawned@[j] == spawn_frame_of(old(self).fired() + j),
    {
        let mut spawned: Vec<u32> = Vec::new();
        let ghost start = self.events;
        while self.next_spawn_frame <= frame && self.next_spawn_frame <= SPAWN_END_FRAME
            invariant
                self.events <= SPAWN_EVENTS,
                self.next_spawn_frame == spawn_frame_of(self.events as int),
                start <= self.events,
                self.events > start ==> self.events <= events_due(frame as int),
                spawned@.len() == self.events - start,
                forall|j: int| 0 <= j < spawned@.len() ==> #[trigger] spawned@[j] == spawn_frame_of(start + j),
            decreases SPAWN_EVENTS - self.events,
        {
            spawned.push(self.next_spawn_frame);
            self.next_spawn_frame = self.next_spawn_frame + SPAWN_INTERVAL_FRAMES;
            self.events = self.events + 1;
        }
        spawned
    }
}

/// The burst spawns exactly four events — eight spikes — over its lifetime,
/// and all of them have fired by frame 145.
pub proof fn eight_spikes_per_burst(frame: u32)
    ensures
        events_due(frame as int) <= SPAWN_EVENTS,
        frame >= spawn_frame_of(3) ==> events_due(frame as int) == SPAWN_EVENTS,
        SPAWN_EVENTS * SPIKES_PER_SPAWN == 8,
{
}

/// Every scheduled spike fades out at frame 215: its spawn frame plus its
/// lifetime is always the burst's final frame.
pub proof fn every_spike_ends_at_final_frame(k: int)
    requires
        0 <= k < SPAWN_EVENTS,
    ensures
        spawn_frame_of(k) + spike_duration_spec(spawn_frame_of(k)) == FINAL_FRAME,
{
}

/// Frames a spike rises along its apex direction before it freezes.
pub const SPEED_LIMIT_FRAMES: u32 = 3;
/// Peak alpha of a spike, of 255.
pub const PEAK_ALPHA_255: u32 = 250;

/// Frames of travel a step of `dt_frames` gives a spike aged `age_frames`:
/// spikes rise only through their first 3 frames.
pub fn spike_rise(age_frames: u32, dt_frames: u32) -> (r: u32)
    ensures
        r == crate::spike_util::rise_frames(age_frames as int, dt_frames as int, SPEED_LIMIT_FRAMES as int),
{
    crate::spike_util::rise_step(age_frames, dt_frames, SPEED_LIMIT_FRAMES)
}

/// The fade of the spike spawned on `spawn_frame`, `age` frames into its
/// life, as `(level, den)` of its peak: full until its last 10 frames,
/// then linear to nothing at frame 215.
pub fn spike_fade(spawn_frame: u32, age: u32) -> (r: (u32, u32))
    ensures
        r.0 == crate::spike_util::fade_level(age as int, spike_duration_spec(spawn_frame as int), SPIKE_FADE_FRAMES as int),
        r.1 == crate::spike_util::fade_den(spike_duration_spec(spawn_frame as int), SPIKE_FADE_FRAMES as int),
{
    crate::spike_util::fade_tail_alpha(age, spike_duration_frames(spawn_frame), SPIKE_FADE_FRAMES)
}

/// Largest tick resolution a spike accepts: its life in ticks must fit a
/// `u32`.
pub const MAX_TICKS_PER_FRAME: u32 = 10_000_000;

/// State of one spike: when it was spawned, the ticks of its clock per
/// frame, its age in ticks, and how many ticks of travel along its apex
/// direction it has had (its base has moved by its velocity times this).
#[derive(Clone, Copy, Debug)]
pub struct IceSpike {
    /// Parent frame the spike was spawned on.
    pub spawn_frame: u32,
    /// Ticks per frame.
    pub ticks: u32,
    /// Ticks since it was spawned.
    pub age: u32,
    /// Ticks of travel so far.
    pub travelled: u32,
}

impl IceSpike {
    /// A frame is 1 to 10,000,000 ticks, and a spike's travel is the part of
    /// its life inside the speed-limit window.
    pub open spec fn wf(&self) -> bool {
        &&& 1 <= self.ticks <= MAX_TICKS_PER_FRAME
        &&& self.travelled == crate::spike_util::rise_frames(0, self.age as int, SPEED_LIMIT_FRAMES * self.ticks)
    }

    /// A spike just spawned on parent frame `spawn_frame`, counting `ticks`
    /// ticks a frame.
    pub fn new_in_ticks(spawn_frame: u32, ticks: u32) -> (s: IceSpike)
        requires
            1 <= ticks <= MAX_TICKS_PER_FRAME,
        ensures
            s.wf(),
            s.spawn_frame == spawn_frame,
            s.ticks == ticks,
            s.age == 0,
            s.travelled == 0,
    {
        IceSpike { spawn_frame, ticks, age: 0, travelled: 0 }
    }

    /// A spike just spawned on parent frame `spawn_frame`, counting whole
    /// frames.
    pub fn new(spawn_frame: u32) -> (s: IceSpike)
        ensures
            s.wf(),
            s.spawn_frame == spawn_frame,
            s.ticks == 1,
            s.age == 0,
            s.travelled == 0,
    {
        Self::new_in_ticks(spawn_frame, 1)
    }

    /// Ages the spike `dt` ticks; it travels only the part of the step
    /// inside its first three frames and is frozen after.
    pub fn step(&mut self, dt: u32)
        requires
            old(self).wf(),
            old(self).age + dt <= u32::MAX,
        ensures
            final(self).wf(),
            final(self).spawn_frame == old(self).spawn_frame,
            final(self).ticks == old(self).ticks,
            final(self).age == old(self).age + dt,
            final(self).travelled == old(self).travelled
                + crate::spike_util::rise_frames(old(self).age as int, dt as int, SPEED_LIMIT_FRAMES * old(self).ticks),
    {
        proof {
            crate::spike_util::rise_is_step_independent(0, self.age as int, dt as int, SPEED_LIMIT_FRAMES * self.ticks);
        }
        let r = crate::spike_util::rise_step(self.age, dt, SPEED_LIMIT_FRAMES * self.ticks);
        self.age = self.age + dt;
        self.travelled = self.travelled + r;
    }

    /// Whether the spike is still within its life.
    pub fn alive(&self) -> (r: bool)
        requires
            self.wf(),
        ensures
            r == (self.age < spike_duration_spec(self.spawn_frame as int) * self.ticks),
    {
        let d = spike_duration_frames(self.spawn_frame);
        proof {
            assert(d * self.ticks <= 215 * 10_000_000) by (nonlinear_arith)
                requires d <= 215, self.ticks <= 10_000_000;
        }
        self.age < d * self.ticks
    }

    /// Its fade, as `(level, den)` of its peak: full until its last 10
    /// frames, then linear to nothing at the end of its life (both in
    /// ticks).
    pub fn fade(&self) -> (r: (u32, u32))
        requires
            self.wf(),
        ensures
            r.0 == crate::spike_util::fade_level(self.age as int, spike_duration_spec(self.spawn_frame as int) * self.ticks,
                SPIKE_FADE_FRAMES * self.ticks),
            r.1 == crate::spike_util::fade_den(spike_duration_spec(self.spawn_frame as int) * self.ticks,
                SPIKE_FADE_FRAMES * self.ticks),
    {
        let d = spike_duration_frames(self.spawn_frame);
        proof {
            assert(d * self.ticks <= 215 * 10_000_000) by (nonlinear_arith)
                requires d <= 215, self.ticks <= 10_000_000;
        }
        crate::spike_util::fade_tail_alpha(self.age, d * self.ticks, SPIKE_FADE_FRAMES * self.ticks)
    }
}

/// A spike of the event fired on frame `spawn_frame`, inserted at tick
/// `now` of a clock of `t` ticks a frame: aged by the gap (catch-up when one
/// update covers several events) and already moved as far as that gap
/// allows inside its speed-limit window.
pub open spec fn caught_up_spike(spawn_frame: int, now: int, t: int) -> IceSpike {
    let age = if now > spawn_frame * t { now - spawn_frame * t } else { 0 };
    IceSpike {
        spawn_frame: spawn_frame as u32,
        ticks: t as u32,
        age: age as u32,
        travelled: crate::spike_util::rise_frames(0, age, SPEED_LIMIT_FRAMES * t) as u32,
    }
}

/// Appends the two spikes of the event fired on frame `spawn_frame` to
/// `spikes` at tick `now` of a clock of `ticks` ticks a frame, each aged by
/// the catch-up gap; their lifetimes count from `spawn_frame`.
pub fn spawn_pair_in_ticks(spikes: &mut Vec<IceSpike>, spawn_frame: u32, now: u32, ticks: u32)
    requires
        1 <= ticks <= MAX_TICKS_PER_FRAME,
    ensures
        final(spikes)@ == old(spikes)@ + seq![caught_up_spike(spawn_frame as int, now as int, ticks as int),
            caught_up_spike(spawn_frame as int, now as int, ticks as int)],
        caught_up_spike(spawn_frame as int, now as int, ticks as int).wf(),
{
    proof {
        assert(spawn_frame * ticks <= 0xffff_ffff * 10_000_000u64) by (nonlinear_arith)
            requires spawn_frame <= 0xffff_ffff, ticks <= 10_000_000;
    }
    let start: u64 = spawn_frame as u64 * ticks as u64;
    let age: u32 = if now as u64 > start { (now as u64 - start) as u32 } else { 0 };
    let travelled = crate::spike_util::rise_step(0, age, SPEED_LIMIT_FRAMES * ticks);
    let spike = IceSpike { spawn_frame, ticks, age, travelled };
    let mut k: u32 = 0;
    let ghost l0 = spikes@;
    while k < SPIKES_PER_SPAWN
        invariant
            k <= SPIKES_PER_SPAWN,
            spike == caught_up_spike(spawn_frame as int, now as int, ticks as int),
            spikes@ =~= l0 + Seq::new(k as nat, |i: int| spike),
        decreases SPIKES_PER_SPAWN - k,
    {
        spikes.push(spike);
        k = k + 1;
        assert(spikes@ =~= l0 + Seq::new(k as nat, |i: int| spike));
    }
    assert(Seq::new(2, |i: int| spike) =~= seq![spike, spike]);
}

/// Appends the two spikes of the event fired on frame `spawn_frame` to
/// `spikes` on frame `now`, each aged by the catch-up gap; their lifetimes
/// count from `spawn_frame`.
pub fn spawn_pair(spikes: &mut Vec<IceSpike>, spawn_frame: u32, now: u32)
    ensures
        final(spikes)@ == old(spikes)@ + seq![caught_up_spike(spawn_frame as int, now as int, 1),
            caught_up_spike(spawn_frame as int, now as int, 1)],
        caught_up_spike(spawn_frame as int, now as int, 1).wf(),
{
    spawn_pair_in_ticks(spikes, spawn_frame, now, 1)
}

/// A spike moves only inside its speed-limit window, at any tick
/// resolution `t`: a step taken at or past frame 3 leaves it where it was,
/// a step ending inside the window moves it the whole step, and one
/// crossing the window's end moves it up to that end.
pub proof fn spike_freezes_after_its_window(g: int, dt: int, t: int)
    requires
        g >= 0,
        dt >= 0,
        t >= 1,
    ensures
        g >= SPEED_LIMIT_FRAMES * t ==> crate::spike_util::rise_frames(g, dt, SPEED_LIMIT_FRAMES * t) == 0,
        g + dt <= SPEED_LIMIT_FRAMES * t ==> crate::spike_util::rise_frames(g, dt, SPEED_LIMIT_FRAMES * t) == dt,
        g < SPEED_LIMIT_FRAMES * t < g + dt ==> crate::spike_util::rise_frames(g, dt, SPEED_LIMIT_FRAMES * t)
            == SPEED_LIMIT_FRAMES * t - g,
{
}

/// Generator draws each spike takes: its ring radius, its heading and its
/// base width, each the top 24 bits of the state.
pub const DRAWS_PER_SPIKE: u32 = 3;

/// The draws of the `j`-th spike spawned (its placement index on the
/// golden-angle spiral is `j` too) by a generator starting at `state`:
/// draws `3j + 1`, `3j + 2`, `3j + 3`, each a fraction of `2^24` of the
/// radius range 12–38, of a full turn, and of the width range 1–1.5.
pub open spec fn spike_draws_spec(state: u32, j: int) -> (u32, u32, u32) {
    (
        crate::rng::lcg_iter(state, (3 * j + 1) as nat) >> 8,
        crate::rng::lcg_iter(state, (3 * j + 2) as nat) >> 8,
        crate::rng::lcg_iter(state, (3 * j + 3) as nat) >> 8,
    )
}

/// The draws of the `j`-th spike of a burst whose generator starts at
/// `state`.
pub fn spike_draws(state: u32, j: u32) -> (r: (u32, u32, u32))
    requires
        j < SPAWN_EVENTS * SPIKES_PER_SPAWN,
    ensures
        r == spike_draws_spec(state, j as int),
{
    let mut st = state;
    let mut t: u32 = 0;
    while t < 3 * j
        invariant
            t <= 3 * j,
            j < 8,
            st == crate::rng::lcg_iter(state, t as nat),
        decreases 3 * j - t,
    {
        crate::rng::lcg_next(&mut st);
        t = t + 1;
    }
    let a = crate::rng::lcg_next(&mut st) >> 8;
    let b = crate::rng::lcg_next(&mut st) >> 8;
    let c = crate::rng::lcg_next(&mut st) >> 8;
    (a, b, c)
}

} // verus!
