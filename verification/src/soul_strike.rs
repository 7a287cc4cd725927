//! Soul Strike — up to five ghost bolts launched from the caster, one every
//! 11 frames, each rolled onto its own plane so the volley fans out.
//!
//! This module holds the frame-level decisions of the effect: the per-hit
//! roll fan, the bolt launch timetable, the bolts in flight (each retired
//! after 40 frames), when the volley ends, the trail's per-segment fade and
//! size, and the short-range fallback sprite. Bolt paths are the renderer's.
use vstd::prelude::*;
use crate::draw::EffectStatus;

verus! {

/// Native engine framerate.
pub const FPS: u32 = 60;
/// Frames a single bolt flies before it is retired.
pub const BOLT_DURATION_FRAMES: u32 = 40;
/// Frames the whole volley is budgeted for.
pub const EFFECT_DURATION_FRAMES: u32 = 100;
/// Wall-clock budget of the volley in ms (`100 / 60 * 1000`, truncated).
pub const TOTAL_DURATION_MS: u32 = EFFECT_DURATION_FRAMES * 1000 / FPS;

/// Frames between two bolt launches.
pub const SPAWN_DIST: u32 = 11;
/// The first launch happens `SPAWN_DIST - SPAWN_DELAY` frames in.
pub const SPAWN_DELAY: u32 = 5;
/// Most bolts a single cast launches.
pub const MAX_HITS: u8 = 5;

/// `(start, step)` of the roll fan for a hit count, in degrees.
pub open spec fn angle_config_spec(hit_count: u8) -> (int, int) {
    if hit_count == 1 {
        (0, 1)
    } else if hit_count == 2 {
        (-90, 180)
    } else if hit_count == 3 {
        (-90, 90)
    } else if hit_count == 4 {
        (-90, 60)
    } else {
        (-90, 45)
    }
}

/// Roll of bolt `bolt_index` in a volley of `hit_count` bolts, degrees.
pub open spec fn roll_angle_spec(hit_count: u8, bolt_index: u8) -> int {
    angle_config_spec(hit_count).0 + (bolt_index + 1) * angle_config_spec(hit_count).1
}

/// Frame at which bolt `bolt_index` launches: `(i + 1) * 11 - 5`.
pub open spec fn bolt_spawn_frame_spec(bolt_index: int) -> int {
    (bolt_index + 1) * SPAWN_DIST - SPAWN_DELAY
}

/// How many of `hit_count` bolts have launched once the volley's frame
/// counter reads `frame`.
pub open spec fn launched_by(hit_count: int, frame: int) -> int {
    if frame < SPAWN_DIST - SPAWN_DELAY {
        0
    } else {
        let n = (frame - (SPAWN_DIST - SPAWN_DELAY)) / (SPAWN_DIST as int) + 1;
        if n < hit_count { n } else { hit_count }
    }
}

/// The hit count a cast is clamped to: `1..=5`.
pub open spec fn clamp_hits(hit_count: u8) -> u8 {
    if hit_count < 1 { 1 } else if hit_count > MAX_HITS { MAX_HITS } else { hit_count }
}

/// Roll fan `(start, step)` per hit count: one bolt rolls 1°, otherwise the
/// fan starts at −90° and spreads 180° / 90° / 60° / 45° per bolt.
pub fn angle_config(hit_count: u8) -> (r: (i32, i32))
    ensures
        r.0 as int == angle_config_spec(hit_count).0,
        r.1 as int == angle_config_spec(hit_count).1,
{
    match hit_count {
        1 => (0, 1),
        2 => (-90, 180),
        3 => (-90, 90),
        4 => (-90, 60),
        5 => (-90, 45),
        _ => (-90, 45),
    }
}

/// Roll angle of one bolt in whole degrees: `start + (bolt_index + 1) * step`.
pub fn roll_angle_deg(hit_count: u8, bolt_index: u8) -> (r: i32)
    ensures
        r as int == roll_angle_spec(hit_count, bolt_index),
{
    let (start, step) = angle_config(hit_count);
    let k = bolt_index as i32 + 1;
    assert(0 <= k * step <= 256 * 180) by (nonlinear_arith)
        requires
            1 <= k <= 256,
            1 <= step <= 180,
    ;
    start + k * step
}

/// Frame at which bolt `bolt_index` launches.
pub fn bolt_spawn_frame(bolt_index: u8) -> (r: u32)
    ensures
        r as int == bolt_spawn_frame_spec(bolt_index as int),
{
    (bolt_index as u32 + 1) * SPAWN_DIST - SPAWN_DELAY
}

/// Launch bookkeeping of one volley: the hit count, the 60 fps frame counter
/// and how many bolts have left so far.
pub struct BoltSchedule {
    hit_count: u8,
    effect_frame: u32,
    next_bolt_index: u8,
}

impl BoltSchedule {
    /// Number of bolts in this volley (`1..=5`).
    pub closed spec fn hits(&self) -> u8 {
        self.hit_count
    }

    /// Frames ticked so far.
    pub closed spec fn frame(&self) -> u32 {
        self.effect_frame
    }

    /// Bolts launched so far.
    pub closed spec fn launched(&self) -> u8 {
        self.next_bolt_index
    }

    /// The schedule's invariant: the hit count is clamped and exactly the
    /// bolts whose launch frame has been reached have left.
    pub closed spec fn wf(&self) -> bool {
        &&& 1 <= self.hit_count <= MAX_HITS
        &&& self.next_bolt_index as int == launched_by(self.hit_count as int, self.effect_frame as int)
    }

    /// A fresh volley of `hit_count` bolts, clamped to `1..=5`.
    pub fn new(hit_count: u8) -> (s: BoltSchedule)
        ensures
            s.wf(),
            s.hits() == clamp_hits(hit_count),
            s.frame() == 0,
            s.launched() == 0,
    {
        let h = if hit_count < 1 { 1 } else if hit_count > MAX_HITS { MAX_HITS } else { hit_count };
        BoltSchedule { hit_count: h, effect_frame: 0, next_bolt_index: 0 }
    }

    /// Bolts launched so far (the renderer's `next_bolt_index`).
    pub fn launched_count(&self) -> (r: u8)
        ensures
            r == self.launched(),
    {
        self.next_bolt_index
    }

    /// Whether every bolt of the volley has launched.
    pub fn all_launched(&self) -> (r: bool)
        ensures
            r == (self.launched() >= self.hits()),
    {
        self.next_bolt_index >= self.hit_count
    }

    /// One 60 fps tick: bumps the frame counter and launches every bolt whose
    /// launch frame has been reached, returning their indices in order.
    pub fn tick(&mut self) -> (spawned: Vec<u8>)
        requires
            old(self).wf(),
            old(self).frame() < u32::MAX,
        ensures
            final(self).wf(),
            final(self).hits() == old(self).hits(),
            final(self).frame() == old(self).frame() + 1,
            final(self).launched() as int == launched_by(old(self).hits() as int, old(self).frame() + 1),
            spawned@.len() == final(self).launched() - old(self).launched(),
            forall|j: int| 0 <= j < spawned@.len() ==> #[trigger] spawned@[j] == old(self).launched() + j,
    {
        self.effect_frame = self.effect_frame + 1;
        let mut spawned: Vec<u8> = Vec::new();
        let ghost start = self.next_bolt_index;
        let ghost hits = self.hit_count;
        let ghost frame = self.effect_frame;
        while self.next_bolt_index < self.hit_count
            invariant_except_break
                self.hit_count == hits,
                self.effect_frame == frame,
                1 <= self.hit_count <= MAX_HITS,
                start <= self.next_bolt_index <= self.hit_count,
                self.next_bolt_index as int <= launched_by(self.hit_count as int, self.effect_frame as int),
                spawned@.len() == self.next_bolt_index - start,
                forall|j: int| 0 <= j < spawned@.len() ==> #[trigger] spawned@[j] == start + j,
            ensures
                self.hit_count == hits,
                self.effect_frame == frame,
                1 <= self.hit_count <= MAX_HITS,
                start <= self.next_bolt_index <= self.hit_count,
                self.next_bolt_index as int == launched_by(self.hit_count as int, self.effect_frame as int),
                spawned@.len() == self.next_bolt_index - start,
                forall|j: int| 0 <= j < spawned@.len() ==> #[trigger] spawned@[j] == start + j,
            decreases self.hit_count - self.next_bolt_index,
        {
            let spawn_frame = bolt_spawn_frame(self.next_bolt_index);
            if self.effect_frame >= spawn_frame {
                spawned.push(self.next_bolt_index);
                self.next_bolt_index = self.next_bolt_index + 1;
            } else {
                break;
            }
        }
        spawned
    }
}

/// Every volley has launched all of its bolts once its frame counter reaches
/// the last bolt's launch frame `11 * hits - 5` (frame 50 for five hits).
pub proof fn every_bolt_launches(hit_count: u8, frame: u32)
    requires
        1 <= hit_count <= MAX_HITS,
        frame >= bolt_spawn_frame_spec(hit_count - 1),
    ensures
        launched_by(hit_count as int, frame as int) == hit_count,
{
}

/// No bolt launches before its own launch frame, and each bolt has launched
/// from that frame on.
pub proof fn bolt_launches_at_its_frame(hit_count: u8, bolt_index: u8, frame: u32)
    requires
        1 <= hit_count <= MAX_HITS,
        bolt_index < hit_count,
    ensures
        (bolt_index < launched_by(hit_count as int, frame as int))
            <==> frame >= bolt_spawn_frame_spec(bolt_index as int),
{
}

/// Within a volley the roll fan strictly increases with the bolt index, so no
/// two bolts of one cast share a plane.
pub proof fn roll_fan_is_increasing(hit_count: u8, i: u8, j: u8)
    requires
        i < j,
    ensures
        roll_angle_spec(hit_count, i) < roll_angle_spec(hit_count, j),
{
    let step = angle_config_spec(hit_count).1;
    assert((i + 1) * step < (j + 1) * step) by (nonlinear_arith)
        requires
            i < j,
            step > 0,
    ;
}

/// Trail segments drawn per bolt.
pub const NUM_SEGMENT: u32 = 12;
/// Frames per animation frame of a bolt's sprite.
pub const ANIM_SPEED: u32 = 4;
/// Frames the short-range fallback sprite plays.
pub const STATIC_DURATION_FRAMES: u32 = 60;
/// Frame from which the fallback sprite fades (`0.7` of its life).
pub const STATIC_FADE_FROM_FRAME: u32 = 42;

/// One bolt in flight: which bolt of the volley it is and how many frames
/// it has flown.
#[derive(Clone, Copy, Debug, PartialEq, Eq, Structural)]
pub struct Bolt {
    /// Index in the volley (its roll comes from [`roll_angle_deg`]).
    pub index: u8,
    /// Frames flown.
    pub frames: u32,
}

/// Bolts launched by frame `frame` and already retired: those whose launch
/// lies more than [`BOLT_DURATION_FRAMES`] frames back.
pub open spec fn retired_by(hit_count: int, frame: int) -> int {
    launched_by(hit_count, frame - BOLT_DURATION_FRAMES - 1)
}

/// Bolts `lo..hi` of a volley on frame `frame`, each with the frames flown
/// since its launch.
pub open spec fn bolt_range(frame: int, lo: int, hi: int) -> Seq<Bolt> {
    Seq::new((hi - lo) as nat, |j: int| Bolt { index: (lo + j) as u8, frames: (frame - bolt_spawn_frame_spec(lo + j)) as u32 })
}

/// The bolts in flight on frame `frame`: launched, not yet retired, in
/// launch order.
pub open spec fn bolts_in_flight(hit_count: int, frame: int) -> Seq<Bolt> {
    bolt_range(frame, retired_by(hit_count, frame), launched_by(hit_count, frame))
}

/// Bolt `k` of a volley of `hit_count` has launched by frame `x` exactly
/// when its launch frame is at most `x`.
proof fn lemma_launched_iff(hit_count: int, k: int, x: int)
    requires
        1 <= hit_count <= MAX_HITS,
        0 <= k < hit_count,
    ensures
        (k < launched_by(hit_count, x)) <==> bolt_spawn_frame_spec(k) <= x,
{
}

/// More frames never launch fewer bolts.
proof fn lemma_launched_monotone(hit_count: int, x: int, y: int)
    requires
        1 <= hit_count <= MAX_HITS,
        x <= y,
    ensures
        0 <= launched_by(hit_count, x) <= launched_by(hit_count, y) <= hit_count,
{
    if x >= SPAWN_DIST - SPAWN_DELAY {
        assert((x - 6) / 11 <= (y - 6) / 11) by (nonlinear_arith)
            requires
                6 <= x <= y,
        ;
    }
}

/// A Soul Strike: a volley of trail bolts, or, when caster and target stand
/// too close for a trail, one short sprite at the caster.
pub struct SoulStrikeEffect {
    schedule: BoltSchedule,
    is_trail: bool,
    frame: u32,
    bolts: Vec<Bolt>,
}

impl SoulStrikeEffect {
    /// The volley's bolt count (`1..=5`).
    pub closed spec fn hits(&self) -> u8 {
        self.schedule.hits()
    }

    /// Whether the effect flies a trail volley (else the fallback sprite).
    pub closed spec fn trail(&self) -> bool {
        self.is_trail
    }

    /// Frames elapsed.
    pub closed spec fn frame_spec(&self) -> u32 {
        self.frame
    }

    /// Bolts in flight, in launch order.
    pub closed spec fn bolts_spec(&self) -> Seq<Bolt> {
        self.bolts@
    }

    /// The schedule is consistent and the bolts in flight are exactly those
    /// launched and not yet retired by the current frame (none on the
    /// fallback path).
    pub closed spec fn wf(&self) -> bool {
        &&& self.schedule.wf()
        &&& self.schedule.frame() == (if self.is_trail { self.frame } else { 0 })
        &&& self.bolts@ == (if self.is_trail { bolts_in_flight(self.schedule.hits() as int, self.frame as int) } else { Seq::empty() })
    }

    /// A Soul Strike of `hit_count` bolts (clamped to `1..=5`). `is_trail`
    /// is whether caster and target stand more than 3 units apart on the
    /// ground plane; when they do not, the effect plays the fallback sprite.
    pub fn new(hit_count: u8, is_trail: bool) -> (e: SoulStrikeEffect)
        ensures
            e.wf(),
            e.hits() == clamp_hits(hit_count),
            e.trail() == is_trail,
            e.frame_spec() == 0,
            e.bolts_spec().len() == 0,
    {
        let e = SoulStrikeEffect { schedule: BoltSchedule::new(hit_count), is_trail, frame: 0, bolts: Vec::new() };
        assert(e.bolts@ =~= bolts_in_flight(e.schedule.hits() as int, 0));
        e
    }

    /// One 60 fps frame. The trail volley flies every bolt in flight one
    /// frame, retires those past their 40 frames, and launches every bolt
    /// due; it reports `Dead` once every bolt has launched and retired. The
    /// fallback sprite reports `Dead` after its 60 frames.
    pub fn tick(&mut self) -> (status: EffectStatus)
        requires
            old(self).wf(),
            old(self).frame_spec() < u32::MAX,
        ensures
            final(self).wf(),
            final(self).hits() == old(self).hits(),
            final(self).trail() == old(self).trail(),
            final(self).frame_spec() == old(self).frame_spec() + 1,
            final(self).bolts_spec() == (if final(self).trail() {
                bolts_in_flight(final(self).hits() as int, final(self).frame_spec() as int)
            } else {
                Seq::empty()
            }),
            status == (if (if final(self).trail() {
                final(self).frame_spec() >= bolt_spawn_frame_spec(final(self).hits() - 1) + BOLT_DURATION_FRAMES + 1
            } else {
                final(self).frame_spec() >= STATIC_DURATION_FRAMES
            }) {
                EffectStatus::Dead
            } else {
                EffectStatus::Running
            }),
    {
        if !self.is_trail {
            self.frame = self.frame + 1;
            return if self.frame >= STATIC_DURATION_FRAMES { EffectStatus::Dead } else { EffectStatus::Running };
        }
        let ghost h = self.schedule.hits() as int;
        let ghost f = self.frame as int;
        let ghost r0 = retired_by(h, f);
        let ghost r1 = retired_by(h, f + 1);
        let ghost l0 = launched_by(h, f);
        proof {
            lemma_launched_monotone(h, f - BOLT_DURATION_FRAMES - 1, f - BOLT_DURATION_FRAMES);
            lemma_launched_monotone(h, f - BOLT_DURATION_FRAMES, f);
            lemma_launched_monotone(h, f, f + 1);
        }
        let mut kept: Vec<Bolt> = Vec::new();
        let n = self.bolts.len();
        let mut i: usize = 0;
        while i < n
            invariant
                n == self.bolts@.len(),
                self.bolts@ == bolt_range(f, r0, l0),
                1 <= h <= MAX_HITS,
                r0 == retired_by(h, f),
                r1 == retired_by(h, f + 1),
                l0 == launched_by(h, f),
                0 <= r0 <= r1 <= l0 <= h,
                f < u32::MAX,
                i <= n,
                kept@ == bolt_range(f + 1, r1, if r0 + i > r1 { r0 + i } else { r1 }),
            decreases n - i,
        {
            let b = self.bolts[i];
            let ghost k = r0 + i;
            proof {
                lemma_launched_iff(h, k, f - BOLT_DURATION_FRAMES);
                lemma_launched_iff(h, k, f);
                assert(b == bolt_range(f, r0, l0)[i as int]);
                assert(0 <= f - bolt_spawn_frame_spec(k) <= f);
                assert(b.frames == f - bolt_spawn_frame_spec(k));
                assert(b.index == k as u8);
                assert((b.frames < BOLT_DURATION_FRAMES) <==> (k >= r1));
            }
            if b.frames < BOLT_DURATION_FRAMES {
                let ghost before = kept@;
                kept.push(Bolt { index: b.index, frames: b.frames + 1 });
                assert(before =~= bolt_range(f + 1, r1, k));
                assert(kept@ =~= bolt_range(f + 1, r1, k + 1)) by {
                    assert forall|t: int| 0 <= t < k + 1 - r1 implies #[trigger] kept@[t] == bolt_range(f + 1, r1, k + 1)[t] by {
                        if t < k - r1 {
                            assert(kept@[t] == before[t]);
                        }
                    }
                }
            } else {
                assert(kept@ =~= bolt_range(f + 1, r1, if k + 1 > r1 { k + 1 } else { r1 }));
            }
            i = i + 1;
        }
        let spawned = self.schedule.tick();
        self.frame = self.frame + 1;
        let ghost l1 = launched_by(h, f + 1);
        assert(kept@ =~= bolt_range(f + 1, r1, l0));
        let mut j: usize = 0;
        while j < spawned.len()
            invariant
                spawned@.len() == l1 - l0,
                forall|t: int| 0 <= t < spawned@.len() ==> #[trigger] spawned@[t] == l0 + t,
                1 <= h <= MAX_HITS,
                r1 == retired_by(h, f + 1),
                l0 == launched_by(h, f),
                l1 == launched_by(h, f + 1),
                0 <= r1 <= l0 <= l1 <= h,
                f + 1 == self.frame,
                j <= spawned@.len(),
                kept@ == bolt_range(f + 1, r1, l0 + j),
            decreases spawned@.len() - j,
        {
            let ghost k = l0 + j;
            proof {
                lemma_launched_iff(h, k, f);
                lemma_launched_iff(h, k, f + 1);
            }
            let ghost before = kept@;
            assert(spawned@[j as int] == k);
            kept.push(Bolt { index: spawned[j], frames: 0 });
            assert(kept@ =~= bolt_range(f + 1, r1, k + 1)) by {
                assert(bolt_spawn_frame_spec(k) == f + 1);
                assert forall|t: int| 0 <= t < k + 1 - r1 implies #[trigger] kept@[t] == bolt_range(f + 1, r1, k + 1)[t] by {
                    if t < k - r1 {
                        assert(kept@[t] == before[t]);
                    }
                }
            }
            j = j + 1;
        }
        self.bolts = kept;
        proof {
            if h >= 1 {
                lemma_launched_iff(h, h - 1, f + 1 - BOLT_DURATION_FRAMES - 1);
            }
        }
        if self.schedule.all_launched() && self.bolts.len() == 0 { EffectStatus::Dead } else { EffectStatus::Running }
    }

    /// Bolts in flight.
    pub fn bolt_count(&self) -> (r: usize)
        ensures
            r == self.bolts_spec().len(),
    {
        self.bolts.len()
    }

    /// Bolt in flight `j`.
    pub fn bolt(&self, j: usize) -> (b: Bolt)
        requires
            j < self.bolts_spec().len(),
        ensures
            b == self.bolts_spec()[j as int],
    {
        self.bolts[j]
    }

    /// Sprites drawn this frame: twelve trail segments per bolt in flight,
    /// or the one fallback sprite.
    pub fn sprite_count(&self) -> (r: usize)
        requires
            self.wf(),
        ensures
            r == (if self.trail() { NUM_SEGMENT * self.bolts_spec().len() } else { 1 }),
    {
        if self.is_trail {
            proof {
                lemma_launched_monotone(self.schedule.hits() as int, self.frame - BOLT_DURATION_FRAMES - 1, self.frame as int);
            }
            12 * self.bolts.len()
        } else {
            1
        }
    }
}

/// Trail segment `i` (0 the lead) of a bolt, as `(alpha, size)` fractions:
/// alpha `(12 − i)/12`, size `(24 − i)/24` of the sprite's 2.75.
pub fn trail_segment(i: u32) -> (r: ((u32, u32), (u32, u32)))
    requires
        i < NUM_SEGMENT,
    ensures
        r.0.0 == NUM_SEGMENT - i,
        r.0.1 == NUM_SEGMENT,
        r.1.0 == 2 * NUM_SEGMENT - i,
        r.1.1 == 2 * NUM_SEGMENT,
{
    ((NUM_SEGMENT - i, NUM_SEGMENT), (2 * NUM_SEGMENT - i, 2 * NUM_SEGMENT))
}

/// Animation frame of a bolt that has flown `frames` frames.
pub fn motion_index(frames: u32) -> (r: u32)
    ensures
        r == frames / ANIM_SPEED,
{
    frames / ANIM_SPEED
}

/// The fallback sprite at frame `age`: its alpha in eighteenths (full until
/// frame 42, then the frames left of its 60), its scale in 150ths of 2.75
/// (growing by 40% over its life), and its animation frame.
pub fn static_sprite(age: u32) -> (r: (u32, u32, u32))
    ensures
        r.0 == (if age < STATIC_FADE_FROM_FRAME { 18 } else if age >= STATIC_DURATION_FRAMES { 0 } else { STATIC_DURATION_FRAMES - age }),
        r.1 == 150 + (if age < STATIC_DURATION_FRAMES { age } else { STATIC_DURATION_FRAMES }),
        r.2 == age / ANIM_SPEED,
{
    let alpha = if age < STATIC_FADE_FROM_FRAME { 18 } else if age >= STATIC_DURATION_FRAMES { 0 } else { STATIC_DURATION_FRAMES - age };
    let scale = 150 + if age < STATIC_DURATION_FRAMES { age } else { STATIC_DURATION_FRAMES };
    (alpha, scale, age / ANIM_SPEED)
}

/// A trail volley of `h` bolts ends on the frame its last bolt retires,
/// `11·h + 36`, and not before: a bolt in flight or one still to launch
/// keeps it running.
pub proof fn volley_ends_when_its_last_bolt_retires(h: int, frame: int)
    requires
        1 <= h <= MAX_HITS,
        frame >= 0,
    ensures
        (launched_by(h, frame) == h && bolts_in_flight(h, frame).len() == 0)
            <==> frame >= bolt_spawn_frame_spec(h - 1) + BOLT_DURATION_FRAMES + 1,
        bolt_spawn_frame_spec(h - 1) + BOLT_DURATION_FRAMES + 1 == 11 * h + 36,
{
    lemma_launched_iff(h, h - 1, frame - BOLT_DURATION_FRAMES - 1);
    lemma_launched_iff(h, h - 1, frame);
    lemma_launched_monotone(h, frame - BOLT_DURATION_FRAMES - 1, frame);
}

} // verus!
