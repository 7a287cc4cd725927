//! `EF_STORMKICK4` / `EF_STORMKICK5` — `PeongUp` rising-sparkle fountain,
//! the Kaupe / Utsusemi dodge effect.
//!
//! Thirty sparkles spawn at once from one generator stream (seeded with
//! `seed | 1`), five draws each; the third is `random(26)`, the frames the
//! sparkle waits. A sparkle's alpha grows `+5` per frame for its first 29
//! frames, then drops `−2` per frame; it retires once it is at least 30
//! frames old with no alpha left, and the effect ends when all have retired.
//! The sparkles are tinted blue (105, 105, 225).
//!
//! This module holds the sparkle clocks on whole 60 fps frames; positions,
//! sizes and drift (the other draws) are the renderer's.
use vstd::prelude::*;
use crate::draw::EffectStatus;
use crate::peong::{mote_alpha_at, mote_step, Mote, MoteKind};
use crate::rng::{lcg_iter, Rng};

verus! {

pub const TEXTURES: [&'static str; 1] = ["whitelight.tga"];
pub const PEONG_TEXTURE: &'static str = "whitelight.tga";
/// Sparkle tint.
pub const TINT_RGB: [u8; 3] = [105, 105, 225];
/// Wall-clock length the dispatcher budgets.
pub const TOTAL_DURATION_MS: u32 = 2000;
/// Sparkles per fountain.
pub const PARTICLE_COUNT: usize = 30;
/// Generator draws a sparkle consumes.
pub const PARTICLE_DRAWS: u32 = 5;
/// Frames after which every sparkle has retired (wait 25 plus 102).
pub const LAST_FRAME: u32 = 127;

/// A fountain sparkle retires once it is at least 30 frames old with no
/// alpha left.
pub open spec fn sparkle_retired(m: Mote) -> bool {
    m.process >= 30 && m.alpha <= 0
}

/// One frame over the sparkles: every one steps, retired ones drop out.
pub open spec fn sparkles_after_frame(ms: Seq<Mote>) -> Seq<Mote>
    decreases ms.len(),
{
    if ms.len() == 0 {
        Seq::empty()
    } else {
        let kept = sparkles_after_frame(ms.drop_last());
        let m = mote_step(ms.last());
        if sparkle_retired(m) { kept } else { kept.push(m) }
    }
}

/// Sparkle `k` of the stream starting at `s0`.
pub open spec fn fountain_sparkle(s0: u32, k: int) -> Mote {
    Mote {
        process: -((lcg_iter(s0, (PARTICLE_DRAWS * k + 3) as nat) % 26) as int) as i32,
        alpha: 0,
        kind: MoteKind::Sparkle,
        texture: PEONG_TEXTURE,
    }
}

/// A live fountain sparkle: on its alpha curve, not retired, aged once per
/// frame from a wait of at most 25 frames.
pub open spec fn sparkle_ok(m: Mote, frames: int) -> bool {
    &&& m.kind == MoteKind::Sparkle
    &&& m.alpha == mote_alpha_at(MoteKind::Sparkle, m.process as int)
    &&& m.process < 102
    &&& frames - 25 <= m.process <= frames
}

/// The sparkles after `n` whole frames.
pub open spec fn sparkles_after_frames(ms: Seq<Mote>, n: nat) -> Seq<Mote>
    decreases n,
{
    if n == 0 { ms } else { sparkles_after_frame(sparkles_after_frames(ms, (n - 1) as nat)) }
}

/// Stepping is frame-rate independent: `a` frames then `b` frames leave the
/// sparkles as `a + b` frames at once.
pub proof fn sparkle_advance_is_frame_rate_independent(ms: Seq<Mote>, a: nat, b: nat)
    ensures
        sparkles_after_frames(sparkles_after_frames(ms, a), b) == sparkles_after_frames(ms, a + b),
    decreases b,
{
    if b > 0 {
        sparkle_advance_is_frame_rate_independent(ms, a, (b - 1) as nat);
    }
}

/// The sparkles of one fountain and the frames stepped.
pub struct PeongUpSparkles {
    sparkles: Vec<Mote>,
    frames: Ghost<nat>,
}

impl PeongUpSparkles {
    /// Live sparkles, in spawn order.
    pub closed spec fn sparkles_spec(&self) -> Seq<Mote> {
        self.sparkles@
    }

    /// Frames stepped.
    pub closed spec fn frames_spec(&self) -> nat {
        self.frames@
    }

    /// Every live sparkle is [`sparkle_ok`].
    pub closed spec fn wf(&self) -> bool {
        forall|i: int| 0 <= i < self.sparkles@.len() ==> sparkle_ok(#[trigger] self.sparkles@[i], self.frames@ as int)
    }

    /// Spawns the thirty sparkles from the generator seeded with `seed | 1`.
    pub fn new(seed: u32) -> (e: PeongUpSparkles)
        ensures
            e.wf(),
            e.frames_spec() == 0,
            e.sparkles_spec().len() == PARTICLE_COUNT,
            forall|k: int| 0 <= k < PARTICLE_COUNT ==> #[trigger] e.sparkles_spec()[k] == fountain_sparkle(seed | 1, k),
    {
        let mut rng = Rng(seed | 1);
        let ghost s0 = seed | 1;
        let mut sparkles: Vec<Mote> = Vec::new();
        let mut k: usize = 0;
        while k < PARTICLE_COUNT
            invariant
                k <= PARTICLE_COUNT,
                s0 == seed | 1,
                sparkles@.len() == k,
                rng.state() == lcg_iter(s0, (PARTICLE_DRAWS * k) as nat),
                forall|i: int| 0 <= i < k ==> #[trigger] sparkles@[i] == fountain_sparkle(s0, i),
                forall|i: int| 0 <= i < sparkles@.len() ==> sparkle_ok(#[trigger] sparkles@[i], 0),
            decreases PARTICLE_COUNT - k,
        {
            rng.next_u32();
            rng.next_u32();
            let wait = rng.random(26) as i32;
            rng.next_u32();
            rng.next_u32();
            proof {
                assert(lcg_iter(s0, (5 * k + 5) as nat) == crate::rng::lcg_step(lcg_iter(s0, (5 * k + 4) as nat)));
                assert(lcg_iter(s0, (5 * k + 4) as nat) == crate::rng::lcg_step(lcg_iter(s0, (5 * k + 3) as nat)));
                assert(lcg_iter(s0, (5 * k + 3) as nat) == crate::rng::lcg_step(lcg_iter(s0, (5 * k + 2) as nat)));
                assert(lcg_iter(s0, (5 * k + 2) as nat) == crate::rng::lcg_step(lcg_iter(s0, (5 * k + 1) as nat)));
                assert(lcg_iter(s0, (5 * k + 1) as nat) == crate::rng::lcg_step(lcg_iter(s0, (5 * k) as nat)));
            }
            let m = Mote { process: -wait, alpha: 0, kind: MoteKind::Sparkle, texture: PEONG_TEXTURE };
            assert(m == fountain_sparkle(s0, k as int));
            sparkles.push(m);
            k = k + 1;
        }
        PeongUpSparkles { sparkles, frames: Ghost(0) }
    }

    /// One native frame: every sparkle ages and fades; retired ones drop out.
    pub fn step_frame(&mut self)
        requires
            old(self).wf(),
        ensures
            final(self).wf(),
            final(self).frames_spec() == old(self).frames_spec() + 1,
            final(self).sparkles_spec() == sparkles_after_frame(old(self).sparkles_spec()),
    {
        let ghost frames = self.frames@;
        let ghost pre = self.sparkles@;
        let n = self.sparkles.len();
        let mut kept: Vec<Mote> = Vec::new();
        let mut i: usize = 0;
        while i < n
            invariant
                n == self.sparkles@.len(),
                self.sparkles@ == pre,
                self.frames@ == frames,
                i <= n,
                forall|j: int| 0 <= j < pre.len() ==> sparkle_ok(#[trigger] pre[j], frames as int),
                forall|j: int| 0 <= j < kept@.len() ==> sparkle_ok(#[trigger] kept@[j], frames + 1int),
                kept@ == sparkles_after_frame(pre.take(i as int)),
            decreases n - i,
        {
            proof {
                assert(pre.take(i + 1).drop_last() =~= pre.take(i as int));
                assert(pre.take(i + 1).last() == pre[i as int]);
            }
            let mut m = self.sparkles[i];
            m.process = m.process + 1;
            if m.process > 0 {
                if m.process < 30 {
                    m.alpha = if m.alpha + 5 < 255 { m.alpha + 5 } else { 255 };
                } else {
                    m.alpha = m.alpha - 2;
                }
            }
            if !(m.process >= 30 && m.alpha <= 0) {
                kept.push(m);
            }
            i = i + 1;
        }
        proof {
            assert(pre.take(n as int) =~= pre);
        }
        self.sparkles = kept;
        self.frames = Ghost(self.frames@ + 1);
    }

    /// Advances by `frames` whole frames; reports `Dead` once every sparkle
    /// has retired.
    pub fn advance(&mut self, frames: u32) -> (status: EffectStatus)
        requires
            old(self).wf(),
        ensures
            final(self).wf(),
            final(self).frames_spec() == old(self).frames_spec() + frames,
            final(self).sparkles_spec() == sparkles_after_frames(old(self).sparkles_spec(), frames as nat),
            status == (if final(self).sparkles_spec().len() == 0 { EffectStatus::Dead } else { EffectStatus::Running }),
    {
        let mut k: u32 = 0;
        while k < frames
            invariant
                self.wf(),
                self.frames_spec() == old(self).frames_spec() + k,
                self.sparkles_spec() == sparkles_after_frames(old(self).sparkles_spec(), k as nat),
                k <= frames,
            decreases frames - k,
        {
            self.step_frame();
            k = k + 1;
        }
        if self.sparkles.len() == 0 { EffectStatus::Dead } else { EffectStatus::Running }
    }

    /// Number of live sparkles.
    pub fn sparkle_count(&self) -> (r: usize)
        ensures
            r == self.sparkles_spec().len(),
    {
        self.sparkles.len()
    }

    /// Sparkle `i`'s current state.
    pub fn sparkle(&self, i: usize) -> (r: Mote)
        requires
            i < self.sparkles_spec().len(),
        ensures
            r == self.sparkles_spec()[i as int],
    {
        self.sparkles[i]
    }
}

/// Every sparkle has retired once 127 frames have run (a wait of up to 25
/// frames plus 102 frames of life) and no alpha ever exceeds 145. This runs
/// past the dispatcher's 2000 ms budget (120 frames): the fountain ends when
/// its last sparkle does, not on the budget.
pub proof fn fountain_ends_at_frame_127(e: PeongUpSparkles, i: int)
    requires
        e.wf(),
    ensures
        e.frames_spec() >= LAST_FRAME ==> e.sparkles_spec().len() == 0,
        0 <= i < e.sparkles_spec().len() ==> 0 <= e.sparkles_spec()[i].alpha <= 145,
{
    if e.sparkles@.len() > 0 {
        assert(sparkle_ok(e.sparkles@[0], e.frames@ as int));
    }
    if 0 <= i < e.sparkles@.len() {
        assert(sparkle_ok(e.sparkles@[i], e.frames@ as int));
    }
}

} // verus!
