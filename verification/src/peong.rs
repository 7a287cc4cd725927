//! `EF_PEONG` — the flower-pop burst: a soft cream flower-swirl that blooms,
//! opens into a ring and fades, ringed by twinkling sparkles.
//!
//! Two populations spawn at once from one generator stream (seeded with
//! `seed | 1`, no scrambling):
//!
//! * 20 **sparkles**, ten draws each; the sixth is `random(26)`, the frames
//!   the sparkle waits. A sparkle's alpha grows `+5` per frame for its first
//!   29 frames, then drops `−2` per frame.
//! * 64 **burst** motes (four sectors of sixteen), four draws each; the
//!   fourth is `random(11)`, its wait. A burst mote's alpha grows `+2` per
//!   frame through frame 25, holds, and drops `−1` per frame after frame 70.
//!   Mote `k` of a sector uses texture `k % 4` of `peong1/2/3/2`.
//!
//! A mote retires once it is past frame 25 and its alpha has run out; the
//! effect ends when every mote has retired. Alphas are in `0..=255` units.
//! The other draws (positions, sizes, drift) are the renderer's.
use vstd::prelude::*;
use crate::draw::EffectStatus;
use crate::rng::{lcg_iter, lcg_step, Rng};

verus! {

pub const TEXTURES: [&'static str; 3] = ["peong1.tga", "peong2.tga", "peong3.tga"];
/// Texture of burst mote `k % 4`.
pub const PEONG_TEXTURES: [&'static str; 4] = ["peong1.tga", "peong2.tga", "peong3.tga", "peong2.tga"];
pub const SPARKLE_SPRITE: &'static str = "data/sprite/\u{c774}\u{d329}\u{d2b8}/particle1";
/// Wall-clock length.
pub const TOTAL_DURATION_MS: u32 = 2600;
/// Sparkle motes.
pub const RISING_COUNT: usize = 20;
/// Burst sectors.
pub const BURST_SECTORS: usize = 4;
/// Burst motes per sector.
pub const BURST_PER_SECTOR: usize = 16;
/// Generator draws a sparkle consumes.
pub const SPARKLE_DRAWS: u32 = 10;
/// Generator draws a burst mote consumes.
pub const BURST_DRAWS: u32 = 4;
/// Frames after which every mote has retired.
pub const LAST_FRAME: u32 = 130;

/// The two populations.
#[derive(Clone, Copy, Debug, PartialEq, Eq, Structural)]
pub enum MoteKind {
    /// A twinkling sparkle that rises out of the bloom.
    Sparkle,
    /// A cream flower mote that drifts out along its sector.
    Burst,
}

/// One mote's clock.
#[derive(Clone, Copy, Debug)]
pub struct Mote {
    /// Frames into its life; negative while it waits.
    pub process: i32,
    /// Alpha in `0..=255` units.
    pub alpha: i32,
    /// Which population.
    pub kind: MoteKind,
    /// Texture (burst) or sprite (sparkle).
    pub texture: &'static str,
}

/// A mote's alpha on frame `p` of its life.
pub open spec fn mote_alpha_at(kind: MoteKind, p: int) -> int {
    if p <= 0 {
        0
    } else {
        match kind {
            MoteKind::Sparkle => if p < 30 { 5 * p } else { 145 - 2 * (p - 29) },
            MoteKind::Burst => if p <= 25 { 2 * p } else if p <= 70 { 50 } else { 50 - (p - 70) },
        }
    }
}

/// The mote one frame later.
pub open spec fn mote_step(m: Mote) -> Mote {
    Mote { process: (m.process + 1) as i32, alpha: mote_alpha_at(m.kind, m.process + 1) as i32, ..m }
}

/// A mote retires once it is past frame 25 with no alpha left.
pub open spec fn mote_dead(m: Mote) -> bool {
    m.process > 25 && m.alpha <= 0
}

/// Frame of its life on which a mote of `kind` retires.
pub open spec fn retire_frame(kind: MoteKind) -> int {
    match kind {
        MoteKind::Sparkle => 102,
        MoteKind::Burst => 120,
    }
}

/// One frame over a mote list: every mote steps, retired ones drop out.
pub open spec fn motes_after_frame(ms: Seq<Mote>) -> Seq<Mote>
    decreases ms.len(),
{
    if ms.len() == 0 {
        Seq::empty()
    } else {
        let kept = motes_after_frame(ms.drop_last());
        let m = mote_step(ms.last());
        if mote_dead(m) { kept } else { kept.push(m) }
    }
}

/// Sparkle `k` of the stream starting at `s0`.
pub open spec fn sparkle_mote(s0: u32, k: int) -> Mote {
    Mote {
        process: -((lcg_iter(s0, (SPARKLE_DRAWS * k + 6) as nat) % 26) as int) as i32,
        alpha: 0,
        kind: MoteKind::Sparkle,
        texture: SPARKLE_SPRITE,
    }
}

/// Burst mote `m` (sector `m / 16`, slot `m % 16`) of the stream starting at
/// `s0`, drawn after the twenty sparkles.
pub open spec fn burst_mote(s0: u32, m: int) -> Mote {
    Mote {
        process: -((lcg_iter(s0, (SPARKLE_DRAWS * RISING_COUNT + BURST_DRAWS * m + 4) as nat) % 11) as int) as i32,
        alpha: 0,
        kind: MoteKind::Burst,
        texture: PEONG_TEXTURES[m % 4],
    }
}

/// Longest wait of a mote of `kind`: `random(26)` or `random(11)`.
pub open spec fn max_wait(kind: MoteKind) -> int {
    match kind {
        MoteKind::Sparkle => 25,
        MoteKind::Burst => 10,
    }
}

/// A live mote: on its alpha curve, not retired, aged once per frame from a
/// wait of at most [`max_wait`] frames.
pub open spec fn mote_ok(m: Mote, frames: int) -> bool {
    &&& m.alpha == mote_alpha_at(m.kind, m.process as int)
    &&& m.process < retire_frame(m.kind)
    &&& frames - max_wait(m.kind) <= m.process <= frames
}

/// Advances the generator by `n` draws whose values the caller does not
/// need here.
fn skip_draws(rng: &mut Rng, n: u32)
    ensures
        final(rng).state() == lcg_iter(old(rng).state(), n as nat),
{
    let ghost s = rng.state();
    let mut t: u32 = 0;
    while t < n
        invariant
            t <= n,
            rng.state() == lcg_iter(s, t as nat),
        decreases n - t,
    {
        rng.next_u32();
        t = t + 1;
    }
}

/// `lcg_iter` composes: `a` draws then `b` draws is `a + b` draws.
proof fn lcg_iter_add(s: u32, a: nat, b: nat)
    ensures
        lcg_iter(lcg_iter(s, a), b) == lcg_iter(s, a + b),
    decreases b,
{
    if b > 0 {
        lcg_iter_add(s, a, (b - 1) as nat);
    }
}

/// The motes after `n` whole frames.
pub open spec fn motes_after_frames(ms: Seq<Mote>, n: nat) -> Seq<Mote>
    decreases n,
{
    if n == 0 { ms } else { motes_after_frame(motes_after_frames(ms, (n - 1) as nat)) }
}

/// Stepping is frame-rate independent: `a` frames then `b` frames leave the
/// motes as `a + b` frames at once, however the time is split into updates.
pub proof fn mote_advance_is_frame_rate_independent(ms: Seq<Mote>, a: nat, b: nat)
    ensures
        motes_after_frames(motes_after_frames(ms, a), b) == motes_after_frames(ms, a + b),
    decreases b,
{
    if b > 0 {
        mote_advance_is_frame_rate_independent(ms, a, (b - 1) as nat);
    }
}

/// The motes of one bloom and the frames stepped.
pub struct PeongMotes {
    motes: Vec<Mote>,
    frames: Ghost<nat>,
}

impl PeongMotes {
    /// Live motes: sparkles first, then burst motes, in spawn order.
    pub closed spec fn motes_spec(&self) -> Seq<Mote> {
        self.motes@
    }

    /// Frames stepped since the bloom spawned.
    pub closed spec fn frames_spec(&self) -> nat {
        self.frames@
    }

    /// Every live mote is [`mote_ok`].
    pub closed spec fn wf(&self) -> bool {
        forall|i: int| 0 <= i < self.motes@.len() ==> mote_ok(#[trigger] self.motes@[i], self.frames@ as int)
    }

    /// Spawns the 84 motes from the generator seeded with `seed | 1`.
    pub fn new(seed: u32) -> (e: PeongMotes)
        ensures
            e.wf(),
            e.frames_spec() == 0,
            e.motes_spec().len() == RISING_COUNT + BURST_SECTORS * BURST_PER_SECTOR,
            forall|k: int| 0 <= k < RISING_COUNT ==> #[trigger] e.motes_spec()[k] == sparkle_mote(seed | 1, k),
            forall|m: int| 0 <= m < BURST_SECTORS * BURST_PER_SECTOR ==>
                #[trigger] e.motes_spec()[RISING_COUNT + m] == burst_mote(seed | 1, m),
    {
        let mut rng = Rng(seed | 1);
        let ghost s0 = seed | 1;
        let mut motes: Vec<Mote> = Vec::new();
        let mut k: usize = 0;
        while k < RISING_COUNT
            invariant
                k <= RISING_COUNT,
                s0 == seed | 1,
                motes@.len() == k,
                rng.state() == lcg_iter(s0, (SPARKLE_DRAWS * k) as nat),
                forall|i: int| 0 <= i < k ==> #[trigger] motes@[i] == sparkle_mote(s0, i),
                forall|i: int| 0 <= i < motes@.len() ==> mote_ok(#[trigger] motes@[i], 0),
            decreases RISING_COUNT - k,
        {
            skip_draws(&mut rng, 5);
            let wait = rng.random_int(26);
            skip_draws(&mut rng, 4);
            proof {
                lcg_iter_add(s0, (10 * k) as nat, 5);
                lcg_iter_add(s0, (10 * k + 6) as nat, 4);
            }
            let m = Mote { process: -wait, alpha: 0, kind: MoteKind::Sparkle, texture: SPARKLE_SPRITE };
            assert(m == sparkle_mote(s0, k as int));
            motes.push(m);
            k = k + 1;
        }
        let mut j: usize = 0;
        while j < BURST_SECTORS * BURST_PER_SECTOR
            invariant
                j <= BURST_SECTORS * BURST_PER_SECTOR,
                s0 == seed | 1,
                motes@.len() == RISING_COUNT + j,
                rng.state() == lcg_iter(s0, (SPARKLE_DRAWS * RISING_COUNT + BURST_DRAWS * j) as nat),
                forall|i: int| 0 <= i < RISING_COUNT ==> #[trigger] motes@[i] == sparkle_mote(s0, i),
                forall|i: int| 0 <= i < j ==> #[trigger] motes@[RISING_COUNT + i] == burst_mote(s0, i),
                forall|i: int| 0 <= i < motes@.len() ==> mote_ok(#[trigger] motes@[i], 0),
            decreases BURST_SECTORS * BURST_PER_SECTOR - j,
        {
            skip_draws(&mut rng, 3);
            let wait = rng.random_int(11);
            proof {
                lcg_iter_add(s0, (200 + 4 * j) as nat, 3);
            }
            let m = Mote { process: -wait, alpha: 0, kind: MoteKind::Burst, texture: PEONG_TEXTURES[j % 4] };
            assert(m == burst_mote(s0, j as int));
            motes.push(m);
            j = j + 1;
        }
        PeongMotes { motes, frames: Ghost(0) }
    }

    /// One native frame: every mote ages and fades; retired motes drop out.
    pub fn step_frame(&mut self)
        requires
            old(self).wf(),
        ensures
            final(self).wf(),
            final(self).frames_spec() == old(self).frames_spec() + 1,
            final(self).motes_spec() == motes_after_frame(old(self).motes_spec()),
    {
        let ghost frames = self.frames@;
        let ghost pre = self.motes@;
        let n = self.motes.len();
        let mut kept: Vec<Mote> = Vec::new();
        let mut i: usize = 0;
        while i < n
            invariant
                n == self.motes@.len(),
                self.motes@ == pre,
                self.frames@ == frames,
                i <= n,
                forall|j: int| 0 <= j < pre.len() ==> mote_ok(#[trigger] pre[j], frames as int),
                forall|j: int| 0 <= j < kept@.len() ==> mote_ok(#[trigger] kept@[j], frames + 1int),
                kept@ == motes_after_frame(pre.take(i as int)),
            decreases n - i,
        {
            proof {
                assert(pre.take(i + 1).drop_last() =~= pre.take(i as int));
                assert(pre.take(i + 1).last() == pre[i as int]);
            }
            let mut m = self.motes[i];
            m.process = m.process + 1;
            if m.process > 0 {
                match m.kind {
                    MoteKind::Sparkle => {
                        if m.process < 30 {
                            m.alpha = if m.alpha + 5 < 255 { m.alpha + 5 } else { 255 };
                        } else {
                            m.alpha = m.alpha - 2;
                        }
                    },
                    MoteKind::Burst => {
                        if m.process <= 25 {
                            m.alpha = if m.alpha + 2 < 255 { m.alpha + 2 } else { 255 };
                        }
                        if m.process > 70 {
                            m.alpha = m.alpha - 1;
                        }
                    },
                }
            }
            if !(m.process > 25 && m.alpha <= 0) {
                kept.push(m);
            }
            i = i + 1;
        }
        proof {
            assert(pre.take(n as int) =~= pre);
        }
        self.motes = kept;
        self.frames = Ghost(self.frames@ + 1);
    }

    /// Advances by `frames` whole frames; reports `Dead` once every mote has
    /// retired.
    pub fn advance(&mut self, frames: u32) -> (status: EffectStatus)
        requires
            old(self).wf(),
        ensures
            final(self).wf(),
            final(self).frames_spec() == old(self).frames_spec() + frames,
            final(self).motes_spec() == motes_after_frames(old(self).motes_spec(), frames as nat),
            status == (if final(self).motes_spec().len() == 0 { EffectStatus::Dead } else { EffectStatus::Running }),
    {
        let mut k: u32 = 0;
        while k < frames
            invariant
                self.wf(),
                self.frames_spec() == old(self).frames_spec() + k,
                self.motes_spec() == motes_after_frames(old(self).motes_spec(), k as nat),
                k <= frames,
            decreases frames - k,
        {
            self.step_frame();
            k = k + 1;
        }
        if self.motes.len() == 0 { EffectStatus::Dead } else { EffectStatus::Running }
    }

    /// Number of live motes.
    pub fn mote_count(&self) -> (r: usize)
        ensures
            r == self.motes_spec().len(),
    {
        self.motes.len()
    }

    /// Mote `i`'s current state.
    pub fn mote(&self, i: usize) -> (r: Mote)
        requires
            i < self.motes_spec().len(),
        ensures
            r == self.motes_spec()[i as int],
    {
        self.motes[i]
    }
}

/// Every mote has retired once 130 frames have run (the latest burst mote
/// waits 10 frames and lives 120), inside the bloom's 2600 ms; no alpha ever
/// exceeds 145.
pub proof fn bloom_ends_in_time(e: PeongMotes, i: int)
    requires
        e.wf(),
    ensures
        e.frames_spec() >= LAST_FRAME ==> e.motes_spec().len() == 0,
        LAST_FRAME * 1000 / 60 <= TOTAL_DURATION_MS,
        0 <= i < e.motes_spec().len() ==> 0 <= e.motes_spec()[i].alpha <= 145,
{
    if e.motes@.len() > 0 {
        let m = e.motes@[0];
        assert(mote_ok(m, e.frames@ as int));
    }
    if 0 <= i < e.motes@.len() {
        assert(mote_ok(e.motes@[i], e.frames@ as int));
    }
}

} // verus!
