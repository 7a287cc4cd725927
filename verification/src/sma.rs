//! SMA wind-spiral family — `EF_SMA` (551), `EF_SMA2` (552), `EF_STIN3`
//! (555) and `EF_SMA3` (556).
//!
//! * **Sma2** (552): a single `SMA2` ribbon — three strands, each spinning at
//!   `+(ec+3)°/frame`, whose alpha ramps `+5` per frame to 180 over the first
//!   40 frames, holds, and fades `−5` per frame over its last 40 frames.
//! * **Sma** (551): a travelling emitter that fires one `Sma2` ribbon every 8
//!   frames for 100 frames, alternating loose and tight ribbons every 8
//!   frames; it dies once emission has ended and every ribbon has faded.
//! * **Stin3** (555): the same emitter streaming particle bursts instead.
//!
//! This module holds the frame-level state: ribbon angles in whole degrees,
//! alphas in `0..=255` units, the emitter's ribbon bookkeeping, and the
//! particle stream's population and fade (particle placement is the
//! renderer's).
use vstd::prelude::*;
use crate::draw::{BlendKind, EffectStatus};

verus! {

/// Native engine framerate.
pub const FRAMES_PER_SECOND: u32 = 60;
/// Each `Sma2` ribbon lives this long (rise to full crest + hold + fade).
pub const BAND_DURATION_FRAMES: u32 = 120;
/// `Sma` emits a ribbon every 8 frames.
pub const BAND_EMIT_PERIOD: u32 = 8;
/// How long the travelling emitter keeps spawning.
pub const EMIT_FRAMES: u32 = 100;
/// Frames over which a ribbon ramps in, and over which it fades out.
pub const BAND_RAMP_FRAMES: u32 = 40;
/// Alpha a ribbon gains or loses per frame.
pub const BAND_ALPHA_STEP: u32 = 5;
/// Cap of a ribbon's alpha.
pub const BAND_ALPHA_CAP: u32 = 180;

/// `EF_SMA2` wall-clock length, ms.
pub const SMA2_TOTAL_DURATION_MS: u32 = BAND_DURATION_FRAMES * 1000 / FRAMES_PER_SECOND;
/// `EF_SMA` wall-clock length, ms.
pub const SMA_TOTAL_DURATION_MS: u32 = (EMIT_FRAMES + BAND_DURATION_FRAMES) * 1000 / FRAMES_PER_SECOND;
/// `EF_STIN3` wall-clock length, ms.
pub const STIN3_TOTAL_DURATION_MS: u32 = (EMIT_FRAMES + 60) * 1000 / FRAMES_PER_SECOND;

/// What the `PP_SMA` emitter streams.
#[derive(Clone, Copy, Debug, PartialEq, Eq, Structural)]
pub enum SmaKind {
    /// `SMA(0)` — emit `Sma2` ribbons (551).
    Bands,
    /// `SMA(1)` — emit `Sma3` particle bursts (555).
    Particles,
}

/// Spin of strand `i` in degrees per frame: 3 / 4 / 5.
pub open spec fn strand_spin(i: int) -> int {
    i + 3
}

/// Starting angle of strand `i`: 0 / 90 / 180 degrees.
pub open spec fn strand_start(i: int) -> int {
    90 * i
}

/// A ribbon's alpha after `p` frames when it lives `d >= 80` frames: `+5`
/// per frame to 180, hold, then `−5` per frame from frame `d − 40`.
pub open spec fn band_alpha_at(d: int, p: int) -> int {
    if p >= d - BAND_RAMP_FRAMES {
        let a = BAND_ALPHA_CAP - BAND_ALPHA_STEP * (p - d + BAND_RAMP_FRAMES + 1);
        if a > 0 { a } else { 0 }
    } else if p < 36 {
        BAND_ALPHA_STEP * p
    } else {
        BAND_ALPHA_CAP as int
    }
}

/// One rising spiral ribbon (`PP_SMA2`): its strands' angles, its frame
/// counter, its alpha and its lifetime.
#[derive(Clone, Copy)]
pub struct Sma2Band {
    rot0: u32,
    rot1: u32,
    rot2: u32,
    tight: bool,
    process: u32,
    alpha: u32,
    duration: u32,
}

impl Sma2Band {
    /// Angle of strand `i`, whole degrees.
    pub closed spec fn rot(&self, i: int) -> u32 {
        if i == 0 { self.rot0 } else if i == 1 { self.rot1 } else { self.rot2 }
    }

    /// Whether this is the smaller-radius variant.
    pub closed spec fn is_tight(&self) -> bool {
        self.tight
    }

    /// Frames stepped.
    pub closed spec fn frames(&self) -> u32 {
        self.process
    }

    /// Alpha in `0..=255` units.
    pub closed spec fn alpha_spec(&self) -> u32 {
        self.alpha
    }

    /// Frames the ribbon is meant to live.
    pub closed spec fn lifetime(&self) -> u32 {
        self.duration
    }

    /// Angles below 360, alpha at most 180, and — for a ribbon living at
    /// least 80 frames — alpha on its ramp/hold/fade curve.
    pub closed spec fn wf(&self) -> bool {
        &&& self.rot0 < 360
        &&& self.rot1 < 360
        &&& self.rot2 < 360
        &&& self.alpha <= BAND_ALPHA_CAP
        &&& self.duration >= 80 ==> self.alpha == band_alpha_at(self.duration as int, self.process as int)
    }

    /// The ribbon has run its course: past its lifetime and fully faded.
    pub open spec fn is_dead(&self) -> bool {
        self.frames() >= self.lifetime() && self.alpha_spec() == 0
    }

    /// A fresh ribbon; `tight` mirrors `m_deltaPos2.y != 0`, the
    /// smaller-radius variant the emitter alternates to every 8 frames.
    pub fn new(tight: bool, duration: u32) -> (b: Sma2Band)
        ensures
            b.wf(),
            b == fresh_band(tight, duration),
            b.is_tight() == tight,
            b.frames() == 0,
            b.alpha_spec() == 0,
            b.lifetime() == duration,
            forall|i: int| 0 <= i < 3 ==> #[trigger] b.rot(i) == strand_start(i),
    {
        Sma2Band { rot0: 0, rot1: 90, rot2: 180, tight, process: 0, alpha: 0, duration }
    }

    /// One frame of `PrimSMA2`: spin the strands, then fade during the last
    /// 40 frames of life or ramp in during the first 40.
    pub fn step(&mut self)
        requires
            old(self).wf(),
            old(self).frames() < u32::MAX,
        ensures
            final(self).wf(),
            *final(self) == band_step(*old(self)),
            final(self).is_tight() == old(self).is_tight(),
            final(self).lifetime() == old(self).lifetime(),
            final(self).frames() == old(self).frames() + 1,
            forall|i: int| 0 <= i < 3 ==> #[trigger] final(self).rot(i) == (old(self).rot(i) + strand_spin(i)) % 360,
            final(self).alpha_spec() == (if final(self).frames() + BAND_RAMP_FRAMES >= old(self).lifetime() {
                if old(self).alpha_spec() >= BAND_ALPHA_STEP { old(self).alpha_spec() - BAND_ALPHA_STEP } else { 0 }
            } else if final(self).frames() < BAND_RAMP_FRAMES {
                if old(self).alpha_spec() + BAND_ALPHA_STEP < BAND_ALPHA_CAP {
                    old(self).alpha_spec() + BAND_ALPHA_STEP
                } else {
                    BAND_ALPHA_CAP as int
                }
            } else {
                old(self).alpha_spec() as int
            }),
    {
        self.process = self.process + 1;
        self.rot0 = (self.rot0 + 3) % 360;
        self.rot1 = (self.rot1 + 4) % 360;
        self.rot2 = (self.rot2 + 5) % 360;
        let fade_from = if self.duration >= BAND_RAMP_FRAMES { self.duration - BAND_RAMP_FRAMES } else { 0 };
        if self.process >= fade_from {
            self.alpha = if self.alpha >= BAND_ALPHA_STEP { self.alpha - BAND_ALPHA_STEP } else { 0 };
        } else if self.process < BAND_RAMP_FRAMES {
            self.alpha = if self.alpha + BAND_ALPHA_STEP < BAND_ALPHA_CAP {
                self.alpha + BAND_ALPHA_STEP
            } else {
                BAND_ALPHA_CAP
            };
        }
    }

    /// Whether the ribbon has run its course.
    pub fn dead(&self) -> (r: bool)
        ensures
            r == self.is_dead(),
    {
        self.process >= self.duration && self.alpha == 0
    }

    /// Frames stepped.
    pub fn process(&self) -> (r: u32)
        ensures
            r == self.frames(),
    {
        self.process
    }

    /// Current alpha, `0..=255` units.
    pub fn alpha(&self) -> (r: u32)
        ensures
            r == self.alpha_spec(),
    {
        self.alpha
    }

    /// Angle of strand `i` in whole degrees.
    pub fn strand_rot(&self, i: usize) -> (r: u32)
        requires
            i < 3,
        ensures
            r == self.rot(i as int),
    {
        if i == 0 { self.rot0 } else if i == 1 { self.rot1 } else { self.rot2 }
    }

    /// Whether this is the smaller-radius variant.
    pub fn tight(&self) -> (r: bool)
        ensures
            r == self.is_tight(),
    {
        self.tight
    }
}

/// A fresh ribbon: strands at 0 / 90 / 180 degrees, no frames, no alpha.
pub closed spec fn fresh_band(tight: bool, duration: u32) -> Sma2Band {
    Sma2Band { rot0: 0, rot1: 90, rot2: 180, tight, process: 0, alpha: 0, duration }
}

/// The ribbon after one frame of `PrimSMA2`.
pub closed spec fn band_step(b: Sma2Band) -> Sma2Band {
    let process = b.process + 1;
    let fade_from = if b.duration >= BAND_RAMP_FRAMES { b.duration - BAND_RAMP_FRAMES } else { 0 };
    let alpha = if process >= fade_from {
        if b.alpha >= BAND_ALPHA_STEP { b.alpha - BAND_ALPHA_STEP } else { 0 }
    } else if process < BAND_RAMP_FRAMES {
        if b.alpha + BAND_ALPHA_STEP < BAND_ALPHA_CAP { b.alpha + BAND_ALPHA_STEP } else { BAND_ALPHA_CAP as int }
    } else {
        b.alpha as int
    };
    Sma2Band {
        rot0: ((b.rot0 + 3) % 360) as u32,
        rot1: ((b.rot1 + 4) % 360) as u32,
        rot2: ((b.rot2 + 5) % 360) as u32,
        process: process as u32,
        alpha: alpha as u32,
        ..b
    }
}

/// A ribbon that lives `d >= 80` frames reports dead exactly once it has
/// stepped `d` frames: never before, always from then on.
pub proof fn band_lives_its_duration(b: Sma2Band)
    requires
        b.wf(),
        b.lifetime() >= 80,
    ensures
        b.is_dead() <==> b.frames() >= b.lifetime(),
{
}

/// One frame over a ribbon list, oldest first: every ribbon steps and the
/// ones that have run their course are dropped.
pub open spec fn surviving_bands(bs: Seq<Sma2Band>) -> Seq<Sma2Band>
    decreases bs.len(),
{
    if bs.len() == 0 {
        Seq::empty()
    } else {
        let kept = surviving_bands(bs.drop_last());
        let b = band_step(bs.last());
        if b.is_dead() { kept } else { kept.push(b) }
    }
}

/// The ribbon an emission decision adds: none, or one fresh 120-frame
/// ribbon of the given tightness.
pub open spec fn emitted_bands(e: Option<bool>) -> Seq<Sma2Band> {
    match e {
        Some(tight) => seq![fresh_band(tight, BAND_DURATION_FRAMES)],
        None => Seq::empty(),
    }
}

/// Whether the emitter fires a ribbon on frame `frame`, and whether it is a
/// tight one (every other emission).
pub open spec fn band_emission_spec(frame: int) -> Option<bool> {
    if frame < EMIT_FRAMES && frame % (BAND_EMIT_PERIOD as int) == 0 {
        Some((frame / (BAND_EMIT_PERIOD as int)) % 2 == 1)
    } else {
        None
    }
}

/// The emitter's ribbon decision on frame `frame`: `Some(tight)` on every
/// 8th frame while emitting, `None` otherwise.
pub fn band_emission(frame: u32) -> (r: Option<bool>)
    ensures
        r == band_emission_spec(frame as int),
{
    if frame < EMIT_FRAMES && frame % BAND_EMIT_PERIOD == 0 {
        Some((frame / BAND_EMIT_PERIOD) % 2 == 1)
    } else {
        None
    }
}

/// The `SMA(0)` emitter's frame-level state: its frame counter and its live
/// ribbons in emission order.
pub struct SmaBandEmitter {
    frame: u32,
    bands: Vec<Sma2Band>,
}

impl SmaBandEmitter {
    /// Frames stepped.
    pub closed spec fn frames(&self) -> u32 {
        self.frame
    }

    /// Live ribbons, oldest first.
    pub closed spec fn bands_spec(&self) -> Seq<Sma2Band> {
        self.bands@
    }

    /// Every live ribbon lives 120 frames, was emitted at or after frame 0
    /// and no later than the last emission frame 96, and has not yet run its
    /// course.
    pub closed spec fn wf(&self) -> bool {
        &&& forall|i: int| 0 <= i < self.bands@.len() ==> {
            let b = #[trigger] self.bands@[i];
            &&& b.wf()
            &&& b.lifetime() == BAND_DURATION_FRAMES
            &&& b.frames() <= self.frame
            &&& self.frame <= b.frames() + 96
            &&& b.frames() < BAND_DURATION_FRAMES
        }
    }

    /// An emitter before its first frame.
    pub fn new() -> (e: SmaBandEmitter)
        ensures
            e.wf(),
            e.frames() == 0,
            e.bands_spec().len() == 0,
    {
        SmaBandEmitter { frame: 0, bands: Vec::new() }
    }

    /// One native frame: maybe emit a ribbon, step every ribbon, drop the
    /// ones that have run their course, advance the frame counter. Returns the
    /// emission decision of this frame.
    pub fn step_frame(&mut self) -> (emitted: Option<bool>)
        requires
            old(self).wf(),
            old(self).frames() < u32::MAX,
        ensures
            final(self).wf(),
            final(self).frames() == old(self).frames() + 1,
            emitted == band_emission_spec(old(self).frames() as int),
            final(self).bands_spec() == surviving_bands(old(self).bands_spec() + emitted_bands(emitted)),
    {
        let emitted = band_emission(self.frame);
        if let Some(tight) = emitted {
            self.bands.push(Sma2Band::new(tight, BAND_DURATION_FRAMES));
        }
        assert(self.bands@ =~= old(self).bands@ + emitted_bands(emitted));
        let ghost frame = self.frame;
        let ghost pre = self.bands@;
        let n = self.bands.len();
        let mut kept: Vec<Sma2Band> = Vec::new();
        let mut i: usize = 0;
        while i < n
            invariant
                n == self.bands@.len(),
                self.bands@ == pre,
                self.frame == frame,
                frame < u32::MAX,
                i <= n,
                kept@ == surviving_bands(pre.take(i as int)),
                forall|j: int| 0 <= j < pre.len() ==> {
                    let b = #[trigger] pre[j];
                    &&& b.wf()
                    &&& b.lifetime() == BAND_DURATION_FRAMES
                    &&& b.frames() <= frame
                    &&& frame <= b.frames() + 96
                    &&& b.frames() < BAND_DURATION_FRAMES
                },
                forall|j: int| 0 <= j < kept@.len() ==> {
                    let b = #[trigger] kept@[j];
                    &&& b.wf()
                    &&& b.lifetime() == BAND_DURATION_FRAMES
                    &&& b.frames() <= frame + 1
                    &&& frame + 1 <= b.frames() + 96
                    &&& b.frames() < BAND_DURATION_FRAMES
                },
            decreases n - i,
        {
            proof {
                assert(pre.take(i + 1).drop_last() =~= pre.take(i as int));
                assert(pre.take(i + 1).last() == pre[i as int]);
            }
            let mut b = self.bands[i];
            b.step();
            proof {
                band_lives_its_duration(b);
            }
            if !b.dead() {
                kept.push(b);
            }
            i = i + 1;
        }
        proof {
            assert(pre.take(n as int) =~= pre);
        }
        self.bands = kept;
        self.frame = self.frame + 1;
        emitted
    }

    /// Whether emission has ended and every ribbon has faded.
    pub fn done(&self) -> (r: bool)
        ensures
            r == (self.frames() >= EMIT_FRAMES && self.bands_spec().len() == 0),
    {
        self.frame >= EMIT_FRAMES && self.bands.len() == 0
    }

    /// Number of live ribbons.
    pub fn band_count(&self) -> (r: usize)
        ensures
            r == self.bands_spec().len(),
    {
        self.bands.len()
    }
}

/// The `SMA(0)` emitter is done by frame 216: the last ribbon leaves at
/// frame 96 and lives 120 frames, within the effect's 220-frame budget.
pub proof fn band_emitter_finishes(e: SmaBandEmitter)
    requires
        e.wf(),
        e.frames() >= 216,
    ensures
        e.bands_spec().len() == 0,
{
    if e.bands@.len() > 0 {
        let b = e.bands@[0];
        assert(b.frames() < BAND_DURATION_FRAMES);
    }
}

/// Strands of a ribbon.
pub const STRANDS: u32 = 3;
/// Nodes along a strand (`E_DIVISION`); consecutive nodes make one quad.
pub const E_DIVISION: u32 = 21;
/// How a ribbon's quads blend.
pub const BAND_BLEND: BlendKind = BlendKind::Additive;
/// How a stream particle's billboard blends.
pub const PARTICLE_BLEND: BlendKind = BlendKind::Additive;
/// A ribbon's tint, of 255.
pub const BAND_TINT_RGB: [u8; 3] = [90, 90, 255];
/// A stream particle's tint, of 255.
pub const PARTICLE_TINT_RGB: [u8; 3] = [120, 120, 255];
/// Particles a stream emits per frame while emitting.
pub const PARTICLES_PER_FRAME: u32 = 8;
/// Frames a stream particle lives. Its alpha reaches 0 on its frame 60 in
/// exact arithmetic, but the client's `f32` sum of fifty `3/255` drains
/// from `150/255` stops at `6e-8` there, so the client retires it one frame
/// later; this crate keeps the client's timing on purpose, and with it the
/// stream ends on frame 160, exactly the planned length (emission plus 60
/// frames).
pub const PARTICLE_LIFE_FRAMES: u32 = 61;

impl Sma2Band {
    /// Additive quads the ribbon draws this frame: `E_DIVISION − 1` per
    /// strand while it has alpha, none once it has faded.
    pub fn quad_count(&self) -> (r: u32)
        ensures
            r == (if self.alpha_spec() > 0 { STRANDS * (E_DIVISION - 1) } else { 0 }),
    {
        if self.alpha > 0 { STRANDS * (E_DIVISION - 1) } else { 0 }
    }
}

/// A stream particle's alpha on frame `p` of its life, of 255: `+15` a
/// frame through its frame 10 (to 150), then `−3` a frame.
pub open spec fn particle_alpha_at(p: int) -> int {
    if p <= 10 { 15 * p } else if 150 - 3 * (p - 10) > 0 { 150 - 3 * (p - 10) } else { 0 }
}

/// A stream particle's alpha on frame `p` of its life.
pub fn particle_alpha(p: u32) -> (r: u32)
    ensures
        r == particle_alpha_at(p as int),
{
    if p <= 10 { 15 * p } else if p < 60 { 150 - 3 * (p - 10) } else { 0 }
}

/// The frames whose particle bursts are alive after `frame` steps of a
/// particle stream: bursts fire on each of the first 100 frames and each
/// lives through its 60th frame, so `[max(frame − 60, 0), min(frame, 100))`.
pub open spec fn live_particle_frames(frame: int) -> (int, int) {
    let lo = if frame - (PARTICLE_LIFE_FRAMES - 1) > 0 { frame - (PARTICLE_LIFE_FRAMES - 1) } else { 0 };
    let hi = if frame < EMIT_FRAMES { frame } else { EMIT_FRAMES as int };
    (lo, if hi > lo { hi } else { lo })
}

/// Particles alive, and drawn, after `frame` steps of a particle stream.
pub fn particle_count(frame: u32) -> (r: u32)
    ensures
        r == PARTICLES_PER_FRAME * (live_particle_frames(frame as int).1 - live_particle_frames(frame as int).0),
{
    let lo: u32 = if frame > PARTICLE_LIFE_FRAMES - 1 { frame - (PARTICLE_LIFE_FRAMES - 1) } else { 0 };
    let hi: u32 = if frame < EMIT_FRAMES { frame } else { EMIT_FRAMES };
    let hi2: u32 = if hi > lo { hi } else { lo };
    PARTICLES_PER_FRAME * (hi2 - lo)
}

/// A particle stream reports `Dead` once it has stopped emitting and its
/// last burst has been retired: from frame 160 on.
pub fn particle_stream_status(frame: u32) -> (s: EffectStatus)
    ensures
        s == (if frame >= EMIT_FRAMES && live_particle_frames(frame as int).0 == live_particle_frames(frame as int).1 {
            EffectStatus::Dead
        } else {
            EffectStatus::Running
        }),
        (s == EffectStatus::Dead) <==> frame >= EMIT_FRAMES + PARTICLE_LIFE_FRAMES - 1,
{
    if frame >= EMIT_FRAMES && frame >= EMIT_FRAMES + PARTICLE_LIFE_FRAMES - 1 { EffectStatus::Dead } else { EffectStatus::Running }
}

/// A stream particle is lit from its first frame through its 59th, spent
/// from its 60th on, and never brighter than 150.
pub proof fn particle_lit_through_its_life(p: int)
    requires
        p >= 1,
    ensures
        p < 60 ==> 0 < particle_alpha_at(p) <= 150,
        p >= 60 ==> particle_alpha_at(p) == 0,
{
}

} // verus!
