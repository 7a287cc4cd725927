//! `EF_SPINEDBODY` / `EF_SPINEDBODY2` — full barrel-roll of the target.
//!
//! Both roll the body through a full turn over `BodyTime` 0..=36 (the angle
//! is `180 − sin(BodyTime·5 + 90°)·180`, the renderer's). They differ in
//! timing:
//!
//! * **Spinedbody** — immediate, double speed: `BodyTime = frame·2` while
//!   the frame is below 18. No sound.
//! * **Spinedbody2** — delayed to frame 14, normal speed:
//!   `BodyTime = frame − 14` while `14 ≤ frame < 50`; `kicking.wav` plays when
//!   frame 5 is reached.
//!
//! This module holds the timing, counted in ticks, a caller-chosen
//! `1/ticks` of a 60 fps frame, so fractional frame counts are kept exactly
//! (`BodyTime` in `1/ticks`); whole frames are the case of one tick a frame.
use vstd::prelude::*;
use crate::draw::EffectStatus;

verus! {

/// `BodyTime` of a full turn.
pub const ROLL_BODY_TIME: u32 = 36;
/// Frame on which Spinedbody2's sound plays.
pub const SFX_FRAME: u32 = 5;
/// Spinedbody2's sound.
pub const KICKING_WAV: &'static str = "effect\\kicking.wav";

/// Timing of one roll.
#[derive(Clone, Copy, Debug, PartialEq, Eq, Structural)]
pub struct SpinConfig {
    /// First frame of the roll.
    pub start_frame: u32,
    /// Frame on which the effect ends.
    pub end_frame: u32,
    /// `BodyTime` per frame.
    pub speed: u32,
    /// Whether the roll plays `kicking.wav`.
    pub sfx: bool,
}

/// Spinedbody: frames 0..18 at double speed, silent.
#[allow(non_snake_case)]
pub fn SPINEDBODY() -> (c: SpinConfig)
    ensures
        c == spinedbody_timing(),
{
    SpinConfig { start_frame: 0, end_frame: 18, speed: 2, sfx: false }
}

/// Spinedbody2: frames 14..50 at normal speed, with the kick sound.
#[allow(non_snake_case)]
pub fn SPINEDBODY2() -> (c: SpinConfig)
    ensures
        c == spinedbody2_timing(),
{
    SpinConfig { start_frame: 14, end_frame: 14 + ROLL_BODY_TIME, speed: 1, sfx: true }
}

/// `BodyTime` `n` ticks in at `t` ticks a frame, in `1/t`, while the body
/// is rolling.
pub open spec fn body_time_ticks_spec(cfg: SpinConfig, n: int, t: int) -> Option<int> {
    if n < cfg.start_frame * t || n >= cfg.end_frame * t {
        None
    } else {
        let b = (n - cfg.start_frame * t) * cfg.speed;
        if b <= ROLL_BODY_TIME * t { Some(b) } else { None }
    }
}

/// `BodyTime` on frame `frame`, while the body is rolling.
pub open spec fn body_time_spec(cfg: SpinConfig, frame: int) -> Option<int> {
    body_time_ticks_spec(cfg, frame, 1)
}

/// Largest tick resolution a roll accepts.
pub const MAX_TICKS_PER_FRAME: u32 = 1_000_000;

/// Tick clock of one roll and its pending sound.
pub struct SpinedBodyClock {
    cfg: SpinConfig,
    ticks: u32,
    age: u32,
    sfx_pending: bool,
}

impl SpinedBodyClock {
    /// The roll's timing.
    pub closed spec fn config(&self) -> SpinConfig {
        self.cfg
    }

    /// Ticks per frame.
    pub closed spec fn ticks_spec(&self) -> u32 {
        self.ticks
    }

    /// Ticks elapsed.
    pub closed spec fn age_spec(&self) -> u32 {
        self.age
    }

    /// Whether the sound is waiting to be taken.
    pub closed spec fn sfx_pending_spec(&self) -> bool {
        self.sfx_pending
    }

    /// A frame is 1 to 1,000,000 ticks.
    pub closed spec fn wf(&self) -> bool {
        1 <= self.ticks <= MAX_TICKS_PER_FRAME
    }

    /// A roll with timing `cfg` at frame 0, counting `ticks` ticks a frame.
    pub fn new_in_ticks(cfg: SpinConfig, ticks: u32) -> (c: SpinedBodyClock)
        requires
            1 <= ticks <= MAX_TICKS_PER_FRAME,
        ensures
            c.wf(),
            c.config() == cfg,
            c.ticks_spec() == ticks,
            c.age_spec() == 0,
            !c.sfx_pending_spec(),
    {
        SpinedBodyClock { cfg, ticks, age: 0, sfx_pending: false }
    }

    /// A roll with timing `cfg` at frame 0, counting whole frames.
    pub fn new(cfg: SpinConfig) -> (c: SpinedBodyClock)
        ensures
            c.wf(),
            c.config() == cfg,
            c.ticks_spec() == 1,
            c.age_spec() == 0,
            !c.sfx_pending_spec(),
    {
        Self::new_in_ticks(cfg, 1)
    }

    /// Advances by `ticks` ticks: queues the sound when this update reaches
    /// frame 5; reports `Dead` from the end frame.
    pub fn advance(&mut self, ticks: u32) -> (status: EffectStatus)
        requires
            old(self).wf(),
            old(self).age_spec() + ticks <= u32::MAX,
        ensures
            final(self).wf(),
            final(self).config() == old(self).config(),
            final(self).ticks_spec() == old(self).ticks_spec(),
            final(self).age_spec() == old(self).age_spec() + ticks,
            final(self).sfx_pending_spec() == (old(self).sfx_pending_spec() || (old(self).config().sfx
                && old(self).age_spec() < SFX_FRAME * old(self).ticks_spec()
                && final(self).age_spec() >= SFX_FRAME * old(self).ticks_spec())),
            status == (if final(self).age_spec() >= old(self).config().end_frame * old(self).ticks_spec() {
                EffectStatus::Dead
            } else {
                EffectStatus::Running
            }),
    {
        let t = self.ticks as u64;
        let before = self.age as u64;
        self.age = self.age + ticks;
        let now = self.age as u64;
        if self.cfg.sfx && before < 5 * t && now >= 5 * t {
            self.sfx_pending = true;
        }
        proof {
            assert(self.cfg.end_frame * t <= 0xffff_ffff * 1_000_000u64) by (nonlinear_arith)
                requires
                    self.cfg.end_frame <= 0xffff_ffff,
                    t <= 1_000_000,
            ;
        }
        if now >= self.cfg.end_frame as u64 * t {
            EffectStatus::Dead
        } else {
            EffectStatus::Running
        }
    }

    /// `BodyTime` now, in `1/ticks`, while the body is rolling.
    pub fn body_time(&self) -> (r: Option<u64>)
        requires
            self.wf(),
        ensures
            r matches Some(b) ==> body_time_ticks_spec(self.config(), self.age_spec() as int, self.ticks_spec() as int) == Some(b as int),
            r is None ==> body_time_ticks_spec(self.config(), self.age_spec() as int, self.ticks_spec() as int) is None,
    {
        let t = self.ticks as u64;
        let n = self.age as u64;
        proof {
            assert(self.cfg.start_frame * t <= 0xffff_ffff * 1_000_000u64 && self.cfg.end_frame * t <= 0xffff_ffff * 1_000_000u64) by (nonlinear_arith)
                requires
                    self.cfg.start_frame <= 0xffff_ffff,
                    self.cfg.end_frame <= 0xffff_ffff,
                    t <= 1_000_000,
            ;
        }
        let st = self.cfg.start_frame as u64 * t;
        if n < st || n >= self.cfg.end_frame as u64 * t {
            None
        } else {
            let d: u64 = n - st;
            let sp: u64 = self.cfg.speed as u64;
            proof {
                assert(d * sp <= 0xFFFF_FFFF * 0xFFFF_FFFF) by (nonlinear_arith)
                    requires d <= 0xFFFF_FFFF, sp <= 0xFFFF_FFFF;
            }
            let b: u64 = d * sp;
            if b <= 36 * t { Some(b) } else { None }
        }
    }

/// Hands out the kick sound (at most once).
    pub fn take_sfx_request(&mut self) -> (r: Option<&'static str>)
        ensures
            r == (if old(self).sfx_pending_spec() { Some(KICKING_WAV) } else { None }),
            !final(self).sfx_pending_spec(),
            final(self).config() == old(self).config(),
            final(self).ticks_spec() == old(self).ticks_spec(),
            final(self).age_spec() == old(self).age_spec(),
            old(self).wf() ==> final(self).wf(),
    {
        if self.sfx_pending {
            self.sfx_pending = false;
            Some(KICKING_WAV)
        } else {
            None
        }
    }
}

/// Both rolls sweep the full turn: Spinedbody reaches `BodyTime` 34 on its
/// last frame (17) and Spinedbody2 reaches 35 on its (49), and neither rolls
/// outside its window.
pub proof fn rolls_stay_in_their_windows(frame: int)
    ensures
        body_time_spec(spinedbody_timing(), 17) == Some(34int),
        body_time_spec(spinedbody2_timing(), 49) == Some(35int),
        (frame < 0 || frame >= 18) ==> body_time_spec(spinedbody_timing(), frame) is None,
        (frame < 14 || frame >= 50) ==> body_time_spec(spinedbody2_timing(), frame) is None,
{
}

/// [`SPINEDBODY`] as a value.
pub open spec fn spinedbody_timing() -> SpinConfig {
    SpinConfig { start_frame: 0, end_frame: 18, speed: 2, sfx: false }
}

/// [`SPINEDBODY2`] as a value.
pub open spec fn spinedbody2_timing() -> SpinConfig {
    SpinConfig { start_frame: 14, end_frame: 50, speed: 1, sfx: true }
}

} // verus!
