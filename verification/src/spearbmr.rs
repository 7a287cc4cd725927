//! `EF_SPEARBMR` — Spear Boomerang's projectile barrage on the target.
//!
//! Four spears launch at frames 0, 4, 8 and 12, each flying from caster to
//! target in 15 frames at decreasing alpha (255 / 180 / 130 / 80); a spear's
//! sprite advances one motion every 2 frames. The effect ends when the last
//! spear lands, at frame 27.
//!
//! This module holds the barrage schedule on whole 60 fps frames. Every
//! edge of it (a launch, a landing, a motion change) falls on a whole
//! frame, so the truncated frame count decides the same way the fractional
//! one does; the flight path (a lerp between two float points along the
//! fractional time) is the renderer's.
use vstd::prelude::*;
use crate::draw::EffectStatus;

verus! {

pub const SPEAR_SPRITE: &'static str = "data/sprite/\u{c774}\u{d329}\u{d2b8}/\u{cc3d}";
/// Frames a spear takes to reach the target.
pub const FLIGHT_FRAMES: u32 = 15;
/// Launch frames of the four spears.
pub const SPAWN_FRAMES: [u32; 4] = [0, 4, 8, 12];
/// Alphas of the four spears, `0..=255` units.
pub const ALPHAS: [u32; 4] = [255, 180, 130, 80];
/// Frames per sprite motion.
pub const ANIM_FRAMES_PER_MOTION: u32 = 2;
/// Frame on which the effect ends: the last launch plus a flight.
pub const TOTAL_FRAMES: u32 = 27;
/// Wall-clock length, ms.
pub const TOTAL_DURATION_MS: u32 = 450;

/// One airborne spear on a given frame.
#[derive(Clone, Copy, Debug, PartialEq, Eq, Structural)]
pub struct SpearState {
    /// Which of the four spears.
    pub index: u32,
    /// Frames since it launched, `0..15`.
    pub local_frame: u32,
    /// Sprite motion index.
    pub motion: u32,
    /// Alpha, `0..=255` units.
    pub alpha: u32,
}

/// Spear `i`'s state on frame `frame`, if it is airborne.
pub open spec fn spear_at(i: int, frame: int) -> Option<SpearState> {
    let spawn = 4 * i;
    let local = frame - spawn;
    if 0 <= local < FLIGHT_FRAMES {
        Some(SpearState {
            index: i as u32,
            local_frame: local as u32,
            motion: (local / 2) as u32,
            alpha: if i == 0 { 255u32 } else if i == 1 { 180u32 } else if i == 2 { 130u32 } else { 80u32 },
        })
    } else {
        None
    }
}

/// The airborne spears among the first `n` on frame `frame`, in launch order.
pub open spec fn spears_upto(frame: int, n: nat) -> Seq<SpearState>
    decreases n,
{
    if n == 0 {
        Seq::empty()
    } else {
        let prev = spears_upto(frame, (n - 1) as nat);
        match spear_at(n - 1, frame) {
            Some(s) => prev.push(s),
            None => prev,
        }
    }
}

/// The airborne spears on whole frame `frame`, in launch order.
pub fn airborne_spears(frame: u32) -> (v: Vec<SpearState>)
    ensures
        v@ == spears_upto(frame as int, 4),
{
    let mut v: Vec<SpearState> = Vec::new();
    let mut i: u32 = 0;
    while i < 4
        invariant
            i <= 4,
            v@ == spears_upto(frame as int, i as nat),
        decreases 4 - i,
    {
        let spawn = SPAWN_FRAMES[i as usize];
        if frame >= spawn && frame - spawn < FLIGHT_FRAMES {
            let local = frame - spawn;
            let s = SpearState { index: i, local_frame: local, motion: local / ANIM_FRAMES_PER_MOTION, alpha: ALPHAS[i as usize] };
            v.push(s);
        }
        i = i + 1;
    }
    v
}

/// `Dead` from frame 27.
pub fn status_at(frame: u32) -> (s: EffectStatus)
    ensures
        s == (if frame >= TOTAL_FRAMES { EffectStatus::Dead } else { EffectStatus::Running }),
{
    if frame >= TOTAL_FRAMES { EffectStatus::Dead } else { EffectStatus::Running }
}

/// Every spear lands before the effect ends, and from frame 12 through 14
/// all four are airborne at once.
pub proof fn barrage_lands_in_time(i: int, frame: int)
    requires
        0 <= i < 4,
    ensures
        frame >= TOTAL_FRAMES ==> spear_at(i, frame) is None,
        12 <= frame <= 14 ==> spear_at(i, frame) is Some,
{
}

} // verus!
