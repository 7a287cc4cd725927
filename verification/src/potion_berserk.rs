//! `EF_POTION_BERSERK` — the berserk potion's rising red sparks over the
//! potion pillar.
//!
//! A spark fires every 4 frames from frame 12 through frame 110 and lives 40
//! frames; the parent lasts 151 frames, so the effect ends at frame 191.
//!
//! This module holds the spark bookkeeping. Time is counted in ticks, a
//! caller-chosen `1/ticks` of a 60 fps frame, so fractional frame counts
//! are kept exactly; whole frames are the case of one tick a frame.
use vstd::prelude::*;
use crate::bursts::{frames_of, live_burst_seq, live_bursts, live_bursts_bounded, train_runs_out};
use crate::draw::EffectStatus;

verus! {

pub const STR_OVERLAY: &'static str = "berserk";
pub const SPARK_TEXTURE: &'static str = "ac_center2.tga";
pub const TEXTURES: [&'static str; 2] = ["ac_center2.tga", "alpha_down.tga"];

/// Parent lifetime in frames.
pub const PARENT_TOTAL_FRAMES: u32 = 151;
/// First spark frame.
pub const SPARK_FIRST_FRAME: u32 = 12;
/// Last frame a spark may fire on.
pub const SPARK_LAST_FRAME: u32 = 110;
/// Frames between two sparks.
pub const SPARK_INTERVAL_FRAMES: u32 = 4;
/// Frames a spark lives.
pub const SPARK_LIFETIME_FRAMES: u32 = 40;
/// Wall-clock length: parent plus one spark lifetime, 191 frames.
pub const TOTAL_DURATION_MS: u32 = (PARENT_TOTAL_FRAMES + SPARK_LIFETIME_FRAMES) * 1000 / 60;

/// Largest tick resolution a potion accepts: the last spark's tick must fit
/// a `u32`.
pub const MAX_TICKS_PER_FRAME: u32 = 20_000_000;

/// Spark clock of one potion: time elapsed in ticks.
pub struct BerserkClock {
    ticks: u32,
    age: u32,
}

impl BerserkClock {
    /// Ticks per frame.
    pub closed spec fn ticks_spec(&self) -> u32 {
        self.ticks
    }

    /// Ticks elapsed.
    pub closed spec fn age_spec(&self) -> u32 {
        self.age
    }

    /// A frame is 1 to 20,000,000 ticks.
    pub closed spec fn wf(&self) -> bool {
        1 <= self.ticks <= MAX_TICKS_PER_FRAME
    }

    /// Spawn ticks of the sparks alive now.
    pub open spec fn spark_spec(&self) -> Seq<int> {
        let t = self.ticks_spec() as int;
        live_burst_seq(SPARK_FIRST_FRAME * t, SPARK_INTERVAL_FRAMES * t, SPARK_LAST_FRAME * t,
            SPARK_LIFETIME_FRAMES * t, self.age_spec() as int, self.age_spec() as int)
    }

    /// A potion at frame 0, counting `ticks` ticks a frame.
    pub fn new_in_ticks(ticks: u32) -> (c: BerserkClock)
        requires
            1 <= ticks <= MAX_TICKS_PER_FRAME,
        ensures
            c.wf(),
            c.ticks_spec() == ticks,
            c.age_spec() == 0,
    {
        BerserkClock { ticks, age: 0 }
    }

    /// A potion at frame 0, counting whole frames.
    pub fn new() -> (c: BerserkClock)
        ensures
            c.wf(),
            c.ticks_spec() == 1,
            c.age_spec() == 0,
    {
        Self::new_in_ticks(1)
    }

    /// Advances by `ticks` ticks; reports `Dead` from frame 191.
    pub fn advance(&mut self, ticks: u32) -> (status: EffectStatus)
        requires
            old(self).wf(),
            old(self).age_spec() + ticks <= u32::MAX,
        ensures
            final(self).wf(),
            final(self).ticks_spec() == old(self).ticks_spec(),
            final(self).age_spec() == old(self).age_spec() + ticks,
            status == (if final(self).age_spec() >= (PARENT_TOTAL_FRAMES + SPARK_LIFETIME_FRAMES) * final(self).ticks_spec() {
                EffectStatus::Dead
            } else {
                EffectStatus::Running
            }),
    {
        self.age = self.age + ticks;
        if self.age as u64 >= 191 * self.ticks as u64 {
            EffectStatus::Dead
        } else {
            EffectStatus::Running
        }
    }

    /// Spawn ticks of the live sparks, oldest first.
    pub fn sparks(&self) -> (v: Vec<u32>)
        requires
            self.wf(),
        ensures
            frames_of(v@) == self.spark_spec(),
    {
        let t = self.ticks;
        live_bursts(SPARK_FIRST_FRAME * t, SPARK_INTERVAL_FRAMES * t, SPARK_LAST_FRAME * t, SPARK_LIFETIME_FRAMES * t,
            self.age, self.age)
    }
}

/// At most ten sparks are alive at once, and the last one has faded well
/// before the effect reports `Dead` (from frame 150 on, none is left).
pub proof fn berserk_sparks_stay_few(c: BerserkClock)
    requires
        c.wf(),
    ensures
        c.spark_spec().len() <= 10,
        c.age_spec() >= (SPARK_LAST_FRAME + SPARK_LIFETIME_FRAMES) * c.ticks_spec() ==> c.spark_spec().len() == 0,
{
    let a = c.age_spec() as int;
    let t = c.ticks_spec() as int;
    live_bursts_bounded(12 * t, 4 * t, 110 * t, 40 * t, a, a);
    assert((40 * t + 4 * t - 1) / (4 * t) <= 10) by (nonlinear_arith)
        requires t >= 1
    {
        vstd::arithmetic::div_mod::lemma_fundamental_div_mod(44 * t - 1, 4 * t);
    }
    if a >= 150 * t {
        train_runs_out(12 * t, 4 * t, 110 * t, 40 * t, a, a);
    }
}

} // verus!
