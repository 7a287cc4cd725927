//! `EF_INCAGILITY` / `EF_DECAGILITY` / `EF_INCAGIDEX` — stat-buff streaks.
//!
//! While the parent is within its 60-frame window, it fires a streak every 2
//! frames; each streak lives 50 frames (ageing by each update's length) and
//! takes three generator draws for its longitude, radius and length. Streaks
//! fire only on updates that end inside the window. The effect ends once
//! the window and a streak's life have passed and no streak is left. The
//! variants differ only in float motion and tint, which are the renderer's.
use vstd::prelude::*;
use crate::draw::EffectStatus;
use crate::grains::{GrainField, GrainRule};

verus! {

pub const STREAK_TEXTURE: &'static str = "ac_center2.tga";
pub const TEXTURES: [&'static str; 1] = ["ac_center2.tga"];
/// Parent window in frames.
pub const PARENT_DURATION_FRAMES: u32 = 60;
/// Frames between two streaks.
pub const SPAWN_PERIOD_FRAMES: u32 = 2;
/// Frames a streak lives.
pub const PARTICLE_DURATION_FRAMES: u32 = 50;
/// Wall-clock length: window plus a streak's life, 110 frames.
pub const TOTAL_DURATION_MS: u32 = 1833;

/// The buff's spawn rule.
pub open spec fn streak_rule() -> GrainRule {
    GrainRule { period: 2, parent_frames: 60, life: 50, gated: true }
}

/// A buff whose generator starts at `seed`, counting `ticks` ticks a
/// frame (a tick is a caller-chosen `1/ticks` of a frame).
pub fn status_streaks_in_ticks(seed: u32, ticks: u32) -> (g: GrainField)
    requires
        1 <= ticks <= 1_000_000,
    ensures
        g.wf(),
        g.rule() == streak_rule(),
        g.ticks_spec() == ticks,
        g.age_spec() == 0,
        g.seed_spec() == seed,
        g.grains_spec().len() == 0,
{
    let rule = GrainRule { period: SPAWN_PERIOD_FRAMES, parent_frames: PARENT_DURATION_FRAMES,
        life: PARTICLE_DURATION_FRAMES, gated: true };
    assert(rule.life * ticks <= 50_000_000) by (nonlinear_arith)
        requires
            rule.life == 50,
            ticks <= 1_000_000,
    ;
    GrainField::new_in_ticks(rule, seed, ticks)
}

/// A buff whose generator starts at `seed`.
pub fn status_streaks(seed: u32) -> (g: GrainField)
    ensures
        g.wf(),
        g.rule() == streak_rule(),
        g.ticks_spec() == 1,
        g.age_spec() == 0,
        g.seed_spec() == seed,
        g.grains_spec().len() == 0,
{
    GrainField::new(GrainRule { period: SPAWN_PERIOD_FRAMES, parent_frames: PARENT_DURATION_FRAMES,
        life: PARTICLE_DURATION_FRAMES, gated: true }, seed)
}

/// Advances a buff by `frames` ticks and reports its status: `Dead`
/// once frame 110 has passed and no streak is left.
pub fn advance_streaks(g: &mut GrainField, frames: u32) -> (status: EffectStatus)
    requires
        old(g).wf(),
        old(g).rule() == streak_rule(),
        old(g).age_spec() + frames < u32::MAX,
    ensures
        final(g).wf(),
        final(g).rule() == streak_rule(),
        final(g).ticks_spec() == old(g).ticks_spec(),
        final(g).age_spec() == old(g).age_spec() + frames,
        crate::grains::advanced_by(*old(g), *final(g), frames as int),
        status == (if final(g).age_spec() >= (PARENT_DURATION_FRAMES + PARTICLE_DURATION_FRAMES) * final(g).ticks_spec()
            && final(g).grains_spec().len() == 0 { EffectStatus::Dead } else { EffectStatus::Running }),
{
    if g.advance(frames) { EffectStatus::Dead } else { EffectStatus::Running }
}

/// A buff is always `Dead` from frame 110 on: by then no streak is left.
pub proof fn streaks_end_at_frame_110(g: GrainField)
    requires
        g.wf(),
        g.rule() == streak_rule(),
        g.age_spec() >= (PARENT_DURATION_FRAMES + PARTICLE_DURATION_FRAMES) * g.ticks_spec(),
    ensures
        g.grains_spec().len() == 0,
{
    crate::grains::grains_run_out(g);
}

} // verus!
