//! `EF_SANDWIND` — a drifting sand cloud.
//!
//! The parent fires a sand particle every 3 frames through frame 90; each
//! particle lives 50 frames (ageing by the length of each update) and takes three generator draws for its scatter offset. The effect
//! ends once the parent's window and a particle's life have passed and no
//! particle is left.
use vstd::prelude::*;
use crate::draw::EffectStatus;
use crate::grains::{GrainField, GrainRule};

verus! {

pub const SAND_TEXTURE: &'static str = "sandwind.tga";
pub const TEXTURES: [&'static str; 1] = ["sandwind.tga"];
/// Last frame a particle may fire on.
pub const PARENT_DURATION_FRAMES: u32 = 90;
/// Frames a particle lives.
pub const PARTICLE_DURATION_FRAMES: u32 = 50;
/// Frames between two particles.
pub const SPAWN_INTERVAL_FRAMES: u32 = 3;
/// Wall-clock length: window plus a particle's life, 140 frames.
pub const TOTAL_DURATION_MS: u32 = 2333;

/// The sand cloud's spawn rule.
pub open spec fn sand_rule() -> GrainRule {
    GrainRule { period: 3, parent_frames: 90, life: 50, gated: false }
}

/// A sand cloud whose generator starts at `seed`, counting `ticks` ticks a
/// frame (a tick is a caller-chosen `1/ticks` of a frame).
pub fn sand_cloud_in_ticks(seed: u32, ticks: u32) -> (g: GrainField)
    requires
        1 <= ticks <= 1_000_000,
    ensures
        g.wf(),
        g.rule() == sand_rule(),
        g.ticks_spec() == ticks,
        g.age_spec() == 0,
        g.seed_spec() == seed,
        g.grains_spec().len() == 0,
{
    let rule = GrainRule { period: SPAWN_INTERVAL_FRAMES, parent_frames: PARENT_DURATION_FRAMES,
        life: PARTICLE_DURATION_FRAMES, gated: false };
    assert(rule.life * ticks <= 50_000_000) by (nonlinear_arith)
        requires
            rule.life == 50,
            ticks <= 1_000_000,
    ;
    GrainField::new_in_ticks(rule, seed, ticks)
}

/// A sand cloud whose generator starts at `seed`.
pub fn sand_cloud(seed: u32) -> (g: GrainField)
    ensures
        g.wf(),
        g.rule() == sand_rule(),
        g.ticks_spec() == 1,
        g.age_spec() == 0,
        g.seed_spec() == seed,
        g.grains_spec().len() == 0,
{
    GrainField::new(GrainRule { period: SPAWN_INTERVAL_FRAMES, parent_frames: PARENT_DURATION_FRAMES,
        life: PARTICLE_DURATION_FRAMES, gated: false }, seed)
}

/// Advances a sand cloud by `frames` ticks and reports its status:
/// `Dead` once frame 140 has passed and no particle is left.
pub fn advance_sand(g: &mut GrainField, frames: u32) -> (status: EffectStatus)
    requires
        old(g).wf(),
        old(g).rule() == sand_rule(),
        old(g).age_spec() + frames < u32::MAX,
    ensures
        final(g).wf(),
        final(g).rule() == sand_rule(),
        final(g).ticks_spec() == old(g).ticks_spec(),
        final(g).age_spec() == old(g).age_spec() + frames,
        crate::grains::advanced_by(*old(g), *final(g), frames as int),
        status == (if final(g).age_spec() >= (PARENT_DURATION_FRAMES + PARTICLE_DURATION_FRAMES) * final(g).ticks_spec()
            && final(g).grains_spec().len() == 0 { EffectStatus::Dead } else { EffectStatus::Running }),
{
    if g.advance(frames) { EffectStatus::Dead } else { EffectStatus::Running }
}

/// A sand cloud is always `Dead` from frame 140 on: by then no particle is
/// left.
pub proof fn sand_cloud_ends_at_frame_140(g: GrainField)
    requires
        g.wf(),
        g.rule() == sand_rule(),
        g.age_spec() >= (PARENT_DURATION_FRAMES + PARTICLE_DURATION_FRAMES) * g.ticks_spec(),
    ensures
        g.grains_spec().len() == 0,
{
    crate::grains::grains_run_out(g);
}

} // verus!
