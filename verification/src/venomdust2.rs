//! `EF_VENOMDUST2` — the lingering poison dust cloud.
//!
//! A persistent emitter: on every fifth frame (0, 5, 10, …) it releases a fan
//! of three `particle3` motes, each living 10 frames. A mote's alpha starts at
//! 70 of 255 and climbs evenly to full over its first 7 frames, holds through
//! frame 8, and falls evenly to nothing at frame 10; it animates one motion
//! frame every 2 frames. The cloud never ends by itself.
//!
//! Motes are keyed by their birth tick so the cloud replays identically: mote
//! `m` of tick `b` has id `7·b + m` (wrapping), which the renderer hashes into
//! its heading and speed. Alphas here are kept exactly in units of 1/3570
//! (`255 · 14`).
use vstd::prelude::*;
use crate::bursts::{live_bursts, live_burst_seq, frames_of, live_seq_membership, live_bursts_bounded};
use crate::draw::EffectStatus;

verus! {

/// The mote sprite.
pub const DUST_SPRITE: &'static str = "data/sprite/\u{c774}\u{d329}\u{d2b8}/particle3";
/// Every sprite the cloud draws.
pub const SPRITES: [&'static str; 1] = [DUST_SPRITE];
/// Frames between two fans.
pub const SPAWN_EVERY: u32 = 5;
/// Frames a mote lives.
pub const PARTICLE_LIFE: u32 = 10;
/// Motes per fan.
pub const MOTES_PER_TICK: u32 = 3;
/// Full alpha, in 1/3570 units.
pub const FULL_ALPHA_3570: u32 = 3570;

/// Spawn frames of the fans alive on frame `frame`, oldest first.
pub open spec fn live_ticks_spec(frame: int) -> Seq<int> {
    live_burst_seq(0, SPAWN_EVERY as int, frame, PARTICLE_LIFE as int, frame, frame)
}

/// Spawn frames of the fans alive on frame `frame`, oldest first.
pub fn live_ticks(frame: u32) -> (v: Vec<u32>)
    requires
        frame + SPAWN_EVERY <= u32::MAX,
    ensures
        frames_of(v@) == live_ticks_spec(frame as int),
        forall|f: int| #[trigger] frames_of(v@).contains(f)
            <==> (0 <= f <= frame && f % (SPAWN_EVERY as int) == 0 && frame - f < PARTICLE_LIFE),
{
    live_bursts(0, SPAWN_EVERY, frame, PARTICLE_LIFE, frame, frame)
}

/// Motes drawn on frame `frame`: three per live fan.
pub fn particle_count(frame: u32) -> (r: u32)
    requires
        frame + SPAWN_EVERY <= u32::MAX,
    ensures
        r == MOTES_PER_TICK * live_ticks_spec(frame as int).len(),
{
    let ticks = live_ticks(frame);
    proof {
        live_bursts_bounded(0, SPAWN_EVERY as int, frame as int, PARTICLE_LIFE as int, frame as int, frame as int);
        assert(frames_of(ticks@).len() == ticks@.len());
    }
    MOTES_PER_TICK * ticks.len() as u32
}

/// Alpha of a mote `local` frames after its birth, 1/3570 units: `980`
/// (70 of 255) rising `370` per frame to full at frame 7, full through frame
/// 8, then `1785` less per frame to 0 at frame 10.
pub open spec fn mote_alpha_spec(local: int) -> int {
    if local < 0 || local >= PARTICLE_LIFE {
        0
    } else if local < 7 {
        980 + 370 * local
    } else if local < 8 {
        FULL_ALPHA_3570 as int
    } else {
        1785 * (PARTICLE_LIFE - local)
    }
}

/// Alpha of a mote `local` frames after its birth, 1/3570 units.
pub fn mote_alpha(local: u32) -> (r: u32)
    ensures
        r == mote_alpha_spec(local as int),
        r <= FULL_ALPHA_3570,
{
    if local >= PARTICLE_LIFE {
        0
    } else if local < 7 {
        980 + 370 * local
    } else if local < 8 {
        FULL_ALPHA_3570
    } else {
        1785 * (PARTICLE_LIFE - local)
    }
}

/// Motion frame of a mote `local` frames after its birth.
pub fn mote_motion(local: u32) -> (r: u32)
    ensures
        r == local / 2,
{
    local / 2
}

/// Ids of the three motes of the fan born on tick `birth_idx` (frame
/// `5 · birth_idx`): `7 · birth_idx + m`, wrapping.
pub fn mote_ids(birth_idx: u32) -> (r: [u32; 3])
    ensures
        forall|m: int| 0 <= m < 3 ==> #[trigger] r@[m] as int == (7 * birth_idx as int + m) % 0x1_0000_0000,
{
    let base = birth_idx.wrapping_mul(7);
    let ghost m32: int = 0x1_0000_0000;
    proof {
        vstd::arithmetic::div_mod::lemma_mod_bound(7 * birth_idx as int, m32);
        assert(birth_idx as nat * 7nat == 7 * birth_idx as int);
        assert(base as int == (7 * birth_idx as int) % m32);
    }
    let r = [base, base.wrapping_add(1), base.wrapping_add(2)];
    proof {
        assert forall|m: int| 0 <= m < 3 implies #[trigger] r@[m] as int == (7 * birth_idx as int + m) % m32 by {
            vstd::arithmetic::div_mod::lemma_add_mod_noop(7 * birth_idx as int, m, m32);
            vstd::arithmetic::div_mod::lemma_small_mod(m as nat, m32 as nat);
            if base as int + m >= m32 {
                vstd::arithmetic::div_mod::lemma_mod_multiples_vanish(1, base as int + m - m32, m32);
                vstd::arithmetic::div_mod::lemma_small_mod((base as int + m - m32) as nat, m32 as nat);
            } else {
                vstd::arithmetic::div_mod::lemma_small_mod((base as int + m) as nat, m32 as nat);
            }
        }
    }
    r
}

/// The cloud is persistent: it reports `Running` on every frame.
pub fn status_at(frame: u32) -> (s: EffectStatus)
    ensures
        s == EffectStatus::Running,
{
    EffectStatus::Running
}

/// However long the emitter runs, one or two fans are alive on every frame:
/// the cloud is never empty and never piles up.
pub proof fn cloud_stays_bounded(frame: int)
    requires
        frame >= 0,
    ensures
        1 <= live_ticks_spec(frame).len() <= 2,
{
    live_bursts_bounded(0, SPAWN_EVERY as int, frame, PARTICLE_LIFE as int, frame, frame);
    let g = frame - frame % 5;
    live_seq_membership(0, SPAWN_EVERY as int, frame, PARTICLE_LIFE as int, frame, frame, g);
    assert(g % 5 == 0) by {
        vstd::arithmetic::div_mod::lemma_fundamental_div_mod(frame, 5);
        vstd::arithmetic::div_mod::lemma_mod_multiples_basic(frame / 5, 5);
        assert(g == 5 * (frame / 5));
        assert(5 * (frame / 5) == (frame / 5) * 5) by (nonlinear_arith);
    }
    assert(live_ticks_spec(frame).contains(g));
}

/// A mote fades in from 70 of 255 and never outshines full alpha; it has
/// faded out completely when its life ends.
pub proof fn mote_fades_out_at_end_of_life(local: int)
    ensures
        0 <= mote_alpha_spec(local) <= FULL_ALPHA_3570,
        mote_alpha_spec(0) == 980,
        local >= PARTICLE_LIFE ==> mote_alpha_spec(local) == 0,
        0 <= local < PARTICLE_LIFE ==> mote_alpha_spec(local) > 0,
{
}

} // verus!
