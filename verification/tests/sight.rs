use game::draw::EffectStatus;
use game::sight::{
    total_duration_ms, OrbitClock, PARTICLE2_SPRITE, RUWACH, SHADOW_SPRITE, SIGHT, SIGHT2, SIGHT_SPRITE, SPRITES,
};

fn sprites(c: &OrbitClock) -> Vec<&'static str> {
    (0..c.particle_count()).map(|i| c.sprite_of(i)).collect()
}

#[test]
fn sight_emits_one_pair_per_period_frame_in_orbit() {
    let mut c = OrbitClock::new(SIGHT());
    c.advance(1);
    assert_eq!(c.particle_count(), 2, "exactly two particles per spawn");
    let s = sprites(&c);
    assert!(s.contains(&SIGHT_SPRITE), "upper uses sight sprite");
    assert!(s.contains(&SHADOW_SPRITE), "lower uses shadow sprite");
}

#[test]
fn ruwach_uses_particle2_sprite_and_period_3() {
    let mut c = OrbitClock::new(RUWACH());
    for _ in 0..4 {
        c.advance(1);
    }
    assert!(c.particle_count() >= 4, "two pairs spawned across frames 0 and 3, got {}", c.particle_count());
    assert_eq!(c.particle_count(), 4);
    let used = sprites(&c);
    assert!(used.contains(&PARTICLE2_SPRITE));
    assert!(used.contains(&SHADOW_SPRITE));
    assert!(!used.contains(&SIGHT_SPRITE));
}

#[test]
fn particles_fade_and_die_then_effect_ends() {
    let mut c = OrbitClock::new(SIGHT());
    let total_frames = 162 + 20 + 5;
    let mut status = EffectStatus::Running;
    for _ in 0..total_frames {
        status = c.advance(1);
        if status == EffectStatus::Dead {
            break;
        }
    }
    assert_eq!(status, EffectStatus::Dead);
    assert_eq!(total_duration_ms(&SIGHT()), 3033);
}

#[test]
fn sight2_spawns_single_particle_per_period_no_shadow() {
    let mut c = OrbitClock::new(SIGHT2());
    let status = c.advance(1);
    assert_eq!(c.particle_count(), 1, "single particle, no shadow pair");
    assert_eq!(c.sprite_of(0), SIGHT_SPRITE);
    assert_eq!(status, EffectStatus::Running, "persistent - keeps running");
}

#[test]
fn sight2_particle_runs_out_of_alpha_before_its_life_ends() {
    let mut c = OrbitClock::new(SIGHT2());
    for _ in 0..16 {
        c.advance(1);
    }
    assert_eq!(c.particle(0).age, 16);
    assert_eq!(c.particle(0).alpha_num, 100 - 6 * 16);
    c.advance(1);
    // The frame-0 particle ran out of alpha at age 17 (of 20); the frame-2
    // one is now the oldest.
    assert_eq!(c.particle(0).age, 16);
    assert_eq!(c.particle(0).alpha_num, 4);
}

#[test]
fn ruwach_particles_scale_down_late_in_life() {
    let mut c = OrbitClock::new(RUWACH());
    for _ in 0..20 {
        c.advance(1);
    }
    let p = c.particle(0);
    assert_eq!(p.age, 20);
    // 500 - 6 * 20 = 380 of 510, scaled by 6/6 at age 19.
    assert_eq!(p.alpha_num * 510, 380 * p.alpha_den);
    c.advance(1);
    let p = c.particle(0);
    // (380 - 6) scaled by 5/6.
    assert_eq!(p.alpha_num * 510 * 6, 374 * 5 * p.alpha_den);
    // One big step catches up every spawn it passed.
    let mut big = OrbitClock::new(RUWACH());
    big.advance(7);
    assert_eq!(big.particle_count(), 6);
    assert!(SPRITES.contains(&PARTICLE2_SPRITE));
}
