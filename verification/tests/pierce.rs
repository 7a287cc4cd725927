use game::draw::EffectStatus;
use game::pierce::{PierceRing, cylinder_radii, particles_for_burst, PierceClock, TOTAL_DURATION_MS};

#[test]
fn level_is_clamped() {
    let mut c = PierceClock::new_with_level(0);
    c.advance(100);
    assert_eq!(c.hits(), 1);
    let mut c = PierceClock::new_with_level(50);
    c.advance(1000);
    assert_eq!(c.hits(), 10);
}

#[test]
fn hits_every_20_frames_up_to_level() {
    let mut c = PierceClock::new_with_level(3);
    assert_eq!(c.hits(), 1);
    assert_eq!(c.rings(), vec![0]);
    c.advance(20);
    assert_eq!(c.hits(), 2);
    assert_eq!(c.rings(), vec![20]);
    c.advance(20);
    assert_eq!(c.hits(), 3);
    c.advance(20);
    assert_eq!(c.hits(), 3);
    assert!(c.rings().is_empty());
}

#[test]
fn ends_45_frames_after_last_hit() {
    let mut c = PierceClock::new();
    assert_eq!(c.advance(44), EffectStatus::Running);
    assert_eq!(c.advance(1), EffectStatus::Dead);
    let mut c = PierceClock::new_with_level(10);
    assert_eq!(c.advance(224), EffectStatus::Running);
    assert_eq!(c.advance(1), EffectStatus::Dead);
    assert_eq!(TOTAL_DURATION_MS, 3750);
}

#[test]
fn rings_grow_and_particles_follow_the_first_hit() {
    assert_eq!(cylinder_radii(0), (11, 6));
    assert_eq!(cylinder_radii(3), (17, 12));
    assert_eq!(particles_for_burst(0), 0);
    assert_eq!(particles_for_burst(1), 8);
}

use game::pierce::PARTICLES_PER_DIR;

#[test]
fn level_n_emits_n_cylinders_with_first_skipping_particles() {
    let mut c = PierceClock::new_with_level(3);
    c.advance(1);
    assert_eq!(c.rings().len(), 1);
    assert_eq!(c.hits(), 1);
    assert_eq!(particles_for_burst(0), 0, "first burst has no particles");
    c.advance(20);
    assert_eq!(c.hits(), 2);
    assert_eq!(c.rings(), vec![20]);
    assert_eq!(particles_for_burst(1), 2 * PARTICLES_PER_DIR, "burst #2 spawned 8 particles");
}

#[test]
fn dies_after_last_burst_finishes() {
    let mut c = PierceClock::new();
    let total_frames = TOTAL_DURATION_MS * 60 / 1000;
    assert_eq!(c.advance(total_frames + 30), EffectStatus::Dead);
}

#[test]
fn rings_hold_then_fade_over_their_second_half() {
    let mut c = PierceClock::new_with_level(3);
    c.advance(23);
    let r = c.ring_draws();
    assert_eq!(r.len(), 1);
    assert_eq!(r[0], PierceRing { burst_idx: 1, outer: 13, inner: 8, alpha_num: 15, travel_num: 60 * 3 - 12 });
    c.advance(5);
    assert_eq!(c.ring_draws()[0].alpha_num, 14, "local frame 8: (15 − 8) / 7.5");
    c.advance(6);
    assert_eq!(c.ring_draws()[0].alpha_num, 2, "local frame 14");
    c.advance(1);
    assert!(c.ring_draws().is_empty(), "the ring is gone after 15 frames");
}

#[test]
fn fractional_frames_fade_rings_exactly() {
    // Half-frame ticks: the second hit's ring at frame 27.5 is 7.5 frames
    // old, where its fade begins; at 28 it is at (15 − 8)/7.5 of full.
    let mut c = PierceClock::new_in_ticks(3, 2);
    c.advance(55);
    let r = c.ring_draws();
    assert_eq!(r.len(), 1);
    assert_eq!((r[0].burst_idx, r[0].alpha_num), (1, 30));
    // Slide 0.7·(7.5 − 7.5·8.5/60), in 1/(60·4) of 0.7 units.
    assert_eq!(r[0].travel_num, 60 * 15 * 2 - 15 * 17);
    c.advance(1);
    assert_eq!(c.ring_draws()[0].alpha_num, 28);
    assert_eq!(c.hits(), 2);
    c.advance(2 * 85 - 56 - 1);
    assert_eq!(c.advance(1), EffectStatus::Dead);
}
