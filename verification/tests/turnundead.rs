use game::draw::EffectStatus;
use game::spike_burst::{alpha_level, spike_draws, AlphaFraction};
use game::turnundead::{
    halo_at, halo_in_ticks, ring_at, ring_in_ticks, status_at, status_in_ticks, SPIKES, TOTAL_DURATION_MS, TOTAL_FRAMES,
};

#[test]
fn phase1_emits_disc_plus_five_rays() {
    assert!(halo_at(3).is_some(), "one halo disc");
    let p = SPIKES();
    assert_eq!(spike_draws(&p, 0).len(), 5);
    assert!(alpha_level(&p, 3) > 0, "the rays are lit");
    assert_eq!(ring_at(3), None, "ring has not spawned yet");
}

#[test]
fn phase2_ring_appears_and_grows() {
    let (early, _) = ring_at(52).unwrap();
    let (late, _) = ring_at(70).unwrap();
    assert!(late > early, "ring grows {early} -> {late}");
    assert!(ring_at(55).is_some(), "ring visible at frame 55");
}

#[test]
fn dies_after_phase2() {
    assert_eq!(status_at(TOTAL_FRAMES + 1), EffectStatus::Dead);
    assert_eq!(status_at(TOTAL_FRAMES - 1), EffectStatus::Running);
    assert_eq!(TOTAL_DURATION_MS, 1333);
}

#[test]
fn halo_and_ring_sizes_are_exact() {
    // Halo radius in halves: 10 units shrinking to 0 over 20 frames.
    assert_eq!(halo_at(3).map(|h| h.0), Some(17));
    assert_eq!(halo_at(20), None);
    // Ring half-extent in 480ths: 0.75·2 + 0.01875·6 = 1.6125 at its frame 2.
    assert_eq!(ring_at(52).map(|r| r.0), Some(774));
    // At its frame 15 it is 15.75 units.
    assert_eq!(ring_at(65).map(|r| r.0), Some(7560));
    assert_eq!(ring_at(50), None, "the ring rises from zero in its first frame");
    assert_eq!(ring_at(80), None);
}

#[test]
fn half_frames_shrink_the_halo_and_grow_the_ring_exactly() {
    assert_eq!(halo_in_ticks(0, 2), None);
    // Frame 1.5: radius 10·(1 − 1.5/20) = 9.25 (37 quarters), alpha 1.5/6 of the rise.
    assert_eq!(halo_in_ticks(3, 2), Some((37, AlphaFraction { rise: 3, rise_den: 12, fall: 60, fall_den: 60 })));
    assert_eq!(ring_in_ticks(100, 2), None);
    // Ring frame 0.5: 0.5·(1.5·0.5 + 0.0375·0.5·1.5) = 0.3890625 = 747 / 1920.
    assert_eq!(ring_in_ticks(101, 2), Some((747, AlphaFraction { rise: 1, rise_den: 2, fall: 60, fall_den: 60 })));
    assert_eq!(status_in_ticks(159, 2), EffectStatus::Running);
    assert_eq!(status_in_ticks(160, 2), EffectStatus::Dead);
}
