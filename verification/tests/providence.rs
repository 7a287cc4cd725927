use game::draw::EffectStatus;
use game::providence::{
    alpha_at, alpha_in_ticks, spin_half_deg_at, spin_in_ticks, status_at, status_in_ticks, SLOT_DISTANCE_TENTHS, SLOT_RISE_ANGLE_DEG, STR_OVERLAY, TEXTURE,
    TOTAL_DURATION_MS, TOTAL_FRAMES,
};

#[test]
fn emits_four_flared_rings_and_carries_providence_str() {
    assert_eq!(STR_OVERLAY, "providence");
    assert_eq!(SLOT_DISTANCE_TENTHS.len(), 4, "four-ring funnel");
    assert!(SLOT_RISE_ANGLE_DEG.iter().all(|r| *r < 90), "rings flare outward");
    assert_eq!(TEXTURE, "ring_yellow.tga");
    let mut d = SLOT_DISTANCE_TENTHS;
    d.sort();
    assert_eq!((d[0], d[3]), (60, 75));
}

#[test]
fn alpha_fades_in_then_out_over_lifetime() {
    let a_early = alpha_at(4);
    let a_mid = alpha_at(18);
    assert!(a_mid > a_early, "alpha climbs during fade-in");
    let a_late = alpha_at(TOTAL_FRAMES - 2);
    assert!(a_late < a_mid, "alpha drops during fade-out");
    assert_eq!(a_early, 120 * 30 * 4);
    assert_eq!(a_mid, 120 * 14 * 30);
    assert_eq!(alpha_at(170), 120 * 14 * 30);
    assert_eq!(alpha_at(171), 120 * 14 * 29);
    assert_eq!(a_late, 120 * 14 * 2);
    assert_eq!(alpha_at(TOTAL_FRAMES), 0);
    assert_eq!(spin_half_deg_at(10), 30);
}

#[test]
fn providence_dies_after_parent_duration() {
    let frames = TOTAL_DURATION_MS * 60 / 1000 + 6;
    assert_eq!(status_at(frames), EffectStatus::Dead);
    assert_eq!(status_at(TOTAL_FRAMES - 1), EffectStatus::Running);
}

#[test]
fn half_frames_fade_turn_and_end_exactly() {
    // Frame 3.5 of a 14-frame rise: a quarter of the peak level (840 at half-frame ticks).
    assert_eq!(alpha_in_ticks(7, 2), 120 * 210);
    // Frame 1.5 turns 2.25°, kept as 9 halves of a half-degree.
    assert_eq!(spin_in_ticks(3, 2), 9);
    assert_eq!(status_in_ticks(399, 2), EffectStatus::Running);
    assert_eq!(status_in_ticks(400, 2), EffectStatus::Dead);
}
