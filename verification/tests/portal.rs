use game::draw::EffectStatus;
use game::portal::{
    cylinder_alpha, cylinder_alpha_in_ticks, cylinder_turns, cylinders_drawn, status_at, CYL_FADE_IN_FRAMES,
    RING_TEXTURE, TEXTURES,
    TOTAL_DURATION_MS,
};

#[test]
fn cylinder_alpha_ramps_to_max() {
    assert_eq!(cylinder_alpha(0), 0);
    assert_eq!(cylinder_alpha(CYL_FADE_IN_FRAMES), CYL_FADE_IN_FRAMES);
    assert_eq!(cylinder_alpha(60), CYL_FADE_IN_FRAMES);
}

#[test]
fn columns_turn_at_their_own_rates_and_never_end() {
    assert_eq!(cylinder_turns(30), (120, 150));
    assert!(!cylinders_drawn(0));
    assert!(cylinders_drawn(1));
    assert_eq!(cylinder_alpha(3), 3);
    assert_eq!(status_at(100_000), EffectStatus::Running);
    assert_eq!(TEXTURES, [RING_TEXTURE]);
    assert_eq!(TOTAL_DURATION_MS, 99990);
}

#[test]
fn half_frames_ramp_the_columns_exactly() {
    // Frame 2.5 of the 6-frame ramp: 5 of 12 halves of the peak.
    assert_eq!(cylinder_alpha_in_ticks(5, 2), 5);
    assert_eq!(cylinder_alpha_in_ticks(12, 2), 12);
    assert_eq!(cylinder_alpha_in_ticks(100, 2), 12);
    // Turns at frame 2.5: 10° and 12.5°, in halves of a degree.
    assert_eq!(cylinder_turns(5), (20, 25));
}
