use game::draw::EffectStatus;
use game::twilight::{
    alpha_at, alpha_in_ticks, status_at, status_in_ticks, DURATION_FRAMES, ICON_COUNT, MAX_ALPHA, TWILIGHT3,
};

#[test]
fn swarm_scatters_around_anchor_with_texture_variety() {
    let t3 = TWILIGHT3();
    let textures: std::collections::BTreeSet<&str> = (0..ICON_COUNT).map(|i| t3.texture_for(i)).collect();
    assert_eq!(ICON_COUNT, 160);
    assert_eq!(textures.len(), 3);
}

#[test]
fn alpha_fades_in_holds_then_out() {
    let a_start = alpha_at(1);
    let a_mid = alpha_at(60);
    let a_end = alpha_at(DURATION_FRAMES - 5);
    assert!(a_start < a_mid, "fades in: {a_start} < {a_mid}");
    assert!(a_end < a_mid, "fades out: {a_end} < {a_mid}");
    assert_eq!((a_start, a_mid, a_end), (5, MAX_ALPHA, 25));
}

#[test]
fn icons_drift_and_effect_self_terminates() {
    assert_eq!(status_at(80 + DURATION_FRAMES), EffectStatus::Dead);
    assert_eq!(status_at(DURATION_FRAMES), EffectStatus::Dead);
    assert_eq!(status_at(DURATION_FRAMES - 1), EffectStatus::Running);
}

#[test]
fn swarm_alpha_profile() {
    assert_eq!(alpha_at(0), 0);
    assert_eq!(alpha_at(49), 245);
    assert_eq!(alpha_at(50), 250);
    assert_eq!(alpha_at(130), 250);
    assert_eq!(alpha_at(131), 245);
    assert_eq!(alpha_at(179), 5);
    assert_eq!(alpha_at(180), 0);
    assert_eq!(alpha_at(u32::MAX), 0);
    for f in 1..DURATION_FRAMES {
        assert!(alpha_at(f) > 0 && alpha_at(f) <= MAX_ALPHA);
    }
}

#[test]
fn half_frames_fade_exactly() {
    // Frame 2.5: 12.5, kept as 25 halves.
    assert_eq!(alpha_in_ticks(5, 2), 25);
    assert_eq!(alpha_in_ticks(200, 2), 500);
    // Frame 150: 250 − 5·20 = 150.
    assert_eq!(alpha_in_ticks(300, 2), 300);
    assert_eq!(alpha_in_ticks(360, 2), 0);
    assert_eq!(status_in_ticks(359, 2), EffectStatus::Running);
    assert_eq!(status_in_ticks(360, 2), EffectStatus::Dead);
}
