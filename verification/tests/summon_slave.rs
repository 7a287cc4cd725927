use game::draw::EffectStatus;
use game::spike_burst::{alive, alpha_level, spike_draws};
use game::summon_slave::{
    smoke_at, smoke_in_ticks, status_at, status_in_ticks, SMOKE_START_FRAME, SPIKES, TOTAL_DURATION_MS, TOTAL_FRAMES,
};

#[test]
fn twenty_spikes_at_frame_zero_no_smoke_yet() {
    let p = SPIKES();
    assert_eq!(spike_draws(&p, 0).len(), 20, "all 20 radial spikes live early");
    assert!(alive(&p, 5) && alpha_level(&p, 5) > 0);
    assert_eq!(smoke_at(5), None, "smoke only erupts at frame 35");
}

#[test]
fn smoke_erupts_after_frame_35_once_spikes_are_gone() {
    let p = SPIKES();
    assert!(!alive(&p, 42), "spikes die by frame 40");
    assert!(smoke_at(42).is_some(), "one smoke poof sprite plays after frame 35");
    assert_eq!(smoke_at(SMOKE_START_FRAME - 1), None);
    assert_eq!(smoke_at(SMOKE_START_FRAME), Some((0, 17)));
}

#[test]
fn smoke_poof_animates_and_effect_terminates() {
    let (early, _) = smoke_at(40).unwrap();
    let (later, _) = smoke_at(50).unwrap();
    assert!(later > early, "smoke animation frame advances over time: {early} -> {later}");
    assert_eq!(status_at(TOTAL_FRAMES + 2), EffectStatus::Dead);
    assert_eq!(status_at(TOTAL_FRAMES - 1), EffectStatus::Running);
}

#[test]
fn smoke_fades_over_the_back_third_in_seventeenths() {
    assert_eq!(smoke_at(35 + 33), Some((16, 17)));
    assert_eq!(smoke_at(35 + 34), Some((17, 16)));
    assert_eq!(smoke_at(35 + 49), Some((24, 1)));
    assert_eq!(smoke_at(35 + 50), None);
    assert_eq!(TOTAL_DURATION_MS, 1416);
}

#[test]
fn half_frames_animate_and_fade_the_smoke_exactly() {
    assert_eq!(smoke_in_ticks(69, 2), None);
    assert_eq!(smoke_in_ticks(70, 2), Some((0, 34)));
    // 34.5 frames into the smoke: motion 17, fade (50 − 34.5)/17.
    assert_eq!(smoke_in_ticks(139, 2), Some((17, 31)));
    assert_eq!(smoke_in_ticks(170, 2), None);
    assert_eq!(status_in_ticks(169, 2), EffectStatus::Running);
    assert_eq!(status_in_ticks(170, 2), EffectStatus::Dead);
}
