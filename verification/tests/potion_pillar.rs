use game::draw::EffectStatus;
use game::potion_pillar::{PotionPillarParams, ALPHA_MAX, ALPHA_RAMP_FRAMES, BERSERK, DEFAULT, TOTAL_DURATION_MS};

#[test]
fn pillar_grows_and_ramps_in_then_fades() {
    let p = DEFAULT();
    let h_early = p.height_at(5);
    let a_early = p.alpha_at(5);
    assert!(h_early > 2000, "pillar lengthens immediately");
    assert_eq!(h_early, 2000 + 20 * 10 * 5 + 30);
    assert!(a_early < ALPHA_MAX * ALPHA_RAMP_FRAMES, "still ramping in at frame 5");
    assert_eq!(p.alpha_at(25), ALPHA_MAX * ALPHA_RAMP_FRAMES, "alpha holds at max");
    assert_eq!(p.alpha_at(45), 2 * 90 * 5);
    assert_eq!(p.alpha_at(50), 0);
}

#[test]
fn dies_at_duration() {
    let p = DEFAULT();
    assert_eq!(p.status_at(p.duration_frames + 6), EffectStatus::Dead);
    assert_eq!(p.status_at(p.duration_frames - 1), EffectStatus::Running);
    assert_eq!(p.duration_ms(), TOTAL_DURATION_MS as u64);
    assert_eq!(BERSERK(), DEFAULT());
    let quick = PotionPillarParams { height_speed_tenths: 19, duration_frames: 30 };
    assert_eq!(quick.duration_ms(), 500);
    assert_eq!(quick.alpha_at(19), 90 * 19);
    assert_eq!(quick.alpha_at(20), 2 * 90 * 10);
}

#[test]
fn half_frames_lengthen_and_fade_exactly() {
    let p = DEFAULT();
    // Frame 1.5: 10 + 1.5 + 0.01·1.5·2.5/2 = 11.51875 = 9215 / 800.
    assert_eq!(p.height_in_ticks(3, 2), 9215);
    // Frame 1.5 of the climb: 6.75 of 255 = 270 / 40.
    assert_eq!(p.alpha_in_ticks(3, 2), 270);
    assert_eq!(p.alpha_in_ticks(60, 2), 3600);
    // Frame 40.5: 90·9.5/10 = 85.5.
    assert_eq!(p.alpha_in_ticks(81, 2), 3420);
    assert_eq!(p.status_in_ticks(99, 2), EffectStatus::Running);
    assert_eq!(p.status_in_ticks(100, 2), EffectStatus::Dead);
}
