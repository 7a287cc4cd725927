use game::draw::EffectStatus;
use game::texture_falling::{
    lead_alpha, lead_alpha_in_ticks, lead_y_in_ticks, total_duration_ms, FallingTrailClock, TEXTURES, TEXTURE_FALLING,
    TRAIL_LEN,
};

#[test]
fn lead_descends_from_above_toward_the_anchor() {
    let mut c = FallingTrailClock::new(TEXTURE_FALLING());
    c.advance(1);
    c.advance(20);
    // The newest entry is first.
    let p = TEXTURE_FALLING();
    let y_late = game::texture_falling::lead_y(&p, 21);
    let y_early = game::texture_falling::lead_y(&p, 1);
    assert!(y_early < 0, "starts above the anchor: {y_early}");
    assert!(y_late > y_early, "descends over time: {y_early} -> {y_late}");
    assert_eq!((y_early, y_late), (31 - 1200, 31 * 21 - 1200));
}

#[test]
fn builds_a_fading_trail_of_up_to_four_stamps() {
    let mut c = FallingTrailClock::new(TEXTURE_FALLING());
    for _ in 0..12 {
        c.advance(1);
    }
    let alphas = c.stamp_alphas();
    assert_eq!(alphas.len(), TRAIL_LEN, "lead + 3 ghosts");
    for w in alphas.windows(2) {
        assert!(w[0] > w[1], "trail alpha decays: {alphas:?}");
    }
    assert_eq!(alphas, vec![2000, 1000, 750, 500]);
}

#[test]
fn fades_in_then_out_and_dies() {
    let p = TEXTURE_FALLING();
    let mut c = FallingTrailClock::new(p);
    c.advance(1);
    let a_in = lead_alpha(&p, 1);
    c.advance(p.fade_in_frames);
    let a_peak = lead_alpha(&p, 1 + p.fade_in_frames);
    assert!(a_in < a_peak, "fades in: {a_in} -> {a_peak}");
    assert_eq!(a_peak, (p.peak_alpha * p.fade_in_frames) as u64);
    let status = c.advance(72);
    assert_eq!(status, EffectStatus::Dead);
    assert_eq!(lead_alpha(&p, 83), 0, "fully faded by death");
    assert_eq!(total_duration_ms(&p), 1200);
    assert_eq!(TEXTURES, ["sword.bmp"]);
}

#[test]
fn ends_exactly_when_the_fade_runs_out() {
    let p = TEXTURE_FALLING();
    let mut c = FallingTrailClock::new(p);
    assert_eq!(c.advance(71), EffectStatus::Running);
    assert_eq!(lead_alpha(&p, 71), 5 * 10);
    assert_eq!(c.advance(1), EffectStatus::Dead);
    assert_eq!(lead_alpha(&p, 72), 0);
    assert!(c.stamp_alphas().is_empty());
}

#[test]
fn half_frames_fall_fade_and_end_exactly() {
    let p = TEXTURE_FALLING();
    // Frame 1.5: −12 + 0.31·1.5 = −11.535, kept as −2307 / 200.
    assert_eq!(lead_y_in_ticks(&p, 3, 2), -2307);
    // Frame 1.5 of the 10-frame fade-in: 30 = 600 / 20.
    assert_eq!(lead_alpha_in_ticks(&p, 3, 2), 600);
    // Frame 33.5: 1.5 frames of the −5 fade, 192.5 = 3850 / 20.
    assert_eq!(lead_alpha_in_ticks(&p, 67, 2), 3850);
    let mut c = FallingTrailClock::new_in_ticks(p, 2);
    assert_eq!(c.advance(3), EffectStatus::Running);
    assert_eq!(c.stamp_alphas(), vec![600]);
    assert_eq!(c.advance(140), EffectStatus::Running);
    // The fade runs out at frame 32 + 200/5 = 72.
    assert_eq!(c.advance(1), EffectStatus::Dead);
    assert!(c.stamp_alphas().is_empty());
}
