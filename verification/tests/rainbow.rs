use game::draw::EffectStatus;
use game::rainbow::{
    band_radii, column_alpha, column_alpha_in_ticks, fade_out, lit_columns, status_at, status_in_ticks, ALPHA_SCALE,
    BANDS, BAND_COLORS, FADE_OUT_FRAMES,
    SEGMENTS, SEGMENT_RAMP_FRAMES, SWEEP_FRAMES, TOTAL_FRAMES,
};

#[test]
fn full_arch_has_seven_additive_bands_once_swept() {
    let f = SWEEP_FRAMES + SEGMENT_RAMP_FRAMES + 2;
    assert_eq!(lit_columns(f) * BANDS, 7 * SEGMENTS, "7 bands x all segments now drawn");
    let mut colors: Vec<[u8; 3]> = Vec::new();
    for c in BAND_COLORS {
        if !colors.contains(&c) {
            colors.push(c);
        }
    }
    assert_eq!(colors.len(), 7, "seven spectrum bands");
    assert!(colors.contains(&[255, 0, 0]), "red band");
    assert!(colors.contains(&[255, 0, 255]), "violet/magenta band");
    // Every column has reached the peak.
    for i in 0..SEGMENTS {
        assert_eq!(column_alpha(f, i), 160 * 72 * 50);
    }
}

#[test]
fn sweeps_on_progressively_from_one_foot() {
    let early = lit_columns(SWEEP_FRAMES * 3 / 10);
    let later = lit_columns(SWEEP_FRAMES * 3 / 10 + SWEEP_FRAMES / 2);
    assert!(early > 0, "the leading edge has started drawing: {early}");
    assert!(later > early, "more of the arch is drawn as the front sweeps: {early} -> {later}");
    assert!(early < SEGMENTS, "not the whole arch yet at 30% sweep");
    assert_eq!((early, later), (10, 26));
}

#[test]
fn fades_out_and_dies() {
    let mid = fade_out(TOTAL_FRAMES - FADE_OUT_FRAMES + 1);
    let late = fade_out(TOTAL_FRAMES - FADE_OUT_FRAMES + 1 + FADE_OUT_FRAMES * 8 / 10);
    assert!(late < mid, "arch fades at the tail: {mid} -> {late}");
    assert_eq!((mid, late), (49, 9));
    assert_eq!(status_at(TOTAL_FRAMES * 2), EffectStatus::Dead);
    assert_eq!(status_at(TOTAL_FRAMES - 1), EffectStatus::Running);
    assert_eq!(lit_columns(TOTAL_FRAMES), 0);
}

#[test]
fn a_column_fades_in_behind_the_front() {
    // Column 0's middle is passed at frame 1.25.
    assert_eq!(column_alpha(1, 0), 0);
    assert_eq!(column_alpha(2, 0), 160 * 3 * 50);
    assert_eq!(column_alpha(20, 0), 160 * 72 * 50);
    // Column 31's middle is passed at frame 78.75.
    assert_eq!(column_alpha(78, 31), 0);
    assert_eq!(column_alpha(79, 31), 160 * 1 * 50);
    assert_eq!(column_alpha(150, 31), 160 * 72 * 30);
    assert_eq!(ALPHA_SCALE, 255 * 72 * 50);
    assert_eq!(band_radii(0), (2600, 2470));
    assert_eq!(band_radii(6), (1820, 1690));
}

#[test]
fn half_frames_draw_on_and_fade_exactly() {
    // Column 0's middle is passed at frame 1.25: dark at frame 1, lit at 1.5
    // with a ramp of 1/72.
    assert_eq!(column_alpha_in_ticks(2, 0, 2), 0);
    assert_eq!(column_alpha_in_ticks(3, 0, 2), 160 * 2 * 100);
    // Frame 150: fully ramped, 30 of the 50 fade frames left.
    assert_eq!(column_alpha_in_ticks(300, 0, 2), 160 * 144 * 60);
    assert_eq!(column_alpha_in_ticks(360, 0, 2), 0);
    assert_eq!(status_in_ticks(359, 2), EffectStatus::Running);
    assert_eq!(status_in_ticks(360, 2), EffectStatus::Dead);
}
