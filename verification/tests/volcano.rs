use game::draw::EffectStatus;
use game::volcano::{
    emitter_ring, emitter_ring_in_ticks, VolcanoParams, ALPHA_MAX, DELUGE, GANBANTEIN, GUMGANG3, LANDPROTECTOR, NUM_EMITTERS, VIOLENTGALE, VOLCANO};

#[test]
fn volcano_durations() {
    assert_eq!(LANDPROTECTOR().total_duration_ms(), 1833);
    assert_eq!(GANBANTEIN().total_duration_ms(), 1000);
    assert_eq!(GUMGANG3().total_duration_ms(), 2000);
    assert!(GANBANTEIN().total_duration_ms() < LANDPROTECTOR().total_duration_ms());
}

#[test]
fn each_variant_emits_four_emitters_with_its_texture() {
    assert_eq!(NUM_EMITTERS, 4);
    let t: Vec<&str> = [LANDPROTECTOR(), VOLCANO(), DELUGE(), VIOLENTGALE(), GANBANTEIN(), GUMGANG3()]
        .iter()
        .map(|p| p.texture)
        .collect();
    assert_eq!(t, vec!["ring_white.tga", "ring_red.tga", "ring_blue.tga", "magic_green.tga", "ring_white.tga", "ring_yellow.tga"]);
}

#[test]
fn gumgang3_ramps_up_slower_than_landprotector() {
    assert_eq!(LANDPROTECTOR().alpha_at(5), (2000, 20));
    assert_eq!(GUMGANG3().alpha_at(5), (500, 10));
}

#[test]
fn alpha_peaks_then_fades_to_zero_at_the_end() {
    let p = LANDPROTECTOR();
    assert_eq!(p.alpha_at(0), (0, 20));
    assert_eq!(p.alpha_at(10), (4000, 20));
    assert_eq!(p.alpha_at(60), (2000, 20));
    assert_eq!(p.alpha_at(109), (40, 20));
    assert_eq!(p.alpha_at(110), (0, 20));
    assert_eq!(p.status_at(109), EffectStatus::Running);
    assert_eq!(p.status_at(110), EffectStatus::Dead);
}

#[test]
fn flames_lean_toward_40_degrees() {
    assert_eq!(LANDPROTECTOR().rise_angle_at(0), 60);
    assert_eq!(LANDPROTECTOR().rise_angle_at(15), 45);
    assert_eq!(LANDPROTECTOR().rise_angle_at(30), 40);
    assert_eq!(GANBANTEIN().rise_angle_at(5), 47);
}

#[test]
fn ganbantein_has_shorter_burst_than_landprotector() {
    assert!(GANBANTEIN().total_duration_ms() < LANDPROTECTOR().total_duration_ms());
}

#[test]
fn alpha_ramps_up_then_down() {
    let p = LANDPROTECTOR();
    let a_early = p.alpha_at(0).0;
    let a_peak = p.alpha_at(10).0;
    let a_late = p.alpha_at(10 + 100 * 8 / 10).0;
    assert!(a_peak > a_early, "ramping up: {a_early} -> {a_peak}");
    assert!(a_late < a_peak, "fading down: {a_peak} -> {a_late}");
    assert_eq!(a_peak, ALPHA_MAX as u64 * 20);
}

#[test]
fn effect_dies_after_visible_burst() {
    let p = LANDPROTECTOR();
    assert_eq!(p.status_at(p.visible_frames().unwrap() + 1), EffectStatus::Dead);
}

#[test]
fn ring_grows_and_rotates_over_time() {
    let p = LANDPROTECTOR();
    let f0 = 1;
    let f1 = f0 + p.visible_frames().unwrap() / 2;
    assert!(p.alpha_at(f0).0 > 0 && p.alpha_at(f1).0 > 0, "both frames are drawn");
    let (r0, rot0) = emitter_ring(0, f0);
    let (r1, rot1) = emitter_ring(0, f1);
    assert!(r1 > r0, "innermost ring should grow over time");
    assert!(rot1 > rot0, "rotation should advance over time");
}

#[test]
fn emitters_are_staggered_out_and_around() {
    // 1.5 + 0.25·3 = 2.25 units and 270° at frame 0; 0.1 and 3° more per frame.
    assert_eq!(emitter_ring(3, 0), (45, 270));
    assert_eq!(emitter_ring(1, 10), (55, 120));
}

#[test]
fn ramps_that_do_not_divide_the_peak_end_mid_frame() {
    let p = VolcanoParams { texture: "ring_red.tga", initial_rise_angle_deg: 60, alpha_ramp_up_per_frame: 30, alpha_ramp_down_per_frame: 7 };
    // Ramp-up ends at frame 6⅔; 200 − ⅓·7 = 197⅔ (5930/30) on frame 7.
    assert_eq!(p.alpha_at(6), (5400, 30));
    assert_eq!(p.alpha_at(7), (5930, 30));
    assert_eq!(p.alpha_at(35), (50, 30));
    assert_eq!(p.alpha_at(36), (0, 30));
    assert_eq!(p.visible_frames(), Some(36));
    assert_eq!(p.status_at(35), EffectStatus::Running);
    assert_eq!(p.status_at(36), EffectStatus::Dead);
    assert_eq!(p.total_duration_ms(), 587);
    assert_eq!(LANDPROTECTOR().visible_frames(), Some(110));
}

#[test]
fn a_zero_ramp_never_ends() {
    let p = VolcanoParams { texture: "ring_red.tga", initial_rise_angle_deg: 60, alpha_ramp_up_per_frame: 0, alpha_ramp_down_per_frame: 2 };
    assert_eq!(p.alpha_at(100), (0, 1));
    assert_eq!(p.visible_frames(), None);
    assert_eq!(p.status_at(u32::MAX), EffectStatus::Running);
    assert_eq!(p.total_duration_ms(), u32::MAX);
    let q = VolcanoParams { alpha_ramp_up_per_frame: 20, alpha_ramp_down_per_frame: 0, ..p };
    assert_eq!(q.alpha_at(500), (4000, 20));
    assert_eq!(q.status_at(500), EffectStatus::Running);
}

#[test]
fn half_frames_ramp_fade_lean_and_turn_exactly() {
    let p = VOLCANO();
    // Frame 2.5 of the climb at 20 a frame: 50 = 2000 / 40.
    assert_eq!(p.alpha_in_ticks(5, 2), (2000, 40));
    // Frame 10.5: half a frame into the fall at 2 a frame: 199.
    assert_eq!(p.alpha_in_ticks(21, 2), (7960, 40));
    // The span ends at frame 10 + 100.
    assert_eq!(p.status_in_ticks(219, 2), EffectStatus::Running);
    assert_eq!(p.status_in_ticks(220, 2), EffectStatus::Dead);
    // Lean at frame 1.5: 58.5°, never below 40°.
    assert_eq!(p.rise_angle_in_ticks(3, 2), 117);
    assert_eq!(p.rise_angle_in_ticks(100, 2), 80);
    // Emitter 1 at frame 1.5: radius 1.75 + 0.15 = 76 / 40, turn 94.5°.
    assert_eq!(emitter_ring_in_ticks(1, 3, 2), (76, 189));
}
