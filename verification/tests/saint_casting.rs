use game::draw::{BlendKind, EffectStatus};
use game::saint_casting::{
    ConeDraw, SaintCastingConfig, SaintCastingEffect, TOTAL_DURATION_MS, TOTAL_EMITTERS, TOTAL_FRAMES,
};

fn test_config() -> SaintCastingConfig {
    SaintCastingConfig {
        texture: "ring_test.tga",
        pass_textures: None,
        max_heights: [17, 18, 19, 20],
        blend: BlendKind::Additive,
        refill_per_frame: 10,
        reset_rise_deg: 74,
    }
}

fn cones(e: &SaintCastingEffect) -> Vec<ConeDraw> {
    (0..TOTAL_EMITTERS).filter_map(|i| e.cone(i)).collect()
}

fn height(c: &ConeDraw) -> f64 {
    (c.rise_deg as f64).to_radians().sin() * c.max_height as f64
}

fn top(c: &ConeDraw) -> f64 {
    c.distance as f64 / 100.0 + (c.rise_deg as f64).to_radians().cos() * c.max_height as f64
}

fn widest_top(cs: &[ConeDraw]) -> f64 {
    cs.iter().map(top).fold(0.0, f64::max)
}

fn tallest(cs: &[ConeDraw]) -> f64 {
    cs.iter().map(height).fold(0.0, f64::max)
}

#[test]
fn cone_expands_in_breadth_and_collapses_vertically() {
    let mut e = SaintCastingEffect::new(test_config());
    e.advance(4);
    let early = cones(&e);
    e.advance(40);
    let late = cones(&e);
    assert!(widest_top(&late) > widest_top(&early) * 2.0, "top width must more than double");
    assert!(tallest(&late) < tallest(&early), "vertical height must collapse as rise angle drops");
}

#[test]
fn no_vertical_center_pillar() {
    let mut e = SaintCastingEffect::new(test_config());
    for _ in 0..TOTAL_FRAMES {
        assert!(tallest(&cones(&e)) < 25.0, "no emitter is tall enough to read as a center pillar");
        e.advance(1);
    }
}

#[test]
fn cone_does_not_rotate_around_its_axis() {
    let mut e = SaintCastingEffect::new(test_config());
    for _ in 0..TOTAL_FRAMES {
        for c in cones(&e) {
            assert!([180, 270, 0, 90].contains(&c.rot_start_deg), "rotation must match an initial azimuth");
        }
        e.advance(1);
    }
}

#[test]
fn spawns_eight_emitters_once_the_cascade_is_up() {
    let mut e = SaintCastingEffect::new(test_config());
    e.advance(18);
    assert_eq!(cones(&e).len(), 8);
}

#[test]
fn emitters_start_staggered_and_fade_in_from_zero() {
    let mut e = SaintCastingEffect::new(test_config());
    assert_eq!(cones(&e).len(), 0, "everything fades in — frame 0 is empty");
    e.advance(4);
    let early = cones(&e).len();
    e.advance(14);
    let late = cones(&e).len();
    assert!(early > 0 && early < 8, "only the lead emitters are up: {early}");
    assert_eq!(late, 8, "the whole cascade is up by frame 18");
}

#[test]
fn first_cone_pulses_through_reset_refill_and_drain() {
    let mut e = SaintCastingEffect::new(test_config());
    e.advance(1);
    // First active frame: empty past the threshold, so it snaps back to 3.37.
    let m = e.emitter(0);
    assert_eq!((m.distance, m.rise_deg, m.alpha, m.process), (337, 74, 0, 1));
    e.advance(9);
    // Frame 10: base at exactly 4.00, out of the refill window: eight
    // refills, then the first drain.
    let m = e.emitter(0);
    assert_eq!((m.distance, m.rise_deg, m.alpha), (400, 65, 77));
    e.advance(1);
    let m = e.emitter(0);
    assert_eq!((m.distance, m.alpha), (407, 74));
    // Drained at its frame 36, too late to reset: dark from then on.
    e.advance(29);
    assert_eq!(e.emitter(0).alpha, 0);
    assert_eq!(e.emitter(0).distance, 337 + 7 * 39);
    assert!(e.cone(0).is_none());
}

#[test]
fn aura_blade_pulses_twice() {
    let cfg = SaintCastingConfig { refill_per_frame: 5, reset_rise_deg: 64, ..test_config() };
    let mut e = SaintCastingEffect::new(cfg);
    e.advance(23);
    // 40 alpha drains by 3 from frame 10 and hits 0 on frame 23, before 26.
    let m = e.emitter(0);
    assert_eq!((m.distance, m.rise_deg, m.alpha), (337, 64, 0));
    e.advance(1);
    assert_eq!(e.emitter(0).alpha, 5);
}

#[test]
fn additive_alpha_is_attenuated_by_the_refill_rate() {
    let mut e = SaintCastingEffect::new(test_config());
    e.advance(2);
    let c = e.cone(0).unwrap();
    assert_eq!((c.alpha, c.alpha_den), (10, 510));
    assert_eq!(c.wave_phase_deg, 2);
    let cfg = SaintCastingConfig { blend: BlendKind::Alpha, refill_per_frame: 40, ..test_config() };
    let mut e = SaintCastingEffect::new(cfg);
    e.advance(10);
    let c = e.cone(0).unwrap();
    assert_eq!((c.alpha, c.alpha_den), (255, 255), "alpha-blended cones clamp at full");
}

#[test]
fn pass_textures_pick_each_pass() {
    let cfg = SaintCastingConfig { pass_textures: Some(["white.tga", "yellow.tga"]), ..test_config() };
    let mut e = SaintCastingEffect::new(cfg);
    e.advance(20);
    assert_eq!(e.cone(0).unwrap().texture, "white.tga");
    assert_eq!(e.cone(4).unwrap().texture, "yellow.tga");
    assert_eq!(e.emitter(7).wave_base_deg, 270);
    assert_eq!(e.emitter(6).max_height, 19);
}

#[test]
fn parent_expires_after_56_frames() {
    let mut e = SaintCastingEffect::new(test_config());
    assert_eq!(e.advance(55), EffectStatus::Running);
    assert_eq!(e.advance(1), EffectStatus::Dead);
    assert_eq!(TOTAL_DURATION_MS, 933);
    e.advance(1);
    assert!(cones(&e).is_empty(), "nothing is drawn past the parent's life");
}
