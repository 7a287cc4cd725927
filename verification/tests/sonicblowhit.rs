use game::draw::EffectStatus;
use game::sonicblowhit::{
    alpha_at, alpha_in_ticks, slide_at, slide_in_ticks, status_at, status_in_ticks, RING_TEXTURE, TOTAL_DURATION_MS,
};

#[test]
fn emits_single_cylinder_at_spawn_and_dies_at_12_frames() {
    assert_eq!(alpha_at(1), 6);
    assert_eq!(RING_TEXTURE, "magic_red.tga");
    assert_eq!(status_at(1), EffectStatus::Running);
    assert_eq!(status_at(1 + TOTAL_DURATION_MS * 60 / 1000), EffectStatus::Dead);
    assert_eq!(status_at(12), EffectStatus::Dead);
}

#[test]
fn cone_slides_decelerating_and_fades_in_the_second_half() {
    let slides: Vec<u32> = (0..12).map(slide_at).collect();
    assert_eq!(slides[0], 0);
    assert_eq!(slides[1], 46);
    assert_eq!(slides[11], 48 * 11 - 11 * 12);
    for w in slides.windows(2) {
        assert!(w[1] > w[0]);
    }
    let alphas: Vec<u32> = (0..13).map(alpha_at).collect();
    assert_eq!(alphas, vec![6, 6, 6, 6, 6, 6, 6, 5, 4, 3, 2, 1, 0]);
}

#[test]
fn half_frames_slide_and_fade_exactly() {
    // Frame 1.5: 0.4·(1.5 − 1.5·2.5/48) = 0.56875, kept as 273 / 480.
    assert_eq!(slide_in_ticks(3, 2), 273);
    assert_eq!(alpha_in_ticks(3, 2), 12);
    // Frame 6.5: (12 − 6.5) / 6 = 11 / 12.
    assert_eq!(alpha_in_ticks(13, 2), 11);
    assert_eq!(alpha_in_ticks(24, 2), 0);
    assert_eq!(status_in_ticks(23, 2), EffectStatus::Running);
    assert_eq!(status_in_ticks(24, 2), EffectStatus::Dead);
}
