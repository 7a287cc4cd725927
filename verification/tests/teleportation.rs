use game::draw::EffectStatus;
use game::teleportation::{
    beam_at, beam_in_ticks, status_at, status_in_ticks, visible_at, visible_in_ticks, BeamShape, BOTTOM_RADIUS, DURATION_FRAMES, RING_TEXTURE,
    TEXTURES,
};

#[test]
fn emits_a_blue_ring_frustum_starting_as_a_cylinder() {
    assert!(visible_at(1));
    let b = beam_at(1);
    // The top is only just narrower than the bottom ring.
    assert!(b.top_radius_61 < 61 * BOTTOM_RADIUS as u64 && b.top_radius_61 > 0);
    assert_eq!(b.top_radius_61, 240);
    assert_eq!(RING_TEXTURE, "ring_blue.tga");
    assert_eq!(TEXTURES, [RING_TEXTURE]);
}

#[test]
fn top_narrows_while_bottom_stays_and_height_grows_with_alpha_fading() {
    let early = beam_at(5);
    let mid = beam_at(30);
    assert!(mid.top_radius_61 < early.top_radius_61, "top narrows");
    assert!(mid.height_eighths > early.height_eighths, "height grows");
    assert!(mid.alpha_60 < early.alpha_60, "alpha fades");
    assert_eq!(early.height_eighths, 40 * 5 + 5 * 6);
    assert_eq!(mid.height_eighths, 40 * 30 + 30 * 31);
    assert_eq!((early.alpha_60, mid.alpha_60), (55, 30));
    assert_eq!(mid.spin_deg, 60);
}

#[test]
fn effect_dies_after_sixty_frames() {
    assert_eq!(status_at(DURATION_FRAMES - 1), EffectStatus::Running);
    assert_eq!(status_at(DURATION_FRAMES), EffectStatus::Dead);
    assert!(!visible_at(DURATION_FRAMES));
    assert!(!visible_at(0));
    assert_eq!(beam_at(200).alpha_60, 0);
    assert_eq!(beam_at(200).top_radius_61, 0);
}

#[test]
fn half_frames_grow_narrow_fade_and_spin_exactly() {
    // Frame 1.5: 5·1.5 + 1.5·2.5/8 = 7.96875 high (255 / 32), top
    // 4 − 4·1.5/61 (476 / 122), alpha 58.5/60 (117 / 120), spin 3° (6 / 2).
    assert_eq!(
        beam_in_ticks(3, 2),
        BeamShape { den: 2, height_eighths: 255, top_radius_61: 476, alpha_60: 117, spin_deg: 6 }
    );
    assert!(visible_in_ticks(1, 2) && !visible_in_ticks(120, 2));
    assert_eq!(status_in_ticks(119, 2), EffectStatus::Running);
    assert_eq!(status_in_ticks(120, 2), EffectStatus::Dead);
}
