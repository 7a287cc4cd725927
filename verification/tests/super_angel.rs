use game::draw::BlendKind;
use game::super_angel::{
    layer_alpha_in_ticks, layer_blend, layer_motion_in_ticks, status_in_ticks, TOTAL_DURATION_MS,
};

#[test]
fn only_the_costume_body_is_alpha_blended() {
    assert_eq!(layer_blend(10), BlendKind::Alpha);
    for f1 in [0u8, 1, 2, 3, 4, 11, 255] {
        assert_eq!(layer_blend(f1), BlendKind::Additive);
    }
}

#[test]
fn angel_duration() {
    assert_eq!(TOTAL_DURATION_MS, 2700);
}

use game::draw::EffectStatus;
use game::super_angel::{
    layer_alpha, layer_motion, status_at, AngelInstance, ANGEL2, ANGEL3, RING_SPAWN_FRAME, SPR_ANGEL,
    SPR_ANGEL_WINGS, SPR_FEATHER, SPR_HANBOK_BODY, SPR_HANBOK_WINGS, TOTAL_FRAMES, WING_BIRTH_FRAMES,
};

fn visible(insts: &[AngelInstance], frame: u32) -> Vec<(AngelInstance, u32)> {
    insts
        .iter()
        .map(|i| (*i, layer_alpha(i.f1, i.birth_frame, frame as i64 - i.birth_frame as i64)))
        .filter(|(_, a)| *a > 0)
        .collect()
}

#[test]
fn angel2_layers_present_with_wing_echo_fan() {
    let insts = ANGEL2().instances();
    assert_eq!(insts.len(), 10);
    let s = visible(&insts, 20);
    let wings = s.iter().filter(|x| x.0.sprite == SPR_ANGEL_WINGS).count();
    assert_eq!(wings, WING_BIRTH_FRAMES.len(), "wing fan of echoes");
    assert!(s.iter().any(|x| x.0.sprite == SPR_ANGEL), "body present");
    assert!(s.iter().any(|x| x.0.sprite == SPR_FEATHER), "feathers present");
    assert!(s.iter().all(|x| layer_blend(x.0.f1) == BlendKind::Additive), "all Angel2 layers are additive");
}

#[test]
fn layers_fade_in_drift_up_and_animate() {
    let alpha_early = layer_alpha(0, 0, 5);
    assert_eq!(layer_motion(0, 5), 0, "animation holds frame 0 for first 30 frames");
    let alpha_late = layer_alpha(0, 0, 50);
    assert!(alpha_late > alpha_early, "angel fades in: {} -> {}", alpha_early, alpha_late);
    assert_eq!((alpha_early, alpha_late), (25, 245));
    assert!(layer_motion(0, 50) > 0, "animation advances past frame 30");
    assert_eq!(layer_motion(0, 50), 6);
}

#[test]
fn ring_flashes_at_frame_65_then_clears() {
    assert_eq!(RING_SPAWN_FRAME, 65);
}

#[test]
fn angel3_uses_hanbok_layers_at_lower_offset() {
    let insts = ANGEL3().instances();
    assert!(insts.iter().all(|i| i.y_offset == -30));
    assert!(ANGEL2().instances().iter().all(|i| i.y_offset == -40));
    let s = visible(&insts, 20);
    assert!(s.iter().any(|x| x.0.sprite == SPR_HANBOK_BODY), "costume body present");
    let wings = s.iter().filter(|x| x.0.sprite == SPR_HANBOK_WINGS).count();
    assert!(wings >= 1 && wings < WING_BIRTH_FRAMES.len(), "only dim wing echoes show");
    assert_eq!(wings, 6);
    let body = s.iter().find(|x| x.0.sprite == SPR_HANBOK_BODY).unwrap();
    assert_eq!(layer_blend(body.0.f1), BlendKind::Alpha, "costume body alpha-blended");
    assert!(s
        .iter()
        .filter(|x| x.0.sprite == SPR_HANBOK_WINGS)
        .all(|x| layer_blend(x.0.f1) == BlendKind::Additive));
}

#[test]
fn effect_self_terminates() {
    assert_eq!(status_at(TOTAL_FRAMES + 1), EffectStatus::Dead);
    assert_eq!(status_at(TOTAL_FRAMES), EffectStatus::Dead);
    assert_eq!(status_at(TOTAL_FRAMES - 1), EffectStatus::Running);
}

#[test]
fn every_layer_has_faded_when_the_angel_dies() {
    for p in [ANGEL2(), ANGEL3()] {
        for i in p.instances() {
            for frame in [TOTAL_FRAMES, TOTAL_FRAMES + 40] {
                assert_eq!(layer_alpha(i.f1, i.birth_frame, frame as i64 - i.birth_frame as i64), 0);
            }
        }
    }
    // The body is still visible one frame earlier than that.
    assert_eq!(layer_alpha(0, 0, 161), 1);
}

#[test]
fn wing_echoes_cap_lower_the_later_they_are_born() {
    assert_eq!(layer_alpha(1, 3, 100), 0);
    assert_eq!(layer_alpha(1, 3, 80), 22);
    assert_eq!(layer_alpha(1, 18, 10), 10);
    assert_eq!(layer_alpha(1, 18, 40), 22);
    assert_eq!(layer_alpha(11, 0, 20), 0);
    assert_eq!(layer_alpha(10, 0, 20), 200);
    assert_eq!(layer_alpha(3, 0, 0), 0);
    assert_eq!(layer_motion(10, 200), 15);
    assert_eq!(layer_motion(2, 200), 29);
}

#[test]
fn half_frames_fade_and_animate_layers_exactly() {
    // The body (F1 0) 1.5 frames in: 7.5, kept as 15 halves.
    assert_eq!(layer_alpha_in_ticks(0, 0, 3, 2), 15);
    // 100.5 frames in: capped at 245, half a frame of the −4 fade: 243.
    assert_eq!(layer_alpha_in_ticks(0, 0, 201, 2), 486);
    assert_eq!(layer_motion_in_ticks(2, 61, 2), 0);
    // 33.5 frames in: one motion every 3 frames after frame 30.
    assert_eq!(layer_motion_in_ticks(2, 67, 2), 1);
    assert_eq!(status_in_ticks(323, 2), game::draw::EffectStatus::Running);
    assert_eq!(status_in_ticks(324, 2), game::draw::EffectStatus::Dead);
}
