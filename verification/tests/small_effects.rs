use game::draw::{BlendKind, EffectStatus};
use game::slash::{slice_shape, SliceShape, EMITTERS_PER_SET, KAIZEL, SLICES};
use game::soullink::SoulLight;
use game::spearbmr::{airborne_spears, status_at as spear_status, TOTAL_DURATION_MS as SPEAR_MS};
use game::spinedbody::{SpinedBodyClock, KICKING_WAV, SPINEDBODY, SPINEDBODY2};
use game::taeready::{
    flash_alpha, flash_alpha_in_ticks, status_at as tae_status, status_in_ticks as tae_status_in_ticks, FLASH_COPIES,
    FLASH_TINT,
};
use game::thunderstorm2::{
    middle_index, middle_index_in_ticks, status_at as thunder_status, status_in_ticks as thunder_status_in_ticks,
    strike_alpha_in_ticks, strike_alpha_thirds, strike_layers, BOLT_SIZE, MIDDLE_TEXTURES, STAR_TEXTURE,
    TOP_TEXTURE,
};

#[test]
fn spinedbody_rolls_immediately_at_double_speed() {
    let mut e = SpinedBodyClock::new(SPINEDBODY());
    assert_eq!(e.body_time(), Some(0));
    e.advance(9);
    assert_eq!(e.body_time(), Some(18), "half a turn at frame 9");
    assert_eq!(e.advance(10), EffectStatus::Dead);
    assert_eq!(e.take_sfx_request(), None);
}

#[test]
fn spinedbody2_is_delayed_and_slower() {
    let mut e = SpinedBodyClock::new(SPINEDBODY2());
    e.advance(10);
    assert_eq!(e.body_time(), None, "no roll before frame 14");
    assert_eq!(e.take_sfx_request(), Some(KICKING_WAV));
    assert_eq!(e.take_sfx_request(), None);
    e.advance(10);
    assert_eq!(e.body_time(), Some(6));
    assert_eq!(e.advance(29), EffectStatus::Running);
    assert_eq!(e.advance(1), EffectStatus::Dead);
}

#[test]
fn blue_flash_ramps_holds_fades_as_two_additive_copies() {
    assert_eq!(flash_alpha(0), None);
    assert_eq!(flash_alpha(5), Some(75));
    assert_eq!(flash_alpha(15), Some(160));
    assert_eq!(flash_alpha(35), Some(80));
    assert_eq!(flash_alpha(51), None);
    assert_eq!(FLASH_COPIES, 2);
    assert_eq!(FLASH_TINT, [5, 5, 255]);
    assert_eq!(tae_status(49), EffectStatus::Running);
    assert_eq!(tae_status(50), EffectStatus::Dead);
}

#[test]
fn staggers_spears_then_all_in_flight() {
    assert_eq!(airborne_spears(1).len(), 1);
    let all = airborne_spears(13);
    assert_eq!(all.len(), 4);
    assert_eq!(all[0].local_frame, 13);
    assert_eq!(all[0].motion, 6);
    assert_eq!(all[3].alpha, 80);
    assert_eq!(airborne_spears(20).len(), 2);
    assert!(airborne_spears(27).is_empty());
    assert_eq!(spear_status(27), EffectStatus::Dead);
    assert_eq!(SPEAR_MS, 450);
}

#[test]
fn thunder_strikes_every_nine_frames() {
    assert_eq!(strike_alpha_thirds(0), 3);
    assert_eq!(strike_alpha_thirds(2), 3);
    assert_eq!(strike_alpha_thirds(3), 2);
    assert_eq!(strike_alpha_thirds(4), 1);
    assert_eq!(strike_alpha_thirds(7), 0, "dark between strikes");
    assert_eq!(strike_alpha_thirds(9), 3);
    let seen: Vec<&str> = (0..3).map(|k| MIDDLE_TEXTURES[middle_index(1 + 9 * k)]).collect();
    assert_eq!(seen, MIDDLE_TEXTURES.to_vec());
    assert_eq!(thunder_status(200), EffectStatus::Dead);
}

#[test]
fn alpha_ramps_in_then_out_and_effect_dies() {
    let p = KAIZEL();
    assert_eq!(2 * EMITTERS_PER_SET * SLICES, 24);
    assert_eq!(p.alpha_b(1), 5);
    assert_eq!(p.alpha_b(7), 35);
    assert_eq!(p.alpha_b(10), 33);
    assert_eq!(p.alpha_b(26), 1);
    assert_eq!(p.alpha_b(27), 0);
    assert_eq!(p.status_at(26), EffectStatus::Running);
    assert_eq!(p.status_at(27), EffectStatus::Dead);
    assert_eq!(p.total_duration_ms(), 442);
    assert!(p.distance(8) + p.radius(8) > p.distance(2) + p.radius(2));
    assert_eq!(p.max_height_tenths(2), 23);
    assert_eq!(p.max_height_tenths(20), 40);
}

#[test]
fn soul_light_alpha_ramps_then_drains() {
    let mut l = SoulLight::new();
    l.update(3);
    assert_eq!(l.alpha(), 60);
    l.update(9);
    assert_eq!(l.alpha(), 60, "no change between frames 11 and 170");
    let mut m = SoulLight::new();
    for _ in 0..12 {
        m.update(1);
    }
    assert_eq!(m.alpha(), 200);
    let mut frames = 12;
    while !m.is_done() {
        m.update(1);
        frames += 1;
    }
    assert_eq!(frames, 210);
}

#[test]
fn spear_travels_from_caster_toward_target() {
    let early = airborne_spears(2);
    let later = airborne_spears(8);
    assert!(later[0].local_frame > early[0].local_frame, "spear advances along its flight");
}

#[test]
fn dies_after_last_spear_lands() {
    assert_eq!(spear_status(27 + 1), EffectStatus::Dead);
}

#[test]
fn goes_dark_between_strikes() {
    assert_eq!(strike_alpha_thirds(7), 0, "no draws while dark between strikes");
}

#[test]
fn middle_segment_advances_each_strike() {
    let seen: Vec<&str> = (0..MIDDLE_TEXTURES.len() as u32).map(|k| MIDDLE_TEXTURES[middle_index(1 + 9 * k)]).collect();
    assert_eq!(seen, MIDDLE_TEXTURES.to_vec());
}

#[test]
fn thunderstorm2_dies_after_parent_duration() {
    assert_eq!(thunder_status(199), EffectStatus::Running);
    assert_eq!(thunder_status(200 + 6), EffectStatus::Dead);
}

#[test]
fn eight_blades_three_slices_each() {
    assert_eq!(2 * EMITTERS_PER_SET * SLICES, 24);
}

#[test]
fn soullink_self_terminates() {
    let mut l = SoulLight::new();
    for _ in 0..1200 {
        l.update(1);
    }
    assert!(l.is_done());
}

#[test]
fn blade_grows_outward_and_rises() {
    let p = KAIZEL();
    let early_out = p.radius(2) + p.distance(2);
    let late_out = p.radius(8) + p.distance(8);
    assert!(late_out > early_out, "blade flies outward: {early_out} -> {late_out}");
    // Middle slice's outer top is lifted above its outer bottom.
    assert!(slice_shape(1).lift_outer_tenths as u64 * p.max_height_tenths(8) > 0, "outer edge rises");
}

#[test]
fn middle_slice_brighter_than_outer_slices() {
    let p = KAIZEL();
    assert!(p.alpha_b(4) > 0);
    let outer0 = slice_shape(0).alpha_thirds;
    let middle = slice_shape(1).alpha_thirds;
    let outer2 = slice_shape(2).alpha_thirds;
    assert!(middle > outer0 && middle > outer2, "middle slice is the bright one");
    assert_eq!(
        slice_shape(2),
        SliceShape { azimuth_offset_deg: 1, alpha_thirds: 1, lift_inner_tenths: 1, lift_outer_tenths: 4 }
    );
}

#[test]
fn strike_stacks_flash_and_two_bolt_segments_as_additive_billboards() {
    // The strike snaps on at full brightness at age 0.
    let layers = strike_layers(0);
    assert_eq!(layers.len(), 3, "flash + middle + top");
    for l in &layers {
        assert_eq!(l.blend, BlendKind::Additive);
    }
    // Flash at ground, middle above it, top highest: its centre sits one and
    // a half bolt sides up.
    assert!(layers.iter().any(|l| l.lift_halves == 0), "flash at ground");
    let top = layers.iter().map(|l| l.lift_halves).max().unwrap();
    assert_eq!(top as f32 * BOLT_SIZE as f32 / 2.0, BOLT_SIZE as f32 * 1.5, "top segment sits 1.5 sides up");
    assert_eq!(layers[0].texture, STAR_TEXTURE);
    assert_eq!(layers[1].texture, MIDDLE_TEXTURES[0]);
    assert_eq!(layers[2].texture, TOP_TEXTURE);
    assert!(strike_layers(7).is_empty(), "dark between strikes");
}

#[test]
fn taeready_half_frames_ramp_hold_and_fade_exactly() {
    // Frame 5.5: 15·5.5 = 82.5, kept as 165 halves.
    assert_eq!(flash_alpha_in_ticks(11, 2), Some(165));
    // Frame 10.5 holds at 160.
    assert_eq!(flash_alpha_in_ticks(21, 2), Some(320));
    // Frame 45.5: 155 − 25.5·5 = 27.5.
    assert_eq!(flash_alpha_in_ticks(91, 2), Some(55));
    assert_eq!(flash_alpha_in_ticks(0, 2), None);
    assert_eq!(tae_status_in_ticks(99, 2), EffectStatus::Running);
    assert_eq!(tae_status_in_ticks(100, 2), EffectStatus::Dead);
}

#[test]
fn thunderstorm2_half_frames_fade_each_strike_exactly() {
    assert_eq!(strike_alpha_in_ticks(3, 2), 6);
    // Frame 3.5: (5 − 3.5) / 3 = half brightness, 3 sixths.
    assert_eq!(strike_alpha_in_ticks(7, 2), 3);
    assert_eq!(strike_alpha_in_ticks(10, 2), 0);
    // Frame 9.5 is half a frame into the second strike.
    assert_eq!(strike_alpha_in_ticks(19, 2), 6);
    assert_eq!(middle_index_in_ticks(19, 2), 1);
    assert_eq!(thunder_status_in_ticks(399, 2), EffectStatus::Running);
    assert_eq!(thunder_status_in_ticks(400, 2), EffectStatus::Dead);
}

#[test]
fn soul_light_half_frame_updates_ramp_and_drain_exactly() {
    let mut l = SoulLight::new_in_ticks(2);
    l.update(5);
    // 2.5 frames at +20: 50, kept as 100 halves.
    assert_eq!(l.alpha(), 100);
    l.update(15);
    assert_eq!(l.alpha(), 400);
    l.update(320);
    assert_eq!(l.alpha(), 400, "held through frame 170");
    l.update(3);
    // 1.5 frames of drain: 200 − 7.5.
    assert_eq!(l.alpha(), 385);
    assert!(!l.is_done());
    l.update(77);
    assert_eq!(l.alpha(), 0);
    assert!(l.is_done());
}

#[test]
fn spinedbody_half_frames_roll_and_kick_exactly() {
    let mut a = SpinedBodyClock::new_in_ticks(SPINEDBODY(), 2);
    a.advance(9);
    // Frame 4.5 at double speed: BodyTime 9, kept as 18 halves.
    assert_eq!(a.body_time(), Some(18));
    let mut b = SpinedBodyClock::new_in_ticks(SPINEDBODY2(), 2);
    b.advance(9);
    assert_eq!(b.take_sfx_request(), None);
    b.advance(1);
    assert_eq!(b.take_sfx_request(), Some(KICKING_WAV));
    assert_eq!(b.advance(19), EffectStatus::Running);
    // Frame 14.5: half a BodyTime into the roll.
    assert_eq!(b.body_time(), Some(1));
    assert_eq!(b.advance(70), EffectStatus::Running);
    assert_eq!(b.advance(1), EffectStatus::Dead);
    assert_eq!(b.body_time(), None);
}

#[test]
fn kaizel_half_frames_grow_and_fade_blades_exactly() {
    let p = KAIZEL();
    // Frame 1.5: alpha 7.5, radius 2.5, length 5, height 2.1 (all in halves).
    assert_eq!(p.alpha_in_ticks(3, 2), 15);
    assert_eq!(p.shape_in_ticks(3, 2), (5, 10, 42));
    // Frame 10.5: peak 35 less 1.5 frames of the −2 fade.
    assert_eq!(p.alpha_in_ticks(21, 2), 64);
    // The fade runs out at frame 9 + 35/2 = 26.5.
    assert_eq!(p.status_in_ticks(52, 2), EffectStatus::Running);
    assert_eq!(p.status_in_ticks(53, 2), EffectStatus::Dead);
}
