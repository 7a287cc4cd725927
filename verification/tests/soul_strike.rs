use game::draw::EffectStatus;
use game::soul_strike::{
    angle_config, bolt_spawn_frame, motion_index, roll_angle_deg, static_sprite, trail_segment, Bolt, BoltSchedule,
    SoulStrikeEffect, NUM_SEGMENT, TOTAL_DURATION_MS,
};

#[test]
fn angle_spread_for_5_hits() {
    let mut angles: Vec<f32> = (0..5).map(|i| roll_angle_deg(5, i) as f32).collect();
    angles.sort_by(|a, b| a.partial_cmp(b).unwrap());
    angles.dedup();
    assert_eq!(angles.len(), 5, "5-hit should produce 5 distinct angles");
    assert_eq!(angles, vec![-45.0, 0.0, 45.0, 90.0, 135.0]);
}

#[test]
fn angle_config_table() {
    assert_eq!(angle_config(1), (0, 1));
    assert_eq!(angle_config(2), (-90, 180));
    assert_eq!(angle_config(3), (-90, 90));
    assert_eq!(angle_config(4), (-90, 60));
    assert_eq!(angle_config(5), (-90, 45));
    assert_eq!(angle_config(0), (-90, 45));
    assert_eq!(angle_config(200), (-90, 45));
}

#[test]
fn roll_angles_for_each_hit_count() {
    assert_eq!(roll_angle_deg(1, 0), 1);
    assert_eq!(roll_angle_deg(2, 0), 90);
    assert_eq!(roll_angle_deg(2, 1), 270);
    assert_eq!(roll_angle_deg(3, 2), 180);
    assert_eq!(roll_angle_deg(4, 3), 150);
}

#[test]
fn bolt_spawn_frames_follow_the_formula() {
    let frames: Vec<u32> = (0..5).map(bolt_spawn_frame).collect();
    assert_eq!(frames, vec![6, 17, 28, 39, 50]);
}

#[test]
fn total_duration_is_100_frames() {
    assert_eq!(TOTAL_DURATION_MS, 1666);
}

#[test]
fn bolt_spawn_timing_matches_formula() {
    let mut s = BoltSchedule::new(3);
    for _ in 0..5 {
        assert!(s.tick().is_empty());
    }
    assert_eq!(s.launched_count(), 0, "no bolts before frame 6");
    assert_eq!(s.tick(), vec![0]);
    assert_eq!(s.launched_count(), 1, "first bolt launches at frame 6");
    for _ in 0..11 {
        s.tick();
    }
    assert_eq!(s.launched_count(), 2, "second bolt by frame 17");
    for _ in 0..11 {
        s.tick();
    }
    assert_eq!(s.launched_count(), 3, "all 3 bolts by frame 28");
    assert!(s.all_launched());
}

#[test]
fn bolt_count_matches_hit_count() {
    for count in 1..=5u8 {
        let mut s = BoltSchedule::new(count);
        let mut launched = Vec::new();
        for _ in 0..60 {
            launched.extend(s.tick());
        }
        assert_eq!(s.launched_count(), count);
        assert_eq!(launched, (0..count).collect::<Vec<u8>>());
    }
}

#[test]
fn hit_count_is_clamped_to_one_through_five() {
    let mut zero = BoltSchedule::new(0);
    let mut many = BoltSchedule::new(9);
    for _ in 0..100 {
        zero.tick();
        many.tick();
    }
    assert_eq!(zero.launched_count(), 1);
    assert_eq!(many.launched_count(), 5);
}

#[test]
fn trail_emits_12_segments_per_bolt() {
    let mut e = SoulStrikeEffect::new(1, true);
    for _ in 0..20 {
        e.tick();
    }
    assert_eq!(e.sprite_count(), NUM_SEGMENT as usize, "12 segments per bolt");
    let lead = trail_segment(0).1;
    let tail = trail_segment(NUM_SEGMENT - 1).1;
    assert!(lead.0 * tail.1 > tail.0 * lead.1, "lead segment bigger than tail");
}

#[test]
fn effect_dies_after_all_bolts_complete() {
    let mut e = SoulStrikeEffect::new(3, true);
    let mut status = EffectStatus::Running;
    for _ in 0..200 {
        status = e.tick();
        if status == EffectStatus::Dead {
            break;
        }
    }
    assert_eq!(status, EffectStatus::Dead);
}

#[test]
fn static_fallback_renders_single_sprite_then_dies() {
    let mut e = SoulStrikeEffect::new(1, false);
    assert_eq!(e.sprite_count(), 1);
    let mut status = EffectStatus::Running;
    for _ in 0..120 {
        status = e.tick();
        if status == EffectStatus::Dead {
            break;
        }
    }
    assert_eq!(status, EffectStatus::Dead);
}

#[test]
fn volley_retires_each_bolt_after_40_frames_and_ends_on_its_last() {
    let mut e = SoulStrikeEffect::new(3, true);
    for _ in 0..20 {
        e.tick();
    }
    // Bolt 0 launched on frame 6, bolt 1 on frame 17.
    assert_eq!(e.bolt_count(), 2);
    assert_eq!(e.bolt(0), Bolt { index: 0, frames: 14 });
    assert_eq!(e.bolt(1), Bolt { index: 1, frames: 3 });
    for _ in 20..47 {
        e.tick();
    }
    // Frame 47: bolt 0 retired after flying 40 frames.
    assert_eq!(e.bolt(0).index, 1);
    let mut frame = 47;
    loop {
        let s = e.tick();
        frame += 1;
        if s == EffectStatus::Dead {
            break;
        }
    }
    assert_eq!(frame, 11 * 3 + 36, "ends on the frame its last bolt retires");
    assert_eq!(e.bolt_count(), 0);
}

#[test]
fn fallback_sprite_fades_over_its_last_18_frames() {
    assert_eq!(static_sprite(0), (18, 150, 0));
    assert_eq!(static_sprite(41), (18, 191, 10));
    assert_eq!(static_sprite(51), (9, 201, 12));
    assert_eq!(static_sprite(60), (0, 210, 15));
    assert_eq!(static_sprite(90), (0, 210, 22));
    assert_eq!(motion_index(13), 3);
    let mut e = SoulStrikeEffect::new(2, false);
    for _ in 0..59 {
        assert_eq!(e.tick(), EffectStatus::Running);
    }
    assert_eq!(e.tick(), EffectStatus::Dead);
}
