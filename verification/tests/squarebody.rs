use game::draw::EffectStatus;
use game::squarebody::{
    cue_count, cue_frame, cue_path, kicked_total_duration_ms, pressed_total_duration_ms,
    start_frame, total_frames, BodyDeform, BodyLift, SquareBodyClock, SquareKind,
};

#[test]
fn durations_match_frame_counts() {
    assert_eq!(total_frames(SquareKind::Pressed), 50);
    assert_eq!(total_frames(SquareKind::Kicked), 54);
    assert_eq!(pressed_total_duration_ms(), 833);
    assert_eq!(kicked_total_duration_ms(), 900);
}

#[test]
fn deform_windows_start_at_17_and_30() {
    assert_eq!(start_frame(SquareKind::Pressed), 17);
    assert_eq!(start_frame(SquareKind::Kicked), 30);
}

#[test]
fn cue_tables() {
    assert_eq!(cue_count(SquareKind::Pressed), 1);
    assert_eq!(cue_count(SquareKind::Kicked), 2);
    assert_eq!(cue_frame(SquareKind::Pressed, 0), 5);
    assert_eq!(cue_frame(SquareKind::Kicked, 0), 17);
    assert_eq!(cue_frame(SquareKind::Kicked, 1), 25);
    assert_eq!(cue_path(SquareKind::Pressed, 0), "effect\\takingoff.wav");
    assert_eq!(cue_path(SquareKind::Kicked, 0), "effect\\EF_hit2.wav");
    assert_eq!(cue_path(SquareKind::Kicked, 1), "effect\\EF_hit4.wav");
}

#[test]
fn kickedbody_lifts_then_settles_with_two_hit_sounds() {
    let mut c = SquareBodyClock::kicked();
    assert_eq!(c.update(26), EffectStatus::Running);
    assert_eq!(c.pending_cue(), Some(1));
    assert_eq!(c.take_sfx_request(), Some("effect\\EF_hit4.wav"));
    assert_eq!(c.take_sfx_request(), None);
    assert_eq!(c.body_vertical(), None);
    assert_eq!(c.update(44), EffectStatus::Running);
    let d = c.body_vertical().expect("airborne");
    assert_eq!(d.squeeze_pct, 100);
    assert_eq!(d.lift, BodyLift::Rising { angle_deg: 70 });
}

#[test]
fn kicked_fires_first_hit_between_17_and_25() {
    let mut c = SquareBodyClock::kicked();
    c.update(16);
    assert_eq!(c.take_sfx_request(), None);
    c.update(20);
    assert_eq!(c.take_sfx_request(), Some("effect\\EF_hit2.wav"));
    c.update(25);
    assert_eq!(c.take_sfx_request(), Some("effect\\EF_hit4.wav"));
    c.update(40);
    assert_eq!(c.take_sfx_request(), None);
}

#[test]
fn pressedbody_squeezes_toward_the_feet_inside_its_window() {
    let mut c = SquareBodyClock::pressed();
    assert_eq!(c.body_vertical(), None);
    assert_eq!(c.update(4), EffectStatus::Running);
    assert_eq!(c.take_sfx_request(), None);
    assert_eq!(c.update(30), EffectStatus::Running);
    assert_eq!(c.take_sfx_request(), Some("effect\\takingoff.wav"));
    let d = c.body_vertical().expect("squashing");
    assert!(d.squeeze_pct < 100);
    assert_eq!(d, BodyDeform { den: 1, squeeze_pct: 40, lift: BodyLift::Grounded });
    assert_eq!(c.update(49), EffectStatus::Running);
    assert_eq!(c.take_sfx_request(), None);
    assert_eq!(c.update(55), EffectStatus::Dead);
}

#[test]
fn pressed_eases_over_three_frames_and_kicked_settles_in_tenths() {
    let mut p = SquareBodyClock::pressed();
    p.update(18);
    assert_eq!(p.body_vertical(), Some(BodyDeform { den: 1, squeeze_pct: 80, lift: BodyLift::Grounded }));
    p.update(50);
    assert_eq!(p.body_vertical().map(|d| d.squeeze_pct), Some(40));
    p.update(51);
    assert_eq!(p.body_vertical(), None);
    let mut k = SquareBodyClock::kicked();
    k.update(49);
    assert_eq!(k.body_vertical().map(|d| d.lift), Some(BodyLift::Tenths { tenths: 3 }));
    k.update(52);
    assert_eq!(k.body_vertical().map(|d| d.lift), Some(BodyLift::Tenths { tenths: 1 }));
    k.update(54);
    assert_eq!(k.body_vertical(), None);
}

#[test]
fn kicked_dies_at_54() {
    let mut c = SquareBodyClock::kicked();
    assert_eq!(c.update(53), EffectStatus::Running);
    assert_eq!(c.update(54), EffectStatus::Dead);
}

#[test]
fn fractional_frames_give_fractional_deforms() {
    // Half-frame ticks: Pressedbody at frame 17.5 is squeezed to 90%.
    let mut p = SquareBodyClock::new_in_ticks(SquareKind::Pressed, 2);
    assert_eq!(p.update(35), EffectStatus::Running);
    assert_eq!(p.body_vertical(), Some(BodyDeform { den: 2, squeeze_pct: 180, lift: BodyLift::Grounded }));
    // The cue at frame 5 fires at tick 10, not before.
    let mut q = SquareBodyClock::new_in_ticks(SquareKind::Pressed, 2);
    q.update(9);
    assert_eq!(q.take_sfx_request(), None);
    q.update(10);
    assert_eq!(q.take_sfx_request(), Some("effect\\takingoff.wav"));
    assert_eq!(q.update(99), EffectStatus::Running);
    assert_eq!(q.update(100), EffectStatus::Dead);
    // Kickedbody at frame 44.5 rises at 72.5°.
    let mut k = SquareBodyClock::new_in_ticks(SquareKind::Kicked, 2);
    k.update(89);
    assert_eq!(k.body_vertical().map(|d| d.lift), Some(BodyLift::Rising { angle_deg: 145 }));
}
