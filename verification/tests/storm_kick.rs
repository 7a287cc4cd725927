use game::draw::EffectStatus;
use game::storm_kick::{
    StormKickClock, STORMKICK0, STORMKICK1, STORMKICK2, STORMKICK3, STORMKICK6, STORMKICK7,
    TOTAL_DURATION_MS,
};

#[test]
fn funnel_is_inverted_and_spins() {
    let mut e = StormKickClock::new(STORMKICK2());
    e.advance(20);
    assert_eq!(e.rot_start_deg(), 80);
    e.advance(75);
    assert_eq!(e.rot_start_deg(), 20);
}

#[test]
fn alpha_ramps_then_fades() {
    let mut e = StormKickClock::new(STORMKICK3());
    e.advance(20);
    assert_eq!(e.alpha_b(), 20);
    e.advance(30);
    assert_eq!(e.alpha_b(), 40);
    e.advance(30);
    assert_eq!(e.alpha_b(), 20);
    e.advance(20);
    assert_eq!(e.alpha_b(), 0);
}

#[test]
fn body_yaw_only_during_spin_window() {
    let mut spin = StormKickClock::new(STORMKICK0());
    spin.advance(10);
    assert_eq!(spin.body_yaw_deg(), Some(300));
    spin.advance(60);
    assert_eq!(spin.body_yaw_deg(), None);
    let mut slow = StormKickClock::new(STORMKICK1());
    slow.advance(50);
    assert_eq!(slow.body_yaw_deg(), Some(700));
    let mut no_spin = StormKickClock::new(STORMKICK2());
    no_spin.advance(10);
    assert_eq!(no_spin.body_yaw_deg(), None);
}

#[test]
fn emits_ten_plates_plus_two_gust_rings() {
    let mut e = StormKickClock::new(STORMKICK6());
    e.advance(12);
    assert_eq!(e.wind2().slot_state(0).alpha_b, 11);
    assert_eq!(e.wind3().slot_state(3).full_display_angle_deg, 66);
    assert_eq!(STORMKICK7().tint_rgb, [255, 125, 255]);
}

#[test]
fn dies_at_frame_108() {
    let mut e = StormKickClock::new(STORMKICK0());
    assert_eq!(e.advance(107), EffectStatus::Running);
    assert_eq!(e.advance(1), EffectStatus::Dead);
    assert_eq!(TOTAL_DURATION_MS, 1800);
}
