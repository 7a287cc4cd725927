use game::draw::EffectStatus;
use game::toprank::{status_at, yaw_in_ticks, yaw_tenths_at, TOPRANK_TEXTURE};

#[test]
fn yaw_advances_per_frame_and_stays_alive() {
    let yaw_a = yaw_tenths_at(0);
    assert_eq!(yaw_a, 0);
    for n in 1..=10 {
        assert_eq!(status_at(n), EffectStatus::Running);
    }
    let yaw_b = yaw_tenths_at(10);
    assert!(yaw_b > yaw_a, "yaw rotates over time: {yaw_a} -> {yaw_b}");
    assert_eq!(yaw_b, 450);
    assert_eq!(yaw_tenths_at(80), 0);
    assert_eq!(yaw_tenths_at(81), 45);
    assert_eq!(TOPRANK_TEXTURE, "LockOn128.tga");
}

#[test]
fn half_frames_turn_exactly() {
    // Frame 1.5: 6.75°, kept as 135 twentieths of a degree.
    assert_eq!(yaw_in_ticks(3, 2), 135);
    // Frame 800.5 wraps past 10 turns to 0.225°.
    assert_eq!(yaw_in_ticks(1601, 2), 45);
}
