use game::draw::EffectStatus;
use game::quakebody::{
    body_tint, jitter_bucket, shaking, status_at, total_duration_ms, QUAKEBODY, QUAKEBODY2,
    QUAKEBODY3, QUAKEBODY4,
};

#[test]
fn quake_windows_per_variant() {
    assert!(shaking(&QUAKEBODY(), 0) && shaking(&QUAKEBODY(), 13) && !shaking(&QUAKEBODY(), 14));
    assert!(!shaking(&QUAKEBODY3(), 29));
    assert!(shaking(&QUAKEBODY3(), 30) && shaking(&QUAKEBODY3(), 49));
    assert!(!shaking(&QUAKEBODY3(), 50));
    assert!(shaking(&QUAKEBODY4(), 20) && !shaking(&QUAKEBODY4(), 19));
}

#[test]
fn quake_durations_in_ms() {
    assert_eq!(total_duration_ms(&QUAKEBODY()), 233);
    assert_eq!(total_duration_ms(&QUAKEBODY2()), 583);
    assert_eq!(total_duration_ms(&QUAKEBODY3()), 1000);
    assert_eq!(total_duration_ms(&QUAKEBODY4()), 1000);
}

#[test]
fn quake_dies_after_total_frames() {
    assert_eq!(status_at(&QUAKEBODY(), 13), EffectStatus::Running);
    assert_eq!(status_at(&QUAKEBODY(), 14), EffectStatus::Dead);
    assert_eq!(status_at(&QUAKEBODY(), 15), EffectStatus::Dead);
}

#[test]
fn quakebody4_alternates_red_and_white_while_shaking() {
    let q4 = QUAKEBODY4();
    assert_eq!(body_tint(&q4, 10), None, "no tint before the window");
    assert_eq!(body_tint(&q4, 24), Some([250, 50, 50]));
    assert_eq!(body_tint(&q4, 25), Some([255, 255, 255]));
    assert_ne!(body_tint(&q4, 24), body_tint(&q4, 25));
    for f in 0..100 {
        assert_eq!(body_tint(&QUAKEBODY(), f), None);
        assert_eq!(body_tint(&QUAKEBODY3(), f), None);
    }
}

#[test]
fn jitter_bucket_values() {
    assert_eq!(jitter_bucket(0, 1), 46_816);
    assert_eq!(jitter_bucket(35, 2), 74_950);
    assert_eq!(jitter_bucket(12_345, 7), 42_317);
    for f in 0..1000 {
        assert!(jitter_bucket(f, 1) < 100_000);
    }
    assert_ne!(jitter_bucket(40, 1), jitter_bucket(40, 2), "salts decorrelate the axes");
}

#[test]
fn quakebody3_shakes_only_in_its_window() {
    let p = QUAKEBODY3();
    assert!(!shaking(&p, 10), "idle before frame 30");
    assert!(shaking(&p, 35), "shaking inside window");
    assert!(!shaking(&p, 50), "idle after frame 50");
}

#[test]
fn quakebody4_alternates_red_tint_while_shaking_others_dont() {
    let q4 = QUAKEBODY4();
    assert!(shaking(&q4, 25));
    let t0 = body_tint(&q4, 25).expect("Quakebody4 tints while shaking");
    let t1 = body_tint(&q4, 26).unwrap();
    assert_ne!(t0, t1, "tint alternates frame to frame");
    assert!(body_tint(&QUAKEBODY(), 5).is_none());
}

#[test]
fn dies_after_total_frames_and_emits_no_primitives() {
    let p = QUAKEBODY();
    assert_eq!(status_at(&p, 14 + 1), EffectStatus::Dead);
}
