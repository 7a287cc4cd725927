use game::draw::EffectStatus;
use game::potion_berserk::{BerserkClock, STR_OVERLAY, TOTAL_DURATION_MS};

#[test]
fn sparks_start_at_frame_12_every_4_frames() {
    let mut c = BerserkClock::new();
    c.advance(11);
    assert!(c.sparks().is_empty());
    c.advance(9);
    assert_eq!(c.sparks(), vec![12, 16, 20]);
}

#[test]
fn sparks_live_40_frames_and_stop_after_110() {
    let mut c = BerserkClock::new();
    c.advance(120);
    let s = c.sparks();
    assert_eq!(s.first(), Some(&84));
    assert_eq!(s.last(), Some(&108));
    assert_eq!(s.len(), 7);
    c.advance(28);
    assert!(c.sparks().is_empty());
}

#[test]
fn dies_at_frame_191() {
    let mut c = BerserkClock::new();
    assert_eq!(c.advance(190), EffectStatus::Running);
    assert_eq!(c.advance(1), EffectStatus::Dead);
    assert_eq!(TOTAL_DURATION_MS, 3183);
    assert_eq!(STR_OVERLAY, "berserk");
}

#[test]
fn pillar_visible_from_frame_zero_sparks_appear_at_frame_12() {
    let mut c = BerserkClock::new();
    c.advance(1);
    assert!(c.sparks().is_empty(), "no sparks yet at frame 1");
    c.advance(12);
    let sparks = c.sparks().len();
    // Each spark is drawn as a crossed pair of quads.
    assert!(2 * sparks >= 2, "expected at least 2 spark quads at frame 13");
    assert_eq!(c.sparks(), vec![12]);
}

#[test]
fn reports_berserk_str_overlay() {
    assert_eq!(STR_OVERLAY, "berserk");
}

#[test]
fn dies_after_full_duration() {
    let mut c = BerserkClock::new();
    assert_eq!(c.advance(TOTAL_DURATION_MS * 60 / 1000 + 30), EffectStatus::Dead);
}

#[test]
fn half_frame_ticks_fire_and_retire_sparks_exactly() {
    let mut c = BerserkClock::new_in_ticks(2);
    c.advance(23);
    assert!(c.sparks().is_empty(), "no spark before frame 12");
    c.advance(2);
    // Frame 12.5: the frame-12 spark, at tick 24.
    assert_eq!(c.sparks(), vec![24]);
    c.advance(8);
    assert_eq!(c.sparks(), vec![24, 32]);
    // Frame 52.5: the frame-12 spark is gone (40 frames old at 52).
    c.advance(72);
    assert_eq!(c.sparks().first(), Some(&32));
    assert_eq!(c.advance(276), EffectStatus::Running);
    assert_eq!(c.advance(1), EffectStatus::Dead);
}
