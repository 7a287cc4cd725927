use game::draw::EffectStatus;
use game::revive::{
    is_hero_ring, ring_draw, ring_draw_in_ticks, RingDraw, ReviveClock, FOLLOWUP_OUTER_2000, HERO_OUTER_2000, TOTAL_DURATION_MS,
};

#[test]
fn hero_ring_lit_from_the_start() {
    let c = ReviveClock::new();
    assert_eq!(c.rings(), vec![0]);
    assert!(is_hero_ring(0));
    assert!(!is_hero_ring(25));
}

#[test]
fn follow_up_rings_every_25_frames_below_150() {
    let mut c = ReviveClock::new();
    c.advance(55);
    assert_eq!(c.rings(), vec![0, 25, 50]);
    c.advance(5);
    assert_eq!(c.rings(), vec![25, 50], "hero ring gone at 60");
    c.advance(90);
    assert_eq!(c.rings(), vec![100, 125], "no ring at 150");
}

#[test]
fn dies_at_frame_210() {
    let mut c = ReviveClock::new();
    assert_eq!(c.advance(209), EffectStatus::Running);
    assert_eq!(c.advance(1), EffectStatus::Dead);
    assert!(c.rings().is_empty());
    assert_eq!(TOTAL_DURATION_MS, 3500);
}

#[test]
fn spawns_hero_then_followups_at_25_frame_cadence() {
    let mut c = ReviveClock::new();
    c.advance(0);
    let r0 = c.rings();
    assert_eq!(r0.len(), 1);
    assert!(is_hero_ring(r0[0]));
    c.advance(26);
    assert_eq!(c.rings().len(), 2);
    c.advance(50);
    let rings_at_76 = c.rings().len();
    assert!((3..=4).contains(&rings_at_76), "expected 3-4 alive rings at frame 76, got {rings_at_76}");
}

#[test]
fn dies_after_last_ring_finishes() {
    let mut c = ReviveClock::new();
    let total_frames = TOTAL_DURATION_MS * 60 / 1000;
    assert_eq!(c.advance(total_frames + 30), EffectStatus::Dead);
}

#[test]
fn followup_rings_shrink_over_time() {
    let mut c = ReviveClock::new();
    // Advance past the hero ring's slot so only followups remain.
    c.advance(65);
    c.advance(20);
    let outers_late: Vec<u64> =
        c.rings().iter().map(|&s| ring_draw(s, c.age() - s).outer_2000).collect();
    assert!(
        outers_late.iter().any(|&o| o < FOLLOWUP_OUTER_2000 as u64),
        "followups should contract; saw outers {outers_late:?}"
    );
}

#[test]
fn ring_sizes_turns_and_fades_are_exact() {
    assert_eq!(ring_draw(0, 0), RingDraw { den: 1, outer_2000: HERO_OUTER_2000 as u64, inner_2000: 15000, turn_200: 0, alpha: 6, alpha_den: 6 });
    assert_eq!(ring_draw(0, 57), RingDraw { den: 1, outer_2000: 22000, inner_2000: 15000, turn_200: 17100, alpha: 3, alpha_den: 6 });
    // A follow-up 35 frames in: 10.5 − 0.12·35 + 0.0015·35·36 = 8.19.
    let r = ring_draw(50, 35);
    assert_eq!((r.outer_2000, r.inner_2000), (16380, 10380));
    assert_eq!(r.turn_200, 300 * 35 + 3 * 35 * 36);
    assert_eq!((r.alpha, r.alpha_den), (25, 30));
}

#[test]
fn fractional_frames_shrink_turn_and_fade_exactly() {
    // Half-frame ticks: a follow-up 35.5 frames in.
    // Outer 10.5 − 0.12·35.5 + 0.0015·35.5·36.5 = 8.183625 = 65469 / 8000.
    let r = ring_draw_in_ticks(false, 71, 2);
    assert_eq!(r.den, 2);
    assert_eq!((r.outer_2000, r.inner_2000), (65469, 65469 - 24000));
    // Turn 1.5·35.5 + 0.015·35.5·36.5 = 72.68625° = 58149 / 800.
    assert_eq!(r.turn_200, 58149);
    // Fade (60 − 35.5) / 30 = 49 / 60.
    assert_eq!((r.alpha, r.alpha_den), (49, 60));

    // Clock on half frames: at frame 25.5 the hero and the frame-25 ring live.
    let mut c = ReviveClock::new_in_ticks(2);
    assert_eq!(c.advance(51), EffectStatus::Running);
    assert_eq!(c.rings(), vec![0, 50]);
    assert_eq!(c.advance(368), EffectStatus::Running);
    assert_eq!(c.advance(1), EffectStatus::Dead);
    assert!(c.rings().is_empty());
}
