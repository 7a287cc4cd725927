use game::draw::EffectStatus;
use game::peong::{MoteKind, PeongMotes, SPARKLE_SPRITE, TOTAL_DURATION_MS};
use game::peong_up::{PeongUpSparkles, TINT_RGB};

#[test]
fn spawns_twenty_sparkles_and_sixty_four_burst_motes() {
    let e = PeongMotes::new(0x1234);
    assert_eq!(e.mote_count(), 84);
    for i in 0..20 {
        let m = e.mote(i);
        assert_eq!(m.kind, MoteKind::Sparkle);
        assert_eq!(m.texture, SPARKLE_SPRITE);
        assert!(m.process <= 0 && m.process >= -25);
    }
    for j in 0..64 {
        let m = e.mote(20 + j);
        assert_eq!(m.kind, MoteKind::Burst);
        assert!(m.process <= 0 && m.process >= -10);
        assert!(m.texture.starts_with("peong"));
    }
    assert_eq!(e.mote(20).texture, "peong1.tga");
    assert_eq!(e.mote(23).texture, "peong2.tga");
}

#[test]
fn blooms_in_promptly_after_spawn() {
    let mut e = PeongMotes::new(77);
    e.advance(30);
    let visible = (0..e.mote_count()).filter(|&i| e.mote(i).alpha > 0).count();
    assert!(visible > 0);
}

#[test]
fn effect_dies_after_the_bloom() {
    let mut e = PeongMotes::new(3);
    assert_eq!(e.advance(130), EffectStatus::Dead);
    assert!(130 * 1000 / 60 <= TOTAL_DURATION_MS);
}

#[test]
fn mote_advance_is_frame_rate_independent() {
    // Seed of a bloom anchored at the origin.
    let mut fine = PeongMotes::new(0x9E37_79B9);
    let mut coarse = PeongMotes::new(0x9E37_79B9);
    for _ in 0..30 {
        fine.advance(1);
    }
    for _ in 0..15 {
        coarse.advance(2);
    }
    let sum = |e: &PeongMotes| (0..e.mote_count()).map(|i| e.mote(i).process).sum::<i32>();
    assert_eq!(sum(&fine), sum(&coarse));
}

#[test]
fn fountain_sparkles_rise_then_retire() {
    let mut e = PeongUpSparkles::new(0xABCD);
    assert_eq!(e.sparkle_count(), 30);
    e.advance(40);
    assert!((0..e.sparkle_count()).any(|i| e.sparkle(i).alpha > 0));
    assert_eq!(TINT_RGB, [105, 105, 225]);
    assert_eq!(e.advance(400), EffectStatus::Dead);
}

#[test]
fn fountain_ends_by_frame_127() {
    let mut e = PeongUpSparkles::new(1);
    assert_eq!(e.advance(127), EffectStatus::Dead);
}

#[test]
fn sparkles_surround_the_swirl_flower_at_peak() {
    let mut e = PeongMotes::new(0x9E37_79B9);
    e.advance(60);
    let lit: Vec<_> = (0..e.mote_count()).map(|i| e.mote(i)).filter(|m| m.alpha > 0).collect();
    assert!(
        lit.iter().any(|m| m.kind == MoteKind::Sparkle && m.texture == SPARKLE_SPRITE),
        "twinkling sparkle sprites present"
    );
    assert!(
        lit.iter().any(|m| m.kind == MoteKind::Burst && m.texture.starts_with("peong")),
        "swirl-flower billboards present"
    );
}

#[test]
fn spawns_blue_sparkle_field() {
    // Seed of a fountain anchored at the origin.
    let mut e = PeongUpSparkles::new(0x5111_0FF1);
    e.advance(40);
    assert!((0..e.sparkle_count()).any(|i| e.sparkle(i).alpha > 0), "sparkles visible");
    let c = TINT_RGB;
    assert!(c[2] > c[0] && c[2] > c[1], "sparkles are blue: {c:?}");
}
