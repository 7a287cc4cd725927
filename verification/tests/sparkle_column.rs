use game::draw::EffectStatus;
use game::sparkle_column::{
    mote_alpha, mote_distance_sq, mote_fade, status_at, SparkleColumn, COLUMN_TOP, FADE_TOP_SPAN, FREEZING, GHOST, SEED_DEPTH,
    TEXTURES, TICKS_PER_UNIT, WHITELIGHT,
};

#[test]
fn variants_use_real_distinct_textures() {
    let texs = [FREEZING().texture, WHITELIGHT().texture, GHOST().texture];
    for t in texs {
        assert!(TEXTURES.contains(&t));
    }
    assert_eq!(texs.iter().collect::<std::collections::HashSet<_>>().len(), 3);
}

#[test]
fn variant_mote_counts() {
    assert_eq!(FREEZING().count, 20);
    assert_eq!(WHITELIGHT().count, 20);
    assert_eq!(GHOST().count, 4);
    assert_eq!(GHOST().texture, "ghost.bmp");
    assert_eq!((FREEZING().rise_speed, GHOST().rise_speed), (6, 9));
}

#[test]
fn sparkle_column_never_self_terminates() {
    for frame in (0..200u32).map(|k| k * 6) {
        assert_eq!(status_at(frame), EffectStatus::Running);
    }
    let mut c = SparkleColumn::new(GHOST(), 1);
    for _ in 0..200 {
        assert_eq!(c.step_frame(), EffectStatus::Running);
    }
}

#[test]
fn only_motes_above_ground_are_drawn_as_additive_billboards() {
    let c = SparkleColumn::new(FREEZING(), 0x9E37_79B9);
    let mut drawn = 0;
    for i in 0..c.mote_count() {
        let m = c.mote(i);
        if let Some((fi, fo)) = mote_fade(m.y) {
            drawn += 1;
            assert!(m.y < 0, "visible motes are above ground (up is negative)");
            assert!(fi > 0 && fi <= TICKS_PER_UNIT && fo > 0 && fo <= FADE_TOP_SPAN);
        } else {
            assert!(m.y >= 0 || m.y <= COLUMN_TOP);
        }
    }
    assert!(drawn > 0);
}

#[test]
fn motes_rise_over_time() {
    let mut c = SparkleColumn::new(FREEZING(), 0x9E37_79B9);
    let (idx, y0) = (0..c.mote_count()).map(|i| (i, c.mote(i).y)).max_by_key(|p| p.1).unwrap();
    c.step_frame();
    let y1 = c.mote(idx).y;
    assert!(y1 < y0, "mote should rise (y decreases): {y0} -> {y1}");
    assert_eq!(y0 - y1, 6 * (1 << 24));
}

#[test]
fn mote_count_stays_constant_through_respawn() {
    let mut c = SparkleColumn::new(FREEZING(), 0x9E37_79B9);
    let before = c.mote_count();
    let mut respawned = false;
    for _ in 0..200 {
        c.step_frame();
        for i in 0..c.mote_count() {
            let m = c.mote(i);
            assert!(COLUMN_TOP <= m.y && m.y <= SEED_DEPTH);
            respawned |= m.born > 0;
        }
    }
    assert_eq!(c.mote_count(), before, "respawn must not change population");
    assert!(respawned);
    assert_eq!(c.frame(), 200);
}

#[test]
fn ghost_scatters_much_wider_than_freezing() {
    let ghost = SparkleColumn::new(GHOST(), 0x9E37_79B9);
    let freezing = SparkleColumn::new(FREEZING(), 0x9E37_79B9);
    let spread = |c: &SparkleColumn, p| (0..c.mote_count()).map(|i| mote_distance_sq(&p, &c.mote(i))).max().unwrap();
    let g = spread(&ghost, GHOST());
    let f = spread(&freezing, FREEZING());
    // Twice the distance is four times its square.
    assert!(g > 4 * f, "ghost should scatter far wider");
    assert!(f <= 15 * 15 * (1u128 << 24));
    assert!(g <= 70 * 70 * (1u128 << 24));
}

#[test]
fn fades_in_over_a_unit_and_out_over_the_top() {
    assert_eq!(mote_fade(0), None);
    assert_eq!(mote_fade(5), None);
    assert_eq!(mote_fade(-TICKS_PER_UNIT / 2), Some((TICKS_PER_UNIT / 2, FADE_TOP_SPAN)));
    assert_eq!(mote_fade(-10 * TICKS_PER_UNIT), Some((TICKS_PER_UNIT, TICKS_PER_UNIT)));
    assert_eq!(mote_fade(COLUMN_TOP), None);
}

#[test]
fn motes_peak_at_each_variants_alpha_cap() {
    assert_eq!((FREEZING().alpha_max_pct, WHITELIGHT().alpha_max_pct, GHOST().alpha_max_pct), (85, 85, 70));
    let den = 100 * TICKS_PER_UNIT as u128 * FADE_TOP_SPAN as u128;
    // Half a unit up: half faded in, 0.85 · 0.5 of full.
    let half = TICKS_PER_UNIT / 2;
    assert_eq!(mote_alpha(&FREEZING(), -half), Some((85 * half as u128 * FADE_TOP_SPAN as u128, den)));
    // Fully faded in below the top fade: exactly the ghost's 0.70 cap.
    assert_eq!(mote_alpha(&GHOST(), -2 * TICKS_PER_UNIT), Some((70 * TICKS_PER_UNIT as u128 * FADE_TOP_SPAN as u128, den)));
    assert_eq!(mote_alpha(&GHOST(), 5), None);
    assert_eq!(mote_alpha(&GHOST(), COLUMN_TOP), None);
}
