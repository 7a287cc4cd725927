use game::draw::EffectStatus;
use game::warp::{
    ring_draw, ring_draw_in_ticks, RingDraw, WarpClock, ARC_ANGLE_DEG, PEAK_ALPHA_255, RING_THICKNESS_256, TOTAL_DURATION_MS, UV_REPEAT,
};

#[test]
fn first_ring_spawns_immediately() {
    let mut w = WarpClock::new();
    assert!(w.rings().is_empty());
    w.update(0);
    assert_eq!(w.rings(), vec![0]);
}

#[test]
fn spawns_four_rings_over_parent_lifetime() {
    let mut w = WarpClock::new();
    w.update(0);
    w.update(21);
    assert_eq!(w.rings().len(), 2);
    w.update(20);
    assert_eq!(w.rings().len(), 3);
    w.update(20);
    assert_eq!(w.rings().len(), 4);
    w.update(20);
    assert!(w.rings().len() <= 4, "parent stops spawning past frame 80");
    assert_eq!(w.rings(), vec![20, 40, 60]);
}

#[test]
fn ends_at_frame_140() {
    let mut w = WarpClock::new();
    assert_eq!(w.update(80), EffectStatus::Running);
    assert_eq!(w.rings(), vec![20, 40, 60], "no ring fires on frame 80");
    assert_eq!(w.update(59), EffectStatus::Running);
    assert_eq!(w.rings(), vec![60], "the last ring is still fading at frame 139");
    assert_eq!(w.update(1), EffectStatus::Dead);
    assert!(w.rings().is_empty());
    assert_eq!(TOTAL_DURATION_MS, 2666);
}

#[test]
fn ring_emits_full_tiled_disc() {
    let r = ring_draw(0);
    assert!(r.radius_256 > 0, "the first ring is drawn at once");
    assert_eq!(ARC_ANGLE_DEG, 360);
    assert_eq!(UV_REPEAT, 4);
}

#[test]
fn ring_radius_grows_then_fades() {
    let r0 = ring_draw(0);
    // Halfway through ring life — radius bigger, alpha still at peak.
    let mid = ring_draw(36);
    assert!(mid.radius_256 > r0.radius_256);
    assert_eq!(mid.alpha_40, 40);
    // Deep into fade-out — alpha drops.
    let late = ring_draw(76);
    assert!(late.alpha_40 < r0.alpha_40);
}

#[test]
fn early_ring_is_filled_disc_late_ring_is_band() {
    let early = ring_draw(0);
    assert!(early.thickness_256 >= early.radius_256, "early ring fills its disc");
    let late = ring_draw(40);
    assert_eq!(late.thickness_256, RING_THICKNESS_256 as u64, "thickness caps at innerSize");
}

#[test]
fn ring_geometry_is_exact() {
    // 2 units at frame 0; 2 + 1.25·80 − 80·81/256 at frame 80 and after.
    assert_eq!(ring_draw(0), RingDraw { den: 1, radius_256: 512, thickness_256: 512, alpha_40: 40 });
    assert_eq!(ring_draw(80).radius_256, 512 + 25600 - 6480);
    assert_eq!(ring_draw(200).radius_256, 512 + 25600 - 6480);
    assert_eq!(ring_draw(60).alpha_40, 20);
    assert_eq!(ring_draw(80).alpha_40, 0);
    assert_eq!(PEAK_ALPHA_255, 200);
}

#[test]
fn fractional_updates_keep_the_four_ring_train() {
    // Tenth-of-a-frame ticks, updates of 0, 20.6, 20, 20 and 20 frames.
    let mut w = WarpClock::new_in_ticks(10);
    w.update(0);
    assert_eq!(w.rings(), vec![0]);
    w.update(206);
    assert_eq!(w.rings(), vec![0, 200]);
    w.update(200);
    assert_eq!(w.rings().len(), 3);
    w.update(200);
    assert_eq!(w.rings(), vec![0, 200, 400, 600]);
    assert_eq!(w.update(200), EffectStatus::Running);
    assert_eq!(w.rings(), vec![200, 400, 600], "no fifth ring, the first one gone at 80 frames");
    // The last ring, fired on frame 60, fades until frame 140.
    assert_eq!(w.update(1400 - 806 - 1), EffectStatus::Running);
    assert_eq!(w.update(1), EffectStatus::Dead);
    // A ring 40.5 frames old: 2 + 1.25·40.5 − 40.5·41.5/256 units, alpha 39.5/40.
    let r = ring_draw_in_ticks(405, 10);
    assert_eq!(r.radius_256, 512 * 100 + 320 * 405 * 10 - 405 * 415);
    assert_eq!(r.alpha_40, 395);
    assert_eq!(r.den, 10);
}
