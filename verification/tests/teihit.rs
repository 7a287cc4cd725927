use game::draw::EffectStatus;
use game::teihit::{TeiHit2Darts, TeihitStreaks, BACKSTAP, TEIHIT1, TEIHIT1X, TEIHIT2, TEIHIT3};

#[test]
fn teihit2_count_scales_with_prim_count_and_darts_fly_then_die() {
    assert_eq!(TeiHit2Darts::new(TEIHIT2(), 1).dart_count(), 20);
    let mut e = TeiHit2Darts::new(BACKSTAP(), 1);
    assert_eq!(e.dart_count(), 80);
    e.advance(40 + 12);
    assert!((0..e.dart_count()).any(|i| e.dart(i).alpha > 0), "darts visible after fade-in");
    let mut steps = 52;
    let mut st = EffectStatus::Running;
    while st == EffectStatus::Running {
        st = e.advance(1);
        steps += 1;
    }
    assert!(steps <= 134);
}

#[test]
fn dart_alpha_curve() {
    let mut e = TeiHit2Darts::new(TEIHIT2(), 77);
    let wait = -e.dart(0).process;
    assert!((31..=40).contains(&wait));
    e.advance(wait as u32 + 10);
    assert_eq!(e.dart(0).alpha, 250);
    e.advance(83);
    assert_eq!(e.dart(0).alpha, 1);
    e.advance(1);
    assert_eq!(e.dart(0).alpha, 0);
}

#[test]
fn spawns_four_streaks_per_prim_once_visible() {
    let p = TEIHIT1();
    let mut e = TeihitStreaks::new(p, 3);
    assert_eq!(e.streak_count(), 80);
    assert!((0..e.streak_count()).all(|i| e.streak(i).alpha == 0));
    e.advance(p.delay_base + p.delay_rand + 18);
    let n = (0..e.streak_count()).filter(|&i| e.streak(i).alpha > 0).count();
    assert!(n > 0 && n <= p.prim_count * 4);
    assert_eq!(TEIHIT1X().prim_count * 4, 96);
}

#[test]
fn streaks_travel_outward_then_burst_dies() {
    let p = TEIHIT3();
    let mut e = TeihitStreaks::new(p, 5);
    e.advance(p.delay_base + p.delay_rand + 15);
    let early: i64 = (0..e.streak_count()).map(|i| e.distance(i)).sum();
    e.advance(12);
    let late: i64 = (0..e.streak_count()).map(|i| e.distance(i)).sum();
    assert!(late > early);
    assert_eq!(e.advance(200), EffectStatus::Dead);
}

#[test]
fn streak_alpha_peaks_at_150_on_step_20() {
    let mut e = TeihitStreaks::new(TEIHIT1(), 9);
    let wait = -e.streak(0).process;
    e.advance(wait as u32 + 20);
    assert_eq!(e.streak(0).alpha, 150);
    assert_eq!(e.distance(0), -10 + 3 * 20);
    e.advance(30);
    assert_eq!(e.streak(0).alpha, 0);
}
