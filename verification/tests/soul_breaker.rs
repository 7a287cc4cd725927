use game::draw::EffectStatus;
use game::soul_breaker::{SoulBreakerSlashes, SPAWN_DELAY, TOTAL_DURATION_MS};

#[test]
fn directed_slashes_wait_28_down_to_25_frames() {
    let e = SoulBreakerSlashes::new_directed(1234);
    assert_eq!(e.slash_count(), 4);
    let waits: Vec<i32> = (0..4).map(|i| -e.slash(i).process).collect();
    assert_eq!(waits, vec![28, 27, 26, 25]);
    for i in 0..4 {
        let s = e.slash(i);
        assert!(s.heading_deg >= -15 && s.heading_deg <= 15);
        assert!(s.height_draw < 5);
    }
}

#[test]
fn radial_fires_in_many_directions() {
    let e = SoulBreakerSlashes::new_radial(99);
    assert_eq!(e.slash_count(), 32);
    for d in 0..8 {
        for ec in 0..4 {
            let s = e.slash(4 * d + ec);
            assert_eq!(s.heading_deg, 45 * d as i32);
            let wait = -s.process;
            assert!(wait >= SPAWN_DELAY - ec as i32 && wait <= SPAWN_DELAY - ec as i32 + 5);
        }
    }
}

#[test]
fn soul_breaker_alpha_fades_in_then_out_and_self_terminates() {
    let mut e = SoulBreakerSlashes::new_directed(7);
    e.advance(SPAWN_DELAY as u32 + 3);
    let a_in: i32 = (0..e.slash_count()).map(|i| e.slash(i).alpha).sum();
    e.advance(20);
    let a_out: i32 = (0..e.slash_count()).map(|i| e.slash(i).alpha).sum();
    assert!(a_in > 0);
    assert!(a_out < a_in);
    assert_eq!(e.advance(120), EffectStatus::Dead);
}

#[test]
fn directed_ends_after_56_frames() {
    let mut e = SoulBreakerSlashes::new_directed(5);
    assert_eq!(e.advance(55), EffectStatus::Running);
    assert_eq!(e.advance(1), EffectStatus::Dead);
    assert_eq!(TOTAL_DURATION_MS, 1200);
}

#[test]
fn slash_alpha_curve() {
    let mut e = SoulBreakerSlashes::new_directed(5);
    e.advance(25 + 10);
    // The last slash waited 25 frames and is on its 10th frame: peak 90.
    let last = e.slash(e.slash_count() - 1);
    assert_eq!(last.process, 10);
    assert_eq!(last.alpha, 90);
}
