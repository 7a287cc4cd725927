use game::draw::EffectStatus;
use game::venomdust2::{
    live_ticks, mote_alpha, mote_ids, mote_motion, particle_count, status_at, DUST_SPRITE, FULL_ALPHA_3570,
    MOTES_PER_TICK, SPRITES,
};

#[test]
fn emits_dust_on_a_five_frame_cadence() {
    assert_eq!(particle_count(1), MOTES_PER_TICK, "frame-0 fan ramping in");
    // At frame 12 the tick-5 and tick-10 fans are visible; tick 0 expired.
    assert_eq!(particle_count(12), 2 * MOTES_PER_TICK);
    assert_eq!(live_ticks(12), vec![5, 10]);
}

#[test]
fn live_set_stays_bounded_as_emitter_persists() {
    let max = 3 * MOTES_PER_TICK;
    for f in [20u32, 37, 60, 95] {
        let n = particle_count(f);
        assert!(n >= 1 && n <= max, "bounded live set at frame {f}, got {n}");
    }
    for f in 0..2000u32 {
        let n = live_ticks(f).len();
        assert!(n == 1 || n == 2, "frame {f}: {n}");
    }
}

#[test]
fn venomdust2_never_self_terminates() {
    for f in (0..200u32).map(|i| i * 6) {
        assert_eq!(status_at(f), EffectStatus::Running);
    }
}

#[test]
fn mote_alpha_ramps_holds_and_fades() {
    assert_eq!(mote_alpha(0), 980);
    assert_eq!(mote_alpha(6), 980 + 6 * 370);
    assert_eq!(mote_alpha(7), FULL_ALPHA_3570);
    assert_eq!(mote_alpha(8), FULL_ALPHA_3570);
    assert_eq!(mote_alpha(9), 1785);
    assert_eq!(mote_alpha(10), 0);
    assert_eq!(mote_alpha(1000), 0);
    assert_eq!(mote_motion(9), 4);
}

#[test]
fn motes_are_keyed_by_birth_tick() {
    assert_eq!(mote_ids(0), [0, 1, 2]);
    assert_eq!(mote_ids(2), [14, 15, 16]);
    let b = u32::MAX / 7 + 1;
    let base = b.wrapping_mul(7);
    assert_eq!(mote_ids(b), [base, base.wrapping_add(1), base.wrapping_add(2)]);
    assert_eq!(mote_ids(u32::MAX), [u32::MAX.wrapping_mul(7), u32::MAX.wrapping_mul(7).wrapping_add(1), u32::MAX.wrapping_mul(7).wrapping_add(2)]);
    assert!(SPRITES.contains(&DUST_SPRITE));
}
