use game::draw::EffectStatus;
use game::pokjuk::{
    spark_looks, PokjukClock, COLORS, LAUNCH_STAGGER_FRAMES, NUM_SPARKS, TEXTURES, TOTAL_DURATION_MS, TOTAL_FRAMES,
};

fn tick(c: &mut PokjukClock, frames: u32) -> EffectStatus {
    let mut st = EffectStatus::Running;
    for _ in 0..frames {
        st = c.advance(1);
    }
    st
}

#[test]
fn sparks_launch_staggered() {
    let mut c = PokjukClock::new();
    tick(&mut c, 2);
    let early = c.visible_count();
    tick(&mut c, NUM_SPARKS * LAUNCH_STAGGER_FRAMES + 2);
    let all = c.visible_count();
    assert!(early < NUM_SPARKS, "not all sparks burst at frame 0 ({early})");
    assert_eq!(early, 1);
    assert_eq!(all, NUM_SPARKS, "all sparks bursting once staggered in");
}

#[test]
fn spark_drifts_and_alpha_drains() {
    let mut c = PokjukClock::new();
    tick(&mut c, 5);
    let a0 = c.spark(0).alpha_510;
    tick(&mut c, 40);
    let a1 = c.spark(0).alpha_510;
    assert!(a1 < a0, "alpha drains ({a0} -> {a1})");
    assert_eq!((a0, a1), (500 - 15, 500 - 135));
}

#[test]
fn sparks_carry_varied_colors_and_textures() {
    let seed = (5.0f32 * 41.0 + 9.0f32 * 97.0) as i64 as u32 ^ 0x2468_ACE0;
    let looks = spark_looks(seed);
    assert_eq!(looks.len(), NUM_SPARKS as usize);
    assert!(looks.iter().all(|l| (l.texture as usize) < TEXTURES.len()));
    assert!(looks.iter().all(|l| (l.color as usize) < COLORS.len()));
}

#[test]
fn pokjuk_self_terminates() {
    let mut c = PokjukClock::new();
    assert_eq!(tick(&mut c, TOTAL_FRAMES + 2), EffectStatus::Dead);
    let mut c = PokjukClock::new();
    assert_eq!(tick(&mut c, TOTAL_FRAMES - 1), EffectStatus::Running);
    assert_eq!(TOTAL_DURATION_MS, 3000);
}

#[test]
fn spark_looks_follow_the_generator_order() {
    let seed = 1234u32;
    let looks = spark_looks(seed);
    let mut state = seed | 1;
    for l in &looks {
        let mut d = [0u32; 6];
        for x in d.iter_mut() {
            state = state.wrapping_mul(1_664_525).wrapping_add(1_013_904_223);
            *x = state;
        }
        assert_eq!(l.color, d[0] % 5);
        assert_eq!(l.texture, d[1] % 3);
    }
}

#[test]
fn later_sparks_burst_later_and_brighter() {
    let mut c = PokjukClock::new();
    tick(&mut c, 30);
    let a: Vec<u32> = (0..4).map(|i| c.spark(i).alpha_510).collect();
    assert_eq!(a, vec![500 - 90, 500 - 69, 500 - 45, 500 - 21]);
    // One big step drains every burst spark by the whole step.
    let mut c = PokjukClock::new();
    c.advance(10);
    assert_eq!(c.spark(0).alpha_510, 470);
    assert_eq!(c.spark(1).alpha_510, 470);
    assert!(!c.spark(2).bursting);
    c.advance(200);
    assert_eq!(c.visible_count(), 0);
}

#[test]
fn half_frame_updates_burst_and_drain_sparks_exactly() {
    let mut c = PokjukClock::new_in_ticks(2);
    // Half a frame in: spark 0 has burst and drained 0.75 (3 of 1020ths).
    assert_eq!(c.advance(1), EffectStatus::Running);
    assert_eq!(c.spark(0).alpha_510, 997);
    assert!(!c.spark(1).bursting);
    // Frame 8: spark 1 bursts; both drain 7.5 frames' worth over the update.
    c.advance(15);
    assert_eq!(c.spark(0).alpha_510, 952);
    assert_eq!(c.spark(1).alpha_510, 955);
    assert_eq!(c.visible_count(), 2);
    assert_eq!(c.advance(343), EffectStatus::Running);
    assert_eq!(c.advance(1), EffectStatus::Dead);
}
