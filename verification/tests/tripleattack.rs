use game::tripleattack::{streak_delays, StreakClock, TEXTURES, TRIPLEATTACK, TRIPLEATTACK2, TRIPLEATTACK3};

#[test]
fn total_durations() {
    assert_eq!(TRIPLEATTACK().total_duration_ms(), 716);
    assert_eq!(TRIPLEATTACK2().total_duration_ms(), 1500);
    assert_eq!(TRIPLEATTACK3().total_duration_ms(), 2833);
    assert_eq!(TEXTURES, ["cloud11.tga", "alpha_center.tga"]);
}

#[test]
fn arrow_vulcan_emits_far_more_streaks_than_melee() {
    assert!(TRIPLEATTACK3().waves() > TRIPLEATTACK().waves());
}

#[test]
fn tripleattack_alpha_fades_in_then_out_and_self_terminates() {
    let p = TRIPLEATTACK();
    let mut s = StreakClock::new(3);
    for _ in 0..3 {
        s.step(&p);
        assert_eq!(s.alpha, 0);
    }
    for k in 1..=5 {
        s.step(&p);
        assert_eq!(s.alpha, p.fade_in() as i32 * k);
    }
    let peak = s.alpha;
    s.step(&p);
    assert_eq!(s.alpha, peak - p.fade_out() as i32);
    let mut frames = 9;
    while s.alive {
        s.step(&p);
        frames += 1;
    }
    assert_eq!(s.alpha, 0);
    let fade = (5 * p.fade_in() + p.fade_out() - 1) / p.fade_out();
    assert_eq!(frames, 3 + 5 + fade as i32);
}

fn lcg_states(seed: u32, n: usize) -> Vec<u32> {
    let mut st = seed.wrapping_mul(0x9E37_79B9).wrapping_add(1);
    (0..n)
        .map(|_| {
            st = st.wrapping_mul(1_664_525).wrapping_add(1_013_904_223);
            st
        })
        .collect()
}

#[test]
fn streak_delays_come_from_each_streaks_last_draw() {
    let p = TRIPLEATTACK();
    let seed = 0x73_1A_44_9C;
    let d = streak_delays(&p, seed);
    assert_eq!(d.len(), 8, "two waves of four streaks");
    let st = lcg_states(seed, 48);
    for (k, &delay) in d.iter().enumerate() {
        let draw = st[6 * k + 5] % 20;
        assert_eq!(delay, draw as i32 + (k / 4) as i32);
    }
}

#[test]
fn arrow_vulcan_takes_a_radius_draw_per_streak() {
    let p = TRIPLEATTACK3();
    let seed = 7;
    let d = streak_delays(&p, seed);
    assert_eq!(d.len(), 36);
    let st = lcg_states(seed, 7 * 36);
    for (k, &delay) in d.iter().enumerate() {
        assert_eq!(delay, 30 + (st[7 * k + 6] % 110) as i32 + (k / 4) as i32);
        assert!(delay >= 30 + (k / 4) as i32 && delay < 30 + 110 + 9);
    }
}
