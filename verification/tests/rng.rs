use game::rng::{lcg_next, Rng};

#[test]
fn lcg_next_matches_numerical_recipes_constants() {
    let mut s = 0u32;
    assert_eq!(lcg_next(&mut s), 1_013_904_223);
    assert_eq!(s, 1_013_904_223);
    let mut s = 1u32;
    assert_eq!(lcg_next(&mut s), 1_015_568_748);
}

#[test]
fn lcg_next_wraps_modulo_two_to_the_32() {
    let mut s = 0x5EED_C01Du32;
    let seq: Vec<u32> = (0..3).map(|_| lcg_next(&mut s)).collect();
    assert_eq!(seq, vec![2_346_861_272, 78_014_551, 4_143_180_234]);
}

#[test]
fn from_seed_scrambles_with_the_golden_ratio() {
    let r = Rng::from_seed(42);
    assert_eq!(r.0, 4_112_119_899);
    assert_eq!(Rng::from_seed(0).0, 1);
}

#[test]
fn rng_and_bare_state_draw_the_same_stream() {
    let mut r = Rng::from_seed(42);
    let mut s = r.0;
    for _ in 0..100 {
        assert_eq!(r.next_u32(), lcg_next(&mut s));
    }
}

#[test]
fn random_int_is_the_next_state_modulo_n() {
    let mut r = Rng::from_seed(42);
    assert_eq!(r.random_int(26), 8);
    assert_eq!(r.0, 1_217_909_246);
    let mut r = Rng::from_seed(42);
    assert_eq!(r.random_int(11), 4);
}

#[test]
fn random_treats_zero_as_one() {
    let mut r = Rng::from_seed(42);
    assert_eq!(r.random(0), 0);
    assert_eq!(r.0, 1_217_909_246, "the draw still advances the state");
    let mut r = Rng::from_seed(42);
    assert_eq!(r.random(26), 8);
}

#[test]
fn draws_stay_below_their_bound() {
    let mut r = Rng::from_seed(7);
    for n in 1..200u32 {
        assert!(r.random(n) < n);
        assert!((r.random_int(n) as u32) < n);
    }
}

#[test]
fn distinct_seeds_start_in_distinct_states() {
    let mut seen = std::collections::HashSet::new();
    for seed in 0..5000u32 {
        assert!(seen.insert(Rng::from_seed(seed).0));
    }
}
