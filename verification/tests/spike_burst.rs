use game::spike_burst::{
    alive, alive_in_ticks, alpha_in_ticks, alpha_level, default_fade_out_start, spike_draws, AlphaFraction, SpikeBurst,
    SpikeBurstParams, SEED_MIX,
};

fn test_params() -> SpikeBurstParams {
    SpikeBurstParams {
        count: 20,
        duration_frames: 40,
        fade_in_frames: 10,
        fade_out_start_thirds: default_fade_out_start(40),
        change_growth: false,
    }
}

fn draw_sequence(seed: u32, n: usize) -> Vec<u32> {
    let mut state = seed ^ 0x9E37_79B9;
    let mut out = Vec::new();
    for _ in 0..n {
        state = state.wrapping_mul(1_664_525).wrapping_add(1_013_904_223);
        out.push(state >> 8);
    }
    out
}

#[test]
fn emits_one_billboard_per_spike() {
    let p = test_params();
    let draws = spike_draws(&p, 0);
    assert_eq!(draws.len(), p.count as usize);
    assert!(alpha_level(&p, 10) > 0, "the burst is lit at frame 10");
    assert!(alive(&p, 10));
}

#[test]
fn dies_after_duration() {
    let p = test_params();
    assert!(!alive(&p, 42));
    assert!(!alive(&p, 40));
    assert!(alive(&p, 39));
    assert_eq!(alpha_level(&p, 40), 0);
}

#[test]
fn fade_rises_holds_and_falls_in_exact_levels() {
    let p = test_params();
    // Peak level: fade_in (10) times the fade-out span in thirds (120 − 80).
    assert_eq!(alpha_level(&p, 0), 0);
    assert_eq!(alpha_level(&p, 5), 5 * 40);
    assert_eq!(alpha_level(&p, 10), 10 * 40);
    assert_eq!(alpha_level(&p, 26), 10 * 40);
    // From frame 26⅔ on, the fall is 3·(40 − f).
    assert_eq!(alpha_level(&p, 27), 10 * 39);
    assert_eq!(alpha_level(&p, 39), 10 * 3);
    assert_eq!(default_fade_out_start(40), 80);
}

#[test]
fn spike_draws_follow_the_mixed_seed_generator() {
    assert_eq!(SEED_MIX, 0x9E37_79B9);
    let p = test_params();
    let seed = 1234;
    let d = spike_draws(&p, seed);
    let seq = draw_sequence(seed, 80);
    for (i, s) in d.iter().enumerate() {
        assert_eq!(s.longitude, seq[4 * i]);
        assert_eq!(s.angular, seq[4 * i + 1]);
        assert_eq!(s.length, seq[4 * i + 2]);
        assert_eq!(s.growth, seq[4 * i + 3]);
        assert_eq!(s.change, None);
    }
}

#[test]
fn change_phase_takes_a_fifth_draw_per_spike() {
    let p = SpikeBurstParams { count: 3, duration_frames: 80, fade_in_frames: 10, fade_out_start_thirds: 160, change_growth: true };
    let seed = 0xDEAD_BEEF;
    let d = spike_draws(&p, seed);
    let seq = draw_sequence(seed, 15);
    assert_eq!(d.len(), 3);
    for (i, s) in d.iter().enumerate() {
        assert_eq!(s.longitude, seq[5 * i]);
        assert_eq!(s.change, Some(seq[5 * i + 4]));
    }
}

#[test]
fn same_recipe_and_seed_play_back_identically() {
    let p = test_params();
    let mut b1 = SpikeBurst::new(p, 0);
    let mut b2 = SpikeBurst::new(p, 0);
    assert!(b1.tick(10));
    assert!(b2.tick(10));
    assert_eq!(b1.spike_count(), 20);
    for i in 0..20 {
        assert_eq!(b1.spike(i), b2.spike(i));
    }
    assert_eq!(b1.current_alpha(), b2.current_alpha());
    assert_eq!(b1.current_alpha(), alpha_level(&p, 10));
    let other = SpikeBurst::new(p, 1);
    assert_ne!(other.spike(0), b1.spike(0));
    assert!(!b1.tick(30));
    assert!(!b1.alive());
    assert_eq!(b1.age_frames(), 40);
}

#[test]
fn a_burst_without_fades_is_full_from_its_first_frame_to_its_fade_start() {
    let p = SpikeBurstParams { count: 1, duration_frames: 10, fade_in_frames: 0, fade_out_start_thirds: 30, change_growth: false };
    assert_eq!(alpha_level(&p, 0), 0);
    assert_eq!(alpha_level(&p, 1), 1);
    assert_eq!(alpha_level(&p, 9), 1);
    assert_eq!(alpha_level(&p, 10), 1);
    assert_eq!(alpha_level(&p, 11), 0);
    let big = SpikeBurstParams { count: 1, duration_frames: u32::MAX, fade_in_frames: u32::MAX, fade_out_start_thirds: 0, change_growth: false };
    assert_eq!(alpha_level(&big, 1), 3 * (u32::MAX as u128 - 1));
}

#[test]
fn half_frames_fade_in_and_out_exactly() {
    let p = test_params();
    // Frame 2.5 of a 10-frame rise, before the fade-out (from frame 26⅔).
    assert_eq!(alpha_in_ticks(&p, 5, 2), AlphaFraction { rise: 5, rise_den: 20, fall: 80, fall_den: 80 });
    // Frame 35: (40 − 35) / (40 − 26⅔) = 0.375 of the fall left.
    assert_eq!(alpha_in_ticks(&p, 70, 2), AlphaFraction { rise: 20, rise_den: 20, fall: 30, fall_den: 80 });
    assert_eq!(alpha_in_ticks(&p, 80, 2).fall, 0);
    assert!(alive_in_ticks(&p, 79, 2));
    assert!(!alive_in_ticks(&p, 80, 2));
}

#[test]
fn a_half_frame_burst_ages_and_fades_exactly() {
    let mut b = SpikeBurst::new_in_ticks(test_params(), 42, 2);
    assert!(b.tick(5));
    assert_eq!(b.current_alpha_in_ticks(), AlphaFraction { rise: 5, rise_den: 20, fall: 80, fall_den: 80 });
    assert!(b.tick(74));
    assert!(!b.tick(1));
    assert!(!b.alive());
    assert_eq!(b.current_alpha_in_ticks().fall, 0);
}

#[test]
fn zero_length_ramps_take_a_thousandth_of_a_frame() {
    let p = SpikeBurstParams { count: 1, duration_frames: 10, fade_in_frames: 0, fade_out_start_thirds: 30, change_growth: false };
    // At 4000 ticks a frame, one tick in is a quarter of the guard's
    // thousandth of a frame.
    assert_eq!(alpha_in_ticks(&p, 0, 4000).rise, 0);
    assert_eq!(alpha_in_ticks(&p, 1, 4000), AlphaFraction { rise: 1000, rise_den: 4000, fall: 12000, fall_den: 12000 });
    assert_eq!(alpha_in_ticks(&p, 4, 4000).rise, 4000);
    // The empty fade-out window at frame 10 closes over a thousandth of a frame.
    assert_eq!(alpha_in_ticks(&p, 40000, 4000).fall, 12000);
    assert_eq!(alpha_in_ticks(&p, 40001, 4000).fall, 9000);
    assert_eq!(alpha_in_ticks(&p, 40004, 4000).fall, 0);
    // On whole frames both ramps are instantaneous.
    assert_eq!(alpha_in_ticks(&p, 1, 1), AlphaFraction { rise: 1, rise_den: 1, fall: 3, fall_den: 3 });
    assert_eq!(alpha_in_ticks(&p, 11, 1).fall, 0);
}
