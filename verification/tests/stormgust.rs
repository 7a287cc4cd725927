use game::stormgust::{
    spawn_pair, spawn_pair_in_ticks, spike_draws, spike_duration_frames, IceSpike, spike_fade, spike_rise, SpikeSpawner, FINAL_FRAME, FRAMES_PER_SECOND, SPIKES_PER_SPAWN,
    SPIKE_FADE_FRAMES, TOTAL_DURATION_MS,
};

#[test]
fn total_duration_matches_final_frame() {
    // Sanity: TOTAL_DURATION_MS should equal FINAL_FRAME / 60 * 1000.
    let expected = ((FINAL_FRAME as f32 / FRAMES_PER_SECOND as f32) * 1000.0) as u32;
    assert_eq!(TOTAL_DURATION_MS, expected);
    assert!(TOTAL_DURATION_MS >= 3500 && TOTAL_DURATION_MS <= 3700);
}

#[test]
fn total_duration_is_3583_ms() {
    assert_eq!(TOTAL_DURATION_MS, 3583);
}

#[test]
fn no_spikes_before_first_spawn() {
    let mut s = SpikeSpawner::new();
    assert!(s.spawn_due(57).is_empty());
    assert_eq!(s.spawn_due(58), vec![58]);
}

#[test]
fn spawns_eight_spikes_over_lifetime() {
    let mut s = SpikeSpawner::new();
    let mut frames = Vec::new();
    for f in 0..400u32 {
        frames.extend(s.spawn_due(f));
    }
    assert_eq!(frames, vec![58, 87, 116, 145]);
    assert_eq!(frames.len() as u32 * SPIKES_PER_SPAWN, 8);
}

#[test]
fn catch_up_tick_fires_every_due_event_in_order() {
    let mut s = SpikeSpawner::new();
    // One long tick covering several intervals (the catch-up path).
    assert_eq!(s.spawn_due(120), vec![58, 87, 116]);
    assert_eq!(s.spawn_due(1000), vec![145]);
    assert!(s.spawn_due(2000).is_empty());
}

#[test]
fn spike_alpha_fades_near_end_of_life() {
    for f in [58u32, 87, 116, 145] {
        assert_eq!(f + spike_duration_frames(f), FINAL_FRAME);
    }
    assert_eq!(spike_duration_frames(145), 70);
    // Past the final frame a spike still gets its minimum fade window.
    assert_eq!(spike_duration_frames(210), SPIKE_FADE_FRAMES);
    assert_eq!(spike_duration_frames(500), SPIKE_FADE_FRAMES);
}

#[test]
fn declares_stormgust_str_overlay() {
    assert_eq!(game::stormgust::STR_OVERLAY, "stormgust");
}

#[test]
fn spike_moves_during_speed_limit_window_then_freezes() {
    // The first pair spawns on frame 58; step the spike through its first
    // frames, then well past the 3-frame window.
    let moved = spike_rise(0, 1) + spike_rise(1, 1);
    assert!(moved > 0, "spike base changes during the motion window");
    assert_eq!(spike_rise(2, 30), 1, "the step crossing the window travels up to its end");
    assert_eq!(spike_rise(32, 30), 0, "spike is frozen after the speed-limit window");
    assert_eq!(spike_rise(62, 30), 0);
    let mut spike = IceSpike::new(58);
    spike.step(2);
    assert_eq!((spike.age, spike.travelled), (2, 2));
    spike.step(2);
    assert_eq!((spike.age, spike.travelled), (4, 3));
    spike.step(100);
    assert_eq!((spike.age, spike.travelled), (104, 3));
    assert!(spike.alive());
    spike.step(53);
    assert!(!spike.alive());
    assert_eq!(spike.fade().0, 0);
}

#[test]
fn spikes_hold_then_fade_out_by_frame_215() {
    // A spike spawned on frame 58 lives 157 frames and fades over its last 10.
    assert_eq!(spike_fade(58, 0), (10, 10));
    assert_eq!(spike_fade(58, 147), (10, 10));
    assert_eq!(spike_fade(58, 152), (5, 10));
    assert_eq!(spike_fade(58, 157), (0, 10));
}

#[test]
fn spikes_take_three_draws_each_in_spawn_order() {
    let seed = 0x9E37_79B9u32;
    let mut st = seed;
    let mut draws = Vec::new();
    for _ in 0..24 {
        st = st.wrapping_mul(1_664_525).wrapping_add(1_013_904_223);
        draws.push(st >> 8);
    }
    for j in 0..8u32 {
        let k = 3 * j as usize;
        assert_eq!(spike_draws(seed, j), (draws[k], draws[k + 1], draws[k + 2]));
    }
}

#[test]
fn a_late_tick_spawns_the_pair_already_aged() {
    let mut spikes = Vec::new();
    // Event of frame 87 inserted on frame 90: three frames old, and it has
    // already travelled its whole speed-limit window.
    spawn_pair(&mut spikes, 87, 90);
    spawn_pair(&mut spikes, 116, 116);
    assert_eq!(spikes.len(), 4);
    for s in &spikes[..2] {
        assert_eq!((s.spawn_frame, s.age, s.travelled), (87, 3, 3));
    }
    assert_eq!((spikes[2].age, spikes[2].travelled), (0, 0));
    assert_eq!(spike_duration_frames(spikes[0].spawn_frame), 128, "lifetime counts from the event frame");
}

#[test]
fn half_frame_ticks_move_age_and_fade_spikes_exactly() {
    let mut spike = IceSpike::new_in_ticks(58, 2);
    // Frame 2.5: all of it inside the 3-frame window.
    spike.step(5);
    assert_eq!((spike.age, spike.travelled), (5, 5));
    // Frame 3.5: the step travels half a frame, up to the window's end.
    spike.step(2);
    assert_eq!((spike.age, spike.travelled), (7, 6));
    // Frame 152.5: 4.5 of the last 10 frames left.
    spike.step(298);
    assert!(spike.alive());
    assert_eq!(spike.fade(), (9, 20));
    spike.step(9);
    assert!(!spike.alive());
    assert_eq!(spike.fade().0, 0);
    let mut spikes = Vec::new();
    // Event of frame 87 inserted at frame 88.5: 1.5 frames old.
    spawn_pair_in_ticks(&mut spikes, 87, 177, 2);
    assert_eq!(spikes.len(), 2);
    assert!(spikes.iter().all(|s| (s.ticks, s.age, s.travelled) == (2, 3, 3)));
}
