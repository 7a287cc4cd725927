use game::draw::EffectStatus;
use game::rng::lcg_next;
use game::sandwind::{advance_sand, sand_cloud, sand_cloud_in_ticks, TOTAL_DURATION_MS as SAND_MS};
use game::status_up::{advance_streaks, status_streaks, status_streaks_in_ticks, TOTAL_DURATION_MS as STATUS_MS};

#[test]
fn sand_spawns_every_three_frames_and_ages_per_update() {
    let mut g = sand_cloud(0x5A5A_C0DE);
    for _ in 0..10 {
        advance_sand(&mut g, 1);
    }
    let frames: Vec<u32> = g.grains().iter().map(|p| p.spawn_frame).collect();
    let ages: Vec<u32> = g.grains().iter().map(|p| p.age).collect();
    assert_eq!(frames, vec![0, 3, 6, 9]);
    assert_eq!(ages, vec![10, 8, 5, 2]);
}

#[test]
fn sand_draws_come_from_the_seeded_stream() {
    let seed = 12345;
    let mut g = sand_cloud(seed);
    advance_sand(&mut g, 4);
    let mut s = seed;
    let expect: Vec<u32> = (0..6).map(|_| lcg_next(&mut s)).collect();
    let got: Vec<u32> = g.grains().iter().flat_map(|p| vec![p.draw0, p.draw1, p.draw2]).collect();
    assert_eq!(got, expect);
}

#[test]
fn sand_ends_after_140_frames() {
    let mut g = sand_cloud(1);
    let mut status = EffectStatus::Running;
    let mut frames = 0;
    while status == EffectStatus::Running {
        status = advance_sand(&mut g, 1);
        frames += 1;
    }
    assert_eq!(frames, 140);
    assert_eq!(SAND_MS, 2333);
}

#[test]
fn streaks_fire_every_two_frames_inside_the_window() {
    let mut g = status_streaks(7);
    advance_streaks(&mut g, 6);
    let frames: Vec<u32> = g.grains().iter().map(|p| p.spawn_frame).collect();
    assert_eq!(frames, vec![0, 2, 4, 6]);
    assert!(g.grains().iter().all(|p| p.age == 6));
}

#[test]
fn streaks_skip_an_update_that_ends_past_the_window() {
    let mut g = status_streaks(7);
    advance_streaks(&mut g, 61);
    assert!(g.grains().is_empty());
    assert_eq!(STATUS_MS, 1833);
}

#[test]
fn streaks_end_after_110_frames() {
    let mut g = status_streaks(9);
    assert_eq!(advance_streaks(&mut g, 60), EffectStatus::Running);
    assert_eq!(advance_streaks(&mut g, 49), EffectStatus::Running);
    assert_eq!(advance_streaks(&mut g, 1), EffectStatus::Dead);
}

#[test]
fn periodic_spawn_drifts_in_wind_direction() {
    let mut g = sand_cloud(7);
    for _ in 0..15 {
        advance_sand(&mut g, 1);
    }
    assert!(!g.grains().is_empty());
    assert_eq!(g.grains().len(), 6);
}

#[test]
fn dies_after_full_lifetime() {
    let mut g = sand_cloud(7);
    let total = 90 + 50 + 5;
    let mut status = EffectStatus::Running;
    for _ in 0..total {
        status = advance_sand(&mut g, 1);
        if status == EffectStatus::Dead {
            break;
        }
    }
    assert_eq!(status, EffectStatus::Dead);
}

#[test]
fn incagility_emits_billboards_rising_around_entity() {
    let mut g = status_streaks(11);
    for _ in 0..6 {
        advance_streaks(&mut g, 1);
    }
    assert!(g.grains().len() >= 3, "spawn cadence every 2 frames");
}

#[test]
fn effect_dies_after_parent_plus_particle_lifetime() {
    let mut g = status_streaks(11);
    let total = 60 + 50 + 5;
    let mut status = EffectStatus::Running;
    for _ in 0..total {
        status = advance_streaks(&mut g, 1);
        if status == EffectStatus::Dead {
            break;
        }
    }
    assert_eq!(status, EffectStatus::Dead);
}

#[test]
fn half_frame_updates_spawn_on_whole_frames_and_age_in_ticks() {
    let mut g = sand_cloud_in_ticks(7, 2);
    // Half a frame in: frame 0's particle, half a frame old.
    advance_sand(&mut g, 1);
    advance_sand(&mut g, 1);
    // 3.5 frames in: frame 3's particle joins, aged by its update's 2.5 frames.
    advance_sand(&mut g, 5);
    let frames: Vec<u32> = g.grains().iter().map(|p| p.spawn_frame).collect();
    let ages: Vec<u32> = g.grains().iter().map(|p| p.age).collect();
    assert_eq!(frames, vec![0, 3]);
    assert_eq!(ages, vec![7, 5]);
    // In half-frame updates the cloud ends at frame 140, the buff at 110.
    let mut sand = sand_cloud_in_ticks(1, 2);
    let mut n = 0;
    while advance_sand(&mut sand, 1) == EffectStatus::Running {
        n += 1;
    }
    assert_eq!(n + 1, 280);
    let mut buff = status_streaks_in_ticks(1, 2);
    let mut m = 0;
    while advance_streaks(&mut buff, 1) == EffectStatus::Running {
        m += 1;
    }
    assert_eq!(m + 1, 220);
}
