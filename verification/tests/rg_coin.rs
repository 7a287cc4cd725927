use game::draw::EffectStatus;
use game::rg_coin::{CoinStyle, RgCoinParams, DELAY_RANGE, INTIMIDATE, RG_COIN, RG_COIN2, RG_COIN3};

#[test]
fn steal_coin_emits_flipping_world_quads_after_their_delay() {
    let p = RG_COIN();
    assert_eq!(p.str_overlay, Some("steal_coin"));
    assert_eq!(p.style, CoinStyle::FlipY);
    let coins = p.coins();
    assert_eq!(coins.len(), 120);
    assert!(coins.iter().all(|c| c.texture == "coin_a.bmp"));
    assert!(coins.iter().all(|c| c.delay >= 18 && c.delay < 18 + DELAY_RANGE));
    // Nothing is visible one frame in.
    assert!(coins.iter().all(|c| p.alpha_at(1 - c.delay as i64) == 0));
    // Past the latest delay every coin is live.
    let frame = (p.delay_base + DELAY_RANGE + 5) as i64;
    assert!(coins.iter().all(|c| p.alpha_at(frame - c.delay as i64) > 0));
}

#[test]
fn intimidate_is_a_dim_blue_long_delayed_swarm() {
    let p = INTIMIDATE();
    let coins = p.coins();
    assert_eq!(coins.len(), 80);
    assert!(coins.iter().all(|c| c.texture == "white01.bmp"));
    assert!(coins.iter().all(|c| c.delay >= 70));
    assert_eq!(p.alpha_at(15), 1500);
    assert!((0..200).all(|k| p.alpha_at(k) <= 1500));
    // Coins are long gone by the time Intimidate's trickle starts.
    assert!(p.draws_at(&coins, 18 + DELAY_RANGE + 5).is_empty(), "Intimidate quads delayed past the coin window");
    // Past the max delay (100) every quad is live but none has faded out.
    let draws = p.draws_at(&coins, 70 + DELAY_RANGE + 5);
    assert_eq!(draws.len(), 80, "20 launches × 4 = 80 quads");
    assert!(draws.iter().all(|d| d.texture == "white01.bmp"));
    assert!(draws.iter().all(|d| d.alpha_2550ths > 0 && d.alpha_2550ths <= 1500), "dimmer than coins");
}

#[test]
fn full_strip_splits_shields_and_swords() {
    let coins = RG_COIN2().coins();
    assert_eq!(coins.len(), 32);
    assert_eq!(coins.iter().filter(|c| c.texture == "shield.bmp").count(), 16);
    assert_eq!(coins.iter().filter(|c| c.texture == "sword.bmp").count(), 16);
    assert_eq!(RG_COIN3().coins().len(), 16);
}

#[test]
fn alpha_fades_out_and_effect_terminates() {
    let p = RG_COIN();
    assert_eq!(p.alpha_at(0), 0);
    assert_eq!(p.alpha_at(1), 250);
    assert_eq!(p.alpha_at(10), 2500);
    assert_eq!(p.alpha_at(25), 2500);
    assert_eq!(p.alpha_at(26), 2430);
    assert_eq!(p.alpha_at(60), 50);
    assert_eq!(p.alpha_at(61), 0);
}

#[test]
fn durations_and_end() {
    let p = RG_COIN();
    assert_eq!(p.total_duration_ms(), 1811);
    assert_eq!(INTIMIDATE().total_duration_ms(), 2440);
    assert_eq!(p.status_at(108), EffectStatus::Running);
    assert_eq!(p.status_at(109), EffectStatus::Dead);
    // Every coin has faded once the effect is dead.
    let coins = p.coins();
    assert!(coins.iter().all(|c| p.alpha_at(109 - c.delay as i64) == 0));
}

#[test]
fn coin_schedule_is_deterministic() {
    let a = RG_COIN().coins();
    let b = RG_COIN().coins();
    assert!(a.iter().zip(b.iter()).all(|(x, y)| x.delay == y.delay && x.flip_draw == y.flip_draw));
}

#[test]
fn any_peak_up_to_255_ramps_in_exact_tenths() {
    let p = RgCoinParams { alpha_max_255: 255, ..RG_COIN() };
    // 25.5 of 255 per ramp frame, 2550 of 2550 at the peak.
    assert_eq!(p.alpha_at(1), 255);
    assert_eq!(p.alpha_at(3), 765);
    assert_eq!(p.alpha_at(20), 2550);
    assert_eq!(p.alpha_at(26), 2480);
    // 2550 − 70·36 = 30 on frame 61, gone on frame 62.
    assert_eq!(p.alpha_at(61), 30);
    assert_eq!(p.alpha_at(62), 0);
    let q = RgCoinParams { alpha_max_255: 7, ..RG_COIN() };
    assert_eq!(q.alpha_at(4), 28);
}

#[test]
fn a_very_late_stagger_saturates_the_length() {
    let p = RgCoinParams { delay_base: u32::MAX - DELAY_RANGE, ..RG_COIN() };
    assert_eq!(p.total_duration_ms(), u32::MAX);
    assert_eq!(p.status_at(1_000_000), EffectStatus::Running);
    let q = RgCoinParams { delay_base: 1_000_000_000, ..RG_COIN() };
    // 7·(1e9 + 55) + 250 sevenths of a frame → 16_666_667_619 ms, past u32.
    assert_eq!(q.total_duration_ms(), u32::MAX);
    let r = RgCoinParams { delay_base: 10_000_000, ..RG_COIN() };
    assert_eq!(r.total_duration_ms(), ((7 * (10_000_000u64 + 55) + 250) * 1000 / 420) as u32);
}

#[test]
fn half_frames_ramp_fade_draw_and_end_exactly() {
    let p = RG_COIN();
    // 1.5 frames into a flight: 1.5 · 250 / 10, kept as 750 / 5100.
    assert_eq!(p.alpha_in_ticks(3, 2), 750);
    // 25.5 frames in: half a frame of the −7 fade, 246.5 = 4930 / 5100.
    assert_eq!(p.alpha_in_ticks(51, 2), 4930);
    assert_eq!(p.alpha_in_ticks(0, 2), 0);
    let coins = p.coins();
    // Frame 30.5: each drawn quad has flown 61 − 2·delay ticks.
    let draws = p.draws_in_ticks(&coins, 61, 2);
    assert!(!draws.is_empty());
    for d in &draws {
        let c = coins[d.index];
        assert_eq!(d.process, 61 - 2 * c.delay);
        assert_eq!(d.alpha_2550ths, p.alpha_in_ticks(d.process as i64, 2));
        assert!(d.alpha_2550ths > 0 && d.alpha_2550ths <= 5000);
    }
    // The length is 1811 ms: Dead from 217.32 half-frame ticks.
    assert_eq!(p.status_in_ticks(217, 2), EffectStatus::Running);
    assert_eq!(p.status_in_ticks(218, 2), EffectStatus::Dead);
    assert!(p.draws_in_ticks(&coins, 218, 2).is_empty());
}
