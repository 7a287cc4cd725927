use game::draw::EffectStatus;
use game::rng::Rng;
use game::stin::{
    draw_spawn, fan_curl, stagger_offset, SpawnKind, StinClock, SwirlState, STIN, STIN2, STIN4, STIN5,
};

fn tick(c: &mut StinClock, frames: u32) -> EffectStatus {
    let mut st = EffectStatus::Running;
    for _ in 0..frames {
        st = c.step_frame(&[]);
    }
    st
}

fn slots(s: &SwirlState) -> [u32; 4] {
    [s.head, s.trail1, s.trail2, s.trail3]
}

fn lit_slots(c: &StinClock) -> usize {
    (0..c.swirl_count()).map(|i| slots(&c.swirl(i)).iter().filter(|a| **a > 0).count()).sum()
}

fn alpha_sum(c: &StinClock) -> u32 {
    (0..c.swirl_count()).map(|i| slots(&c.swirl(i)).iter().sum::<u32>()).sum()
}

#[test]
fn stin_emits_blue_alpha_quads_then_dies() {
    let p = STIN();
    let mut c = StinClock::new(p, true);
    tick(&mut c, 6);
    assert!(lit_slots(&c) > 0, "swirl quads emitted");
    let t = p.tint_pct;
    assert!(t[2] > t[0] && t[2] > t[1], "blue tint: {t:?}");
    assert_eq!(tick(&mut c, 300), EffectStatus::Dead);
}

#[test]
fn motion_trail_grows_to_cap_then_fades() {
    let mut c = StinClock::new(STIN(), true);
    tick(&mut c, 12);
    let peak = lit_slots(&c);
    assert!(peak >= 2, "head plus at least one trail copy: {peak}");
    assert_eq!(peak, 4);
    let peak_alpha = alpha_sum(&c);
    tick(&mut c, 30);
    let late_alpha = alpha_sum(&c);
    assert!(late_alpha < peak_alpha, "alpha fades: {peak_alpha} -> {late_alpha}");
}

#[test]
fn stin5_is_green_and_travels_toward_target() {
    let p = STIN5();
    let mut c = StinClock::new(p, true);
    tick(&mut c, 8);
    assert!(lit_slots(&c) > 0);
    let t = p.tint_pct;
    assert!(t[1] > t[0] && t[1] > t[2], "green tint: {t:?}");
    assert!(c.swirl_count() >= 4, "staggered batch alive: {}", c.swirl_count());
    assert_eq!(c.swirl_count(), 5);
    assert_eq!(stagger_offset(0), (0, 0));
    assert_eq!(stagger_offset(1), (5, 0));
    assert_eq!(stagger_offset(2), (-5, 0));
    assert_eq!(stagger_offset(3), (0, 5));
    assert_eq!(stagger_offset(4), (0, -5));
}

#[test]
fn stin2_pair_launches_perpendicular_then_seeks_target() {
    let mut c = StinClock::new(STIN2(), true);
    assert_eq!(c.swirl_count(), 2);
    // Seeking swirls hold their alpha until they reach the target.
    tick(&mut c, 40);
    assert_eq!(c.swirl_count(), 2);
    assert_eq!(c.swirl(0).head, 250 * 125);
    // Swirl 0 reaches its target; from the next frame it fades.
    c.step_frame(&[true, false]);
    assert!(c.swirl(0).arrived && !c.swirl(1).arrived);
    c.step_frame(&[]);
    assert_eq!(c.swirl(0).head, 245 * 125);
    assert_eq!(c.swirl(1).head, 250 * 125);
}

#[test]
fn head_rises_caps_and_falls_on_its_schedule() {
    let p = STIN();
    let mut s = SwirlState::fresh();
    let mut heads = Vec::new();
    for _ in 0..12 {
        s = s.step(&p, true, false);
        heads.push(s.head / 125);
    }
    assert_eq!(heads, vec![25, 50, 75, 100, 125, 150, 175, 200, 225, 250, 245, 240]);
    // Frame 12 shifted the trail: 0.8 of the head, then of the copies.
    assert_eq!(s.trail1, 240 * 100);
    assert_eq!(s.trail2, 225 * 80);
    assert_eq!(s.trail3, 150 * 64);
}

#[test]
fn straight_cast_ends_and_in_place_homing_flies_straight() {
    let mut c = StinClock::new(STIN(), false);
    let mut frames = 0;
    while tick(&mut c, 1) == EffectStatus::Running {
        frames += 1;
    }
    // Head dark by frame 10 + 50; the trail follows within three shifts.
    assert!(frames <= 60 + 12, "ended after {frames} frames");
    // In place, a homing variant steps straight and ends on its own.
    let mut c = StinClock::new(STIN4(), false);
    assert_eq!(c.swirl_count(), 8);
    assert_eq!(tick(&mut c, 100), EffectStatus::Dead);
}

#[test]
fn planned_durations() {
    assert_eq!(STIN().total_duration_ms(), 1500);
    assert_eq!(STIN2().total_duration_ms(), 3777);
    assert_eq!(STIN4().total_duration_ms(), 1316);
    assert_eq!(STIN5().total_duration_ms(), 1000);
}

#[test]
fn spawn_draws_follow_the_generator() {
    let mut r = Rng::from_seed(7);
    let mut raw = Rng::from_seed(7);
    let d = draw_spawn(&mut r, true);
    let v: Vec<u32> = (0..4).map(|_| raw.next_u32()).collect();
    assert_eq!(d.y_jitter, v[0] % 5);
    assert_eq!(d.spread_deg, 25 + v[1] % 21);
    assert_eq!(d.radius_draw, v[2] % 11);
    assert_eq!(d.spin_deg, v[3] % 360);
    let d = draw_spawn(&mut r, false);
    let v: Vec<u32> = (0..3).map(|_| raw.next_u32()).collect();
    assert_eq!((d.y_jitter, d.spread_deg, d.radius_draw, d.spin_deg), (v[0] % 5, 0, v[1] % 11, v[2] % 360));
    assert_eq!(fan_curl(0), 1);
    assert_eq!(fan_curl(1), -1);
    assert_eq!(STIN4().spawn, SpawnKind::Fan { count: 8 });
}

#[test]
fn stin5_spawns_one_swirl_a_frame_for_five_frames_then_none() {
    let p = STIN5();
    let mut c = StinClock::new(p, true);
    assert_eq!(c.swirl_count(), 0);
    for f in 1..=5usize {
        c.step_frame(&[]);
        assert_eq!(c.swirl_count(), f);
    }
    for _ in 0..200 {
        c.step_frame(&[]);
        assert!(c.swirl_count() <= 5);
        for i in 0..c.swirl_count() {
            let s = c.swirl(i);
            assert!(s.head <= 125 * p.alpha_max && s.trail1 <= 100 * p.alpha_max);
            assert!(s.trail2 <= 80 * p.alpha_max && s.trail3 <= 64 * p.alpha_max);
        }
    }
}
