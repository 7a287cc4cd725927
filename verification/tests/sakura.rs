use game::draw::EffectStatus;
use game::sakura::{petal_motion, SakuraRain, MAX_PETALS, SPRITE, SPRITES};

fn tick(r: &mut SakuraRain, frames: u32) {
    for _ in 0..frames {
        assert_eq!(r.advance(1), EffectStatus::Running);
    }
}

#[test]
fn petals_accumulate_to_the_cap() {
    let mut r = SakuraRain::new(0x1357_9BDF);
    tick(&mut r, 10);
    let early = r.petal_count();
    tick(&mut r, 400);
    let full = r.petal_count();
    assert!(full > early, "petals accumulate ({early} -> {full})");
    assert_eq!(early, 5);
    assert_eq!(full, MAX_PETALS, "capped at {MAX_PETALS}");
}

#[test]
fn action_index_varies_across_petals() {
    let seed = (3.0f32 * 91.0 + 7.0f32 * 57.0) as i64 as u32 ^ 0x1357_9BDF;
    let mut r = SakuraRain::new(seed);
    tick(&mut r, 400);
    let actions: std::collections::BTreeSet<u32> = (0..r.petal_count() as usize).map(|k| r.action_of(k)).collect();
    assert!(actions.len() > 1, "random action 0-2 across petals");
    assert!(actions.iter().all(|a| *a < 3));
}

#[test]
fn uses_resolved_sakura_sprite() {
    assert_eq!(SPRITE, "data/sprite/이팩트/sakura01");
    assert!(SPRITES.contains(&SPRITE));
}

#[test]
fn actions_are_the_fifth_of_seven_draws() {
    let seed = 0x2222_0000u32;
    let mut r = SakuraRain::new(seed);
    r.advance(6);
    assert_eq!(r.petal_count(), 3);
    let mut state = seed | 1;
    for k in 0..3 {
        let mut draws = [0u32; 7];
        for d in draws.iter_mut() {
            state = state.wrapping_mul(1_664_525).wrapping_add(1_013_904_223);
            *d = state;
        }
        assert_eq!(r.action_of(k), draws[4] % 3);
    }
}

#[test]
fn one_big_step_spawns_the_same_rain() {
    let mut a = SakuraRain::new(99);
    let mut b = SakuraRain::new(99);
    a.advance(301);
    tick(&mut b, 301);
    assert_eq!(a.petal_count(), b.petal_count());
    for k in 0..a.petal_count() as usize {
        assert_eq!(a.action_of(k), b.action_of(k));
    }
    assert_eq!(petal_motion(35), 0);
    assert_eq!(petal_motion(36), 1);
    assert_eq!(petal_motion(80), 2);
}
