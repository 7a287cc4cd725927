use game::draw::EffectStatus;
use game::throw_item::{
    history_len, trail_quads, ThrowItemClock, THROW_BOTTLES, THROW_COIN, THROW_ITEM3, THROW_ITEM9, THROW_MOLOTOV,
    THROW_STONE, TOTAL_DURATION_MS,
};

/// Flight frames for a throw over `ground_dist` at a fixed step: the count
/// the renderer derives from the geometry.
fn steps_for(ground_dist: f32, step: f32) -> u32 {
    ((ground_dist / step).ceil().max(1.0)) as u32
}

#[test]
fn variants_use_their_own_texture() {
    assert_eq!(THROW_STONE().texture, "유저인터페이스/item/돌.bmp");
    assert_eq!(THROW_COIN().texture, "coin_a.bmp");
    assert_eq!(THROW_BOTTLES().texture, "유저인터페이스/item/염산병.bmp");
    assert_eq!(THROW_ITEM9().texture, "유저인터페이스/item/풍마_뇌우.bmp|유저인터페이스/item/풍마_대차륜.bmp");
}

#[test]
fn composite_throwitem4_staggers_its_two_projectiles() {
    let variants = [THROW_MOLOTOV(), THROW_ITEM3()];
    let mut c = ThrowItemClock::new(&variants, &[25, 25]);
    for _ in 0..7 {
        c.tick();
    }
    let started = (0..2).filter(|i| c.projectile(*i).started).count();
    assert_eq!(started, 1, "only the molotov has launched at frame 7");
    assert_eq!(c.projectile(0).flight_frame, 3);
}

#[test]
fn lands_and_dies() {
    let coin = THROW_COIN();
    let steps = steps_for(20.0, coin.fixed_step.unwrap() as f32);
    assert_eq!(steps, 7);
    let mut c = ThrowItemClock::new(&[coin], &[steps]);
    let mut status = EffectStatus::Running;
    let mut frames = 0;
    for _ in 0..(TOTAL_DURATION_MS * 60 / 1000) {
        status = c.tick();
        frames += 1;
        if status == EffectStatus::Dead {
            break;
        }
    }
    assert_eq!(status, EffectStatus::Dead);
    // Lands on flight index 8 (past 1.05 × 7), then fades over 13 frames.
    assert_eq!(frames, 21);
}

#[test]
fn projectile_spins_lands_and_fades_on_schedule() {
    let stone = THROW_STONE();
    let mut c = ThrowItemClock::new(&[stone], &[10]);
    for _ in 0..11 {
        c.tick();
    }
    let p = c.projectile(0);
    assert!(!p.landed);
    assert_eq!(p.spin_deg, 110);
    assert_eq!(p.alpha, 255);
    c.tick();
    let p = c.projectile(0);
    assert!(p.landed);
    assert_eq!(p.alpha, 235);
    for _ in 0..11 {
        c.tick();
    }
    assert_eq!(c.projectile(0).alpha, 15);
    assert_eq!(c.tick(), EffectStatus::Dead);
    assert_eq!(c.projectile(0).alpha, 0);
    // A dead projectile is not stepped again.
    c.tick();
    assert_eq!(c.projectile(0).flight_frame, 24);
}

#[test]
fn trail_fills_behind_the_projectile() {
    assert_eq!(trail_quads(history_len(1)), 0);
    assert_eq!(trail_quads(history_len(3)), 1);
    assert_eq!(trail_quads(history_len(6)), 2);
    assert_eq!(trail_quads(history_len(40)), 3);
    assert_eq!(history_len(40), 8);
}
