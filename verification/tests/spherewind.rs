use game::draw::EffectStatus;
use game::spherewind::{
    SphereRibbons, BABY_LAST_FRAME, BABY_TOTAL_DURATION_MS, PERSISTENT_ALPHA, RIBBON_COUNT,
    TEXTURES,
};

#[test]
fn spawns_twenty_ribbon_bands() {
    let s = SphereRibbons::new(7, false);
    assert_eq!(s.ribbon_count(), 20);
    assert_eq!(RIBBON_COUNT, 20);
    assert_eq!(TEXTURES, ["blue_ivy.bmp", "fire_ivy.bmp"]);
}

#[test]
fn bands_span_a_sphere_not_a_plane() {
    let s = SphereRibbons::new(7, false);
    let rises: Vec<u32> = (0..4).map(|j| s.ribbon(j).rise_angle_deg).collect();
    assert_eq!(rises, vec![0, 45, 90, 135]);
    assert_eq!(s.ribbon(4).rise_angle_deg, 9);
    assert_eq!(s.ribbon(19).rise_angle_deg, 135 + 36);
    for j in 0..20 {
        let r = s.ribbon(j);
        assert!(r.spin_deg >= 3 && r.spin_deg <= 6);
        assert!(r.full_display_deg >= 180 && r.full_display_deg <= 270);
        assert!(r.max_height_steps <= 10);
    }
}

#[test]
fn persistent_sphere_spins_and_stays_running() {
    let mut s = SphereRibbons::new(3, false);
    let before = s.ribbon(0);
    for _ in 0..600 {
        s.step_frame();
    }
    assert!(!s.finished());
    assert_eq!(s.ribbon_count(), 20);
    let after = s.ribbon(0);
    assert_eq!(after.rot_start_deg, (before.rot_start_deg + 600 * before.spin_deg) % 360);
    assert_eq!(after.alpha, PERSISTENT_ALPHA);
}

#[test]
fn baby_fades_in_expands_then_self_terminates() {
    let mut s = SphereRibbons::new(11, true);
    for _ in 0..40 {
        s.step_frame();
    }
    assert!(!s.finished());
    let visible = (0..s.ribbon_count()).filter(|&j| s.ribbon(j).alpha > 0).count();
    assert!(visible > 0);
    let mut frames = 40u32;
    while !s.finished() {
        s.step_frame();
        frames += 1;
        assert!(frames <= BABY_LAST_FRAME);
    }
    assert!(frames * 1000 / 60 <= BABY_TOTAL_DURATION_MS);
}

#[test]
fn same_seed_same_sphere() {
    let a = SphereRibbons::new(42, true);
    let b = SphereRibbons::new(42, true);
    for j in 0..20 {
        assert_eq!(a.ribbon(j).rot_start_deg, b.ribbon(j).rot_start_deg);
        assert_eq!(a.ribbon(j).process, b.ribbon(j).process);
        assert!(a.ribbon(j).process <= 0 && a.ribbon(j).process >= -19);
    }
}

#[test]
fn update_reports_running_for_the_aura_and_dead_once_baby_empties() {
    let mut aura = SphereRibbons::new(3, false);
    assert_eq!(aura.update(30), EffectStatus::Running);
    assert_eq!(aura.update(600), EffectStatus::Running);
    assert_eq!(aura.ribbon_count(), 20);
    let mut baby = SphereRibbons::new(11, true);
    assert_eq!(baby.update(30), EffectStatus::Running);
    assert_eq!(baby.update(310), EffectStatus::Dead);
    assert_eq!(baby.ribbon_count(), 0);
}

#[test]
fn persistent_update_spins_each_ribbon_by_frames_times_its_spin() {
    let mut s = SphereRibbons::new(0xABCD, false);
    let before: Vec<(u32, u32, u32)> =
        (0..RIBBON_COUNT).map(|i| { let r = s.ribbon(i); (r.rot_start_deg, r.spin_deg, r.rise_angle_deg) }).collect();
    s.update(30);
    for i in 0..RIBBON_COUNT {
        let r = s.ribbon(i);
        let (rot, spin, rise) = before[i];
        assert_eq!(r.rot_start_deg, (rot + 30 * spin) % 360);
        assert_eq!((r.spin_deg, r.rise_angle_deg, r.alpha), (spin, rise, PERSISTENT_ALPHA));
    }
}
