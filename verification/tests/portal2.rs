use game::draw::EffectStatus;
use game::portal2::{
    status_at, HealSlot, Portal2Primitive, Portal2Slots, PortalSlot, RampHeight, CALLPARTNER_RESTART_RADIUS_Q, PORTAL2, PORTAL3, TEXTURES,
    TOTAL_DURATION_MS,
};

fn step_frames(s: &mut Portal2Slots, n: u32) {
    for _ in 0..n {
        s.step_one_frame();
    }
}

#[test]
fn variants_and_textures() {
    assert_eq!(TEXTURES, ["magic_violet.tga", "ring_blue.tga", "ring_red.tga"]);
    assert_eq!(TOTAL_DURATION_MS, 99990);
    let p2 = PORTAL2();
    assert_eq!(p2.heal_texture, "magic_violet.tga");
    assert_eq!(p2.portal_texture, "ring_blue.tga");
    assert!(!p2.call_partner);
    let p3 = PORTAL3();
    assert_eq!(p3.heal_texture, "ring_red.tga");
    assert_eq!(p3.portal_texture, "ring_red.tga");
    assert!(p3.call_partner);
}

#[test]
fn portal2_state1_spawns_with_staggered_starts() {
    let mut s = Portal2Slots::new(PORTAL2());
    step_frames(&mut s, 5);
    assert_eq!(s.portal_rings_drawn(), 1, "only the first ring at frame 5");
    step_frames(&mut s, 10);
    assert_eq!(s.portal_rings_drawn(), 2, "two rings at frame 15");
    step_frames(&mut s, 15);
    assert_eq!(s.portal_rings_drawn(), 3, "all three rings at frame 30");
    assert_eq!(s.frame_count(), 30);
}

#[test]
fn outward_ring_grows_half_a_unit_per_frame() {
    let mut s = Portal2Slots::new(PORTAL2());
    step_frames(&mut s, 6);
    let p = s.portal(0);
    assert_eq!(p.process, 6);
    assert_eq!(p.distance_q, 12);
    assert_eq!(p.alpha_b, 144);
}

#[test]
fn portal2_heal_slots_ramp_then_hold() {
    let mut s = Portal2Slots::new(PORTAL2());
    step_frames(&mut s, 10);
    for i in 0..3 {
        let h = s.heal(i);
        assert_eq!(h.alpha_b, 50);
        assert_eq!(h.distance, 4 - i as u32);
    }
    let mut out = Vec::new();
    s.collect_draws(&mut out);
    let pillars: Vec<_> = out.iter().filter_map(|p| match p {
        Portal2Primitive::HealPillar { radius, height, .. } => Some((*radius, *height)),
        _ => None,
    }).collect();
    assert_eq!(pillars.len(), 3, "expected 3 PP_HEAL slots at frame 10");
    for (r, h) in &pillars {
        assert!(matches!(r, 4 | 3 | 2));
        assert_eq!(*h, RampHeight::Rising { angle_deg: 10 }, "mid-ramp: 50·sin(10°)");
    }
    step_frames(&mut s, 81);
    for i in 0..3 {
        assert_eq!(s.heal(i).alpha_b, 75, "ramp stops adding after frame 15");
    }
    let mut late = Vec::new();
    s.collect_draws(&mut late);
    let heights: Vec<_> = late.iter().filter_map(|p| match p {
        Portal2Primitive::HealPillar { height, .. } => Some(*height),
        _ => None,
    }).collect();
    assert_eq!(heights, vec![RampHeight::Full; 3], "held at full height after the ramp");
}

#[test]
fn draw_list_is_pillars_then_live_rings() {
    let mut s = Portal2Slots::new(PORTAL2());
    let mut none = Vec::new();
    s.collect_draws(&mut none);
    assert!(none.is_empty(), "nothing is lit before the first frame");
    step_frames(&mut s, 5);
    let mut out = Vec::new();
    s.collect_draws(&mut out);
    assert_eq!(out.len(), 4);
    assert!(matches!(out[0], Portal2Primitive::HealPillar { radius: 4, alpha_b: 25, .. }));
    let r = s.portal(0);
    assert_eq!(out[3], Portal2Primitive::PortalRing {
        radius_q: r.distance_q, rot_deg: r.rot_start_deg, rise_angle_deg: r.rise_angle_deg, alpha_b: r.alpha_b,
        height: RampHeight::Rising { angle_deg: 45 },
    });
}

#[test]
fn heal_slots_spin_at_their_own_rates() {
    let mut s = Portal2Slots::new(PORTAL2());
    step_frames(&mut s, 1);
    assert_eq!(s.heal(0).rot_start_deg, 8);
    assert_eq!(s.heal(1).rot_start_deg, 146);
    assert_eq!(s.heal(2).rot_start_deg, 261);
}

#[test]
fn portal3_callpartner_resets_outward_then_contracts() {
    let mut s = Portal2Slots::new(PORTAL3());
    step_frames(&mut s, 6);
    let p = s.portal(0);
    assert!(p.live && p.alpha_b > 0);
    assert!(p.distance_q >= 28 && p.distance_q <= CALLPARTNER_RESTART_RADIUS_Q);
    assert_eq!(p.distance_q, 51);
    for _ in 0..200 {
        s.step_one_frame();
        for i in 0..3 {
            let q = s.portal(i);
            assert!(q.distance_q >= 0 && q.distance_q <= CALLPARTNER_RESTART_RADIUS_Q);
            assert!(q.alpha_b >= 0 && q.alpha_b <= 240);
        }
    }
}

#[test]
fn single_slots_step_by_their_rules() {
    let mut h = HealSlot::new(1);
    assert_eq!((h.rot_start_deg, h.alpha_b, h.distance, h.rot_speed_deg), (137, 0, 3, 9));
    h.step();
    assert_eq!((h.rot_start_deg, h.process, h.alpha_b), (146, 1, 5));
    let mut p = PortalSlot::new(1, false);
    assert_eq!(p.process, -10);
    p.step(false, 1);
    assert_eq!((p.process, p.alpha_b, p.distance_q), (-9, 0, 0));
    let q = PortalSlot::new(2, true);
    assert_eq!(q.process, -40);
    assert_eq!(q.rise_angle_deg, 4);
    assert_eq!(q.rot_start_deg, 50);
}

#[test]
fn outward_ring_restarts_after_draining() {
    let mut p = PortalSlot::new(0, false);
    for _ in 0..29 {
        p.step(false, 10);
    }
    assert!(p.live);
    assert_eq!(p.process, 0);
    assert_eq!(p.distance_q, 0);
    assert_eq!(p.alpha_b, 24);
}

#[test]
fn drained_ring_retires_after_frame_1400() {
    let mut p = PortalSlot::new(0, false);
    for _ in 0..29 {
        p.step(false, 1500);
    }
    assert!(!p.live);
    assert_eq!(p.alpha_b, 0);
}

#[test]
fn portal_ends_after_its_99990_ms() {
    assert_eq!(status_at(5999), EffectStatus::Running);
    assert_eq!(status_at(6000), EffectStatus::Dead);
}

#[test]
fn heal_slots_start_at_frame_zero_and_drain_after_1400() {
    let mut s = Portal2Slots::new(PORTAL2());
    for i in 0..3 {
        assert_eq!(s.heal(i).process, 0);
    }
    step_frames(&mut s, 3);
    assert!((0..3).all(|i| s.heal(i).alpha_b == 15), "lit after three frames");
    step_frames(&mut s, 1397);
    assert_eq!(s.heal(0).alpha_b, 73, "drains from frame 1400");
    step_frames(&mut s, 40);
    assert_eq!(s.heal(2).alpha_b, 0);
    assert_eq!(s.heal(2).rot_start_deg, (251 + 10 * 1440) % 360);
}
