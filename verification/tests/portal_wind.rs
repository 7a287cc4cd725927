use game::portal_wind::{
    body_tint, PortalWindSlots, WindSlot, ALPHA_T_GUST, ALPHA_T_WINDWALK, PORTAL4, PORTAL5,
    PORTAL_WIND2, PORTAL_WIND3, TEXTURES, TOTAL_DURATION_MS, WINDWALK_WAV,
};

fn step_frames(s: &mut PortalWindSlots, n: u32) {
    for _ in 0..n {
        s.step_one_frame();
    }
}

#[test]
fn variant_table() {
    assert_eq!(TEXTURES, ["cloud11.tga"]);
    assert_eq!(TOTAL_DURATION_MS, 2000);
    assert_eq!(PORTAL4().alpha_t, ALPHA_T_WINDWALK);
    assert_eq!(PORTAL5().alpha_t, ALPHA_T_WINDWALK);
    assert_eq!(PORTAL_WIND2().alpha_t, ALPHA_T_GUST);
    assert_eq!(PORTAL_WIND3().alpha_t, ALPHA_T_GUST);
    assert!(PORTAL4().play_windwalk_wav);
    assert!(!PORTAL5().play_windwalk_wav);
}

#[test]
fn portal4_four_narrow_cones_at_90_offsets() {
    let mut s = PortalWindSlots::new(PORTAL4());
    step_frames(&mut s, 1);
    for i in 0..4 {
        let w = s.slot_state(i);
        assert_eq!(w.full_display_angle_deg, 33);
        assert_eq!(w.rot_start_deg, 90 * i as u32 + 5);
        assert_eq!(w.drift_steps, 0);
        assert_eq!(w.alpha_b, 10);
    }
}

#[test]
fn portal4_windstorm_opens_then_fades() {
    let mut s = PortalWindSlots::new(PORTAL4());
    step_frames(&mut s, 12);
    for i in 0..4 {
        let w = s.slot_state(i);
        assert_eq!(w.full_display_angle_deg, 66);
        assert_eq!(w.alpha_b, 110);
    }
    step_frames(&mut s, 13);
    for i in 0..4 {
        let w = s.slot_state(i);
        assert_eq!(w.drift_steps, 5, "drifting since frame 21");
        assert_eq!(w.alpha_b, 100);
        assert_eq!(w.full_display_angle_deg, 105);
    }
    step_frames(&mut s, 50);
    assert_eq!(s.slot_state(0).alpha_b, 0, "faded by frame 75");
    assert_eq!(s.slot_state(0).full_display_angle_deg, 120);
}

#[test]
fn portal5_yellow_body_light_window() {
    let cfg = PORTAL5();
    assert_eq!(body_tint(&cfg, 0), None);
    assert_eq!(body_tint(&cfg, 4), None);
    assert_eq!(body_tint(&cfg, 5), Some([250, 250, 200]));
    assert_eq!(body_tint(&cfg, 65), Some([250, 250, 200]));
    assert_eq!(body_tint(&cfg, 66), None);
}

#[test]
fn portal4_green_body_light_and_gusts_untinted() {
    assert_eq!(body_tint(&PORTAL4(), 25), Some([220, 250, 220]));
    assert_eq!(body_tint(&PORTAL4(), 26), None);
    assert_eq!(body_tint(&PORTAL_WIND2(), 0), None);
    assert_eq!(body_tint(&PORTAL_WIND3(), 10), None);
}

#[test]
fn portal_wind2_opens_to_180_and_fades_on_gust_schedule() {
    let mut s = PortalWindSlots::new(PORTAL_WIND2());
    step_frames(&mut s, 12);
    assert_eq!(s.slot_state(0).alpha_b, 11);
    assert_eq!(s.slot_state(0).full_display_angle_deg, 66);
    step_frames(&mut s, 60);
    for i in 0..4 {
        assert_eq!(s.slot_state(i).full_display_angle_deg, 180);
        assert_eq!(s.slot_state(i).alpha_b, 0);
    }
}

#[test]
fn portal4_windwalk_sfx_drained_once() {
    let mut s = PortalWindSlots::new(PORTAL4());
    assert_eq!(s.take_sfx_request(), Some(WINDWALK_WAV));
    assert_eq!(s.take_sfx_request(), None);
    let mut q = PortalWindSlots::new(PORTAL5());
    assert_eq!(q.take_sfx_request(), None);
}

#[test]
fn single_slot_rises_are_fixed() {
    let rises: Vec<u32> = (0..4).map(|i| WindSlot::new(i, ALPHA_T_WINDWALK).rise_angle_deg).collect();
    assert_eq!(rises, vec![82, 88, 95, 100]);
    let mut w = WindSlot::new(3, ALPHA_T_GUST);
    w.step();
    assert_eq!((w.rot_start_deg, w.alpha_b, w.full_display_angle_deg), (275, 1, 33));
}

#[test]
fn portal5_yellow_body_light_window_and_no_sfx() {
    let mut s = PortalWindSlots::new(PORTAL5());
    assert_eq!(s.take_sfx_request(), None);
    assert_eq!(body_tint(&PORTAL5(), 4), None, "tint inactive before frame 5");
    assert_eq!(body_tint(&PORTAL5(), 5), Some([250, 250, 200]));
    assert_eq!(body_tint(&PORTAL5(), 66), None, "tint inactive after frame 65");
}
