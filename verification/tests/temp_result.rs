use game::draw::EffectStatus;
use game::temp_result::{wobble_phase_deg, wobble_phase_in_ticks, FadeCurve, TEMP_FAIL, TEMP_OK, TEXTURES};

#[test]
fn temp_result_fades_in_holds_then_out_and_dies() {
    let c = TEMP_OK().curve;
    let a_in = c.level_at(4);
    let hold_frame = 4 + c.fade_in + c.hold / 2;
    let a_hold = c.level_at(hold_frame);
    assert!(a_hold > a_in, "alpha rises into the hold: {a_in} -> {a_hold}");
    assert!(a_hold <= c.fade_in as u64 * c.fade_out as u64, "alpha is capped at max");
    assert_eq!((a_in, a_hold), (4 * 15, 22 * 15));
    assert_eq!(c.status_at(hold_frame + 200), EffectStatus::Dead, "self-terminates after its lifetime");
    assert_eq!(c.life(), 100);
}

#[test]
fn breathes_grows_into_view_then_shrinks_out() {
    assert_eq!(wobble_phase_deg(2), 4);
    assert_eq!(wobble_phase_deg(45), 90, "peak size a quarter turn in");
    assert_eq!(wobble_phase_deg(95), 190, "past the half turn, shrinking");
    assert_eq!(wobble_phase_deg(200), 40);
}

#[test]
fn ok_and_fail_differ_in_texture_and_aspect() {
    let ok = TEMP_OK();
    let fail = TEMP_FAIL();
    assert_eq!(ok.texture, "success.bmp");
    assert_eq!(fail.texture, "failed.bmp");
    assert_eq!(TEXTURES, ["success.bmp", "failed.bmp"]);
    // width/height = pixel width / pixel height.
    let (okh_n, okh_d) = ok.height();
    let (fh_n, fh_d) = fail.height();
    // ok aspect > fail aspect  <=>  ok.w * okh_d / okh_n > fail.w * fh_d / fh_n.
    assert!(ok.width as u64 * okh_d * fh_n > fail.width as u64 * fh_d * okh_n);
}

#[test]
fn banner_curve_levels() {
    let c = FadeCurve { fade_in: 22, hold: 63, fade_out: 15 };
    assert_eq!(c.level_at(0), 0);
    assert_eq!(c.level_at(21), 21 * 15);
    assert_eq!(c.level_at(22), 330);
    assert_eq!(c.level_at(84), 330);
    assert_eq!(c.level_at(85), 22 * 15);
    assert_eq!(c.level_at(99), 22);
    assert_eq!(c.level_at(100), 0);
    assert_eq!(c.status_at(99), EffectStatus::Running);
    assert_eq!(c.status_at(100), EffectStatus::Dead);
}

#[test]
fn long_curves_keep_exact_levels() {
    let c = FadeCurve { fade_in: 100_000, hold: 4_000_000_000, fade_out: 100_000 };
    assert_eq!(c.level_at(50_000), 50_000 * 100_000);
    assert_eq!(c.level_at(3_000_000_000), 100_000 * 100_000);
    assert_eq!(c.life(), 4_000_200_000);
    assert_eq!(c.status_at(4_000_199_999), EffectStatus::Running);
    assert_eq!(c.status_at(4_000_200_000), EffectStatus::Dead);
}

#[test]
fn half_frames_fade_and_breathe_exactly() {
    let c = TEMP_OK().curve;
    // Frame 5.5 of a 22-frame rise: a quarter of the peak (660 at half-frame ticks).
    assert_eq!(c.level_in_ticks(11, 2), 165);
    assert_eq!(c.level_in_ticks(100, 2), 660);
    // Frame 95 of a fall from frame 85 to 100: a third of the peak.
    assert_eq!(c.level_in_ticks(190, 2), 220);
    assert_eq!(c.level_in_ticks(200, 2), 0);
    assert_eq!(c.status_in_ticks(199, 2), EffectStatus::Running);
    assert_eq!(c.status_in_ticks(200, 2), EffectStatus::Dead);
    // Frame 1.5 breathes at 3°, kept as 6 halves of a degree.
    assert_eq!(wobble_phase_in_ticks(3, 2), 6);
}
