use game::draw::EffectStatus;
use game::spraypond::{
    crest_alpha_30ths, ring_shape, stream_azimuth_halves, stream_scroll_30ths, SpraypondClock, SprayPrimitive, STREAM_COUNT,
    STREAM_RADIUS_TENTHS, TEXTURES, TOTAL_DURATION_MS,
};

#[test]
fn eight_streams_plus_crests_and_rings() {
    let mut c = SpraypondClock::new();
    c.advance(12);
    assert!(c.streams_visible());
    assert_eq!(STREAM_COUNT, 8);
    assert_eq!(c.crests(), vec![0, 10], "crests from frames 0 and 10");
    assert_eq!(c.rings(), vec![0]);
}

#[test]
fn catch_up_matches_frame_by_frame() {
    let mut a = SpraypondClock::new();
    let mut b = SpraypondClock::new();
    a.advance(47);
    for _ in 0..47 {
        b.advance(1);
    }
    assert_eq!(a.crests(), b.crests());
    assert_eq!(a.rings(), b.rings());
    assert_eq!(a.crests(), vec![20, 30, 40]);
    assert_eq!(a.rings(), vec![40]);
}

#[test]
fn dies_after_parent_plus_crest_lifetime() {
    let mut c = SpraypondClock::new();
    let mut status = EffectStatus::Running;
    let mut frames = 0;
    while status == EffectStatus::Running {
        status = c.advance(1);
        frames += 1;
    }
    assert_eq!(frames, 160);
    assert!(!c.streams_visible());
    assert!(c.crests().is_empty());
    assert!(c.rings().is_empty());
    assert_eq!(TOTAL_DURATION_MS, 2666);
    assert_eq!(TEXTURES.len(), 3);
}

#[test]
fn last_crest_fires_at_frame_130() {
    let mut c = SpraypondClock::new();
    c.advance(130);
    c.advance(5);
    assert_eq!(c.crests(), vec![110, 120, 130]);
    assert_eq!(c.rings(), vec![120]);
}

#[test]
fn an_update_that_ends_past_the_parent_fires_nothing() {
    let mut c = SpraypondClock::new();
    c.advance(135);
    assert!(c.crests().is_empty());
    assert!(c.rings().is_empty());
}

#[test]
fn streams_sit_on_radius_12_circle_at_eight_compass_points() {
    let mut c = SpraypondClock::new();
    c.advance(1);
    let mut out = Vec::new();
    c.collect_draws(&mut out);
    let mut angles: Vec<u32> = out
        .iter()
        .filter_map(|p| match p {
            SprayPrimitive::Water { azimuth_halves } => Some(*azimuth_halves),
            _ => None,
        })
        .collect();
    assert_eq!(STREAM_RADIUS_TENTHS, 122, "streams sit on the 12.2 circle");
    assert_eq!(angles, vec![45, 135, 225, 315, 405, 495, 585, 675], "eight compass points, 45° apart");
    angles.dedup();
    assert_eq!(angles.len(), STREAM_COUNT as usize);
}

#[test]
fn crests_and_rings_fade_linearly_and_rings_widen() {
    assert_eq!(crest_alpha_30ths(0), 30);
    assert_eq!(crest_alpha_30ths(12), 18);
    assert_eq!(crest_alpha_30ths(30), 0);
    // 13 units, then 13 + 10/4 − 10·11/200 = 14.95 at frame 10.
    assert_eq!(ring_shape(0), (2600, 25));
    assert_eq!(ring_shape(10), (2990, 15));
    assert_eq!(stream_scroll_30ths(45), 45);
    assert_eq!(stream_azimuth_halves(0), 45);
    assert_eq!(stream_azimuth_halves(7), 675);
}

#[test]
fn one_frame_draws_streams_then_crests_then_rings() {
    let mut c = SpraypondClock::new();
    c.advance(15);
    let mut out = vec![SprayPrimitive::Water { azimuth_halves: 0 }];
    c.collect_draws(&mut out);
    assert_eq!(out.len(), 1 + 8 + 16 + 1);
    assert_eq!(out[1], SprayPrimitive::Water { azimuth_halves: 45 });
    assert_eq!(out[8], SprayPrimitive::Water { azimuth_halves: 675 });
    assert_eq!(out[9], SprayPrimitive::Crest { azimuth_halves: 45, alpha_num: 15 });
    assert_eq!(out[17], SprayPrimitive::Crest { azimuth_halves: 45, alpha_num: 25 });
    assert_eq!(out[24], SprayPrimitive::Crest { azimuth_halves: 675, alpha_num: 25 });
    assert_eq!(out[25], SprayPrimitive::Ring { radius_num: 2600 + 750 - 240, alpha_num: 10 });
    c.advance(145);
    let mut late = Vec::new();
    c.collect_draws(&mut late);
    assert!(late.is_empty());
}

#[test]
fn fractional_frames_fade_and_widen_exactly() {
    // Half-frame ticks: at frame 15.5 the crests of frames 0 and 10 are
    // 15.5 and 5.5 frames old, the ground ring of frame 0 15.5.
    let mut c = SpraypondClock::new_in_ticks(2);
    c.advance(31);
    assert_eq!(c.crests(), vec![0, 20]);
    let mut out = Vec::new();
    c.collect_draws(&mut out);
    assert_eq!(out.len(), 8 + 16 + 1);
    // 1 − 15.5/30 = 29/60 of the peak.
    assert_eq!(out[8], SprayPrimitive::Crest { azimuth_halves: 45, alpha_num: 29 });
    assert_eq!(out[16], SprayPrimitive::Crest { azimuth_halves: 45, alpha_num: 49 });
    // 13 + 15.5/4 − 15.5·16.5/200 = 15.59625 units = 12477 / 800.
    assert_eq!(out[24], SprayPrimitive::Ring { radius_num: 2600 * 4 + 50 * 31 * 2 - 31 * 33, alpha_num: 19 });
    assert_eq!(12477.0 / 800.0, 15.59625);
    assert_eq!(2600 * 4 + 50 * 31 * 2 - 31 * 33, 12477);
    // A crest fired at frame 0 is gone at 30 frames exactly, not before.
    let mut d = SpraypondClock::new_in_ticks(2);
    d.advance(59);
    assert_eq!(d.crests(), vec![0, 20, 40]);
    d.advance(1);
    assert_eq!(d.crests(), vec![20, 40, 60]);
    // The parent fires bursts through frame 130 and ends at frame 160.
    assert_eq!(d.advance(260 - 60), EffectStatus::Running);
    assert_eq!(d.crests(), vec![220, 240, 260]);
    assert_eq!(d.advance(59), EffectStatus::Running);
    assert_eq!(d.advance(1), EffectStatus::Dead);
}
