use game::draw::{BlendKind, EffectStatus};
use game::sma::{
    band_emission, particle_alpha, particle_count, particle_stream_status, Sma2Band, SmaBandEmitter, SmaKind,
    BAND_BLEND, BAND_DURATION_FRAMES, BAND_TINT_RGB, PARTICLE_BLEND, SMA2_TOTAL_DURATION_MS, SMA_TOTAL_DURATION_MS,
    STIN3_TOTAL_DURATION_MS,
};

#[test]
fn durations() {
    assert_eq!(SMA2_TOTAL_DURATION_MS, 2000);
    assert_eq!(SMA_TOTAL_DURATION_MS, 3666);
    assert_eq!(STIN3_TOTAL_DURATION_MS, 2666);
    assert_ne!(SmaKind::Bands, SmaKind::Particles);
}

#[test]
fn band_alpha_ramps_holds_and_fades() {
    let mut b = Sma2Band::new(false, BAND_DURATION_FRAMES);
    assert_eq!(b.alpha(), 0);
    for _ in 0..10 {
        b.step();
    }
    assert_eq!(b.alpha(), 50);
    for _ in 0..30 {
        b.step();
    }
    assert_eq!(b.alpha(), 180, "capped at 180 from frame 36");
    for _ in 0..40 {
        b.step();
    }
    assert_eq!(b.process(), 80);
    assert_eq!(b.alpha(), 175, "fading from frame 80");
    assert!(!b.dead());
    for _ in 0..39 {
        b.step();
    }
    assert_eq!(b.alpha(), 0);
    assert!(!b.dead());
    b.step();
    assert!(b.dead());
}

#[test]
fn strands_spin_at_three_four_five_degrees() {
    let mut b = Sma2Band::new(true, BAND_DURATION_FRAMES);
    assert!(b.tight());
    assert_eq!((b.strand_rot(0), b.strand_rot(1), b.strand_rot(2)), (0, 90, 180));
    b.step();
    assert_eq!((b.strand_rot(0), b.strand_rot(1), b.strand_rot(2)), (3, 94, 185));
}

#[test]
fn emission_every_eighth_frame_alternating() {
    assert_eq!(band_emission(0), Some(false));
    assert_eq!(band_emission(1), None);
    assert_eq!(band_emission(8), Some(true));
    assert_eq!(band_emission(16), Some(false));
    assert_eq!(band_emission(96), Some(false));
    assert_eq!(band_emission(104), None);
}

#[test]
fn sma_emits_bands_over_time_then_dies() {
    let mut e = SmaBandEmitter::new();
    for _ in 0..10 {
        e.step_frame();
    }
    let early = e.band_count();
    assert_eq!(early, 2);
    for _ in 0..20 {
        e.step_frame();
    }
    assert_eq!(e.band_count(), 4, "more bands accumulate");
    assert!(!e.done());
    let mut last = 0;
    for f in 30..400u32 {
        e.step_frame();
        if !e.done() {
            last = f;
        }
    }
    assert!(e.done());
    assert_eq!(e.band_count(), 0);
    assert_eq!(last, 214, "done once 216 frames have run");
}

#[test]
fn sma2_band_is_additive_multi_quad() {
    let mut b = Sma2Band::new(false, BAND_DURATION_FRAMES);
    for _ in 0..60 {
        b.step();
    }
    // 3 strands × (E_DIVISION − 1) segments.
    let quads = b.quad_count();
    assert!(quads > 30, "spiral strip: {quads}");
    assert_eq!(BAND_BLEND, BlendKind::Additive);
    assert!(BAND_TINT_RGB[2] >= BAND_TINT_RGB[0], "blue-ish band: {BAND_TINT_RGB:?}");
}

#[test]
fn stin3_streams_rising_particles() {
    assert_eq!(PARTICLE_BLEND, BlendKind::Additive);
    assert!(particle_count(6) > 0, "particles spawned");
}

#[test]
fn particle_stream_fills_drains_and_ends_at_frame_160() {
    assert_eq!(particle_count(6), 48);
    assert_eq!(particle_count(60), 480);
    // Each burst lives through its 60th frame.
    assert_eq!(particle_count(61), 480);
    assert_eq!(particle_count(120), 8 * 40);
    assert_eq!(particle_count(159), 8);
    assert_eq!(particle_count(160), 0);
    assert_eq!(particle_stream_status(159), EffectStatus::Running);
    assert_eq!(particle_stream_status(160), EffectStatus::Dead);
    assert_eq!((particle_alpha(10), particle_alpha(11), particle_alpha(59), particle_alpha(60)), (150, 147, 3, 0));
}
