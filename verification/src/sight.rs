//! `EF_SIGHT` / `EF_RUWACH` / `EF_SIGHT2` — orbit-spawn particles.
//!
//! On every parent frame divisible by the spawn period the effect emits a
//! particle on a radius-15 orbit around the caster (Sight: the `sight`
//! sprite hovering 20 up; Ruwach: `particle2`, 10 up), and for Sight and
//! Ruwach a `shadow` ground tag beside it. Spawning stops with the parent's
//! life (Sight 162 frames, Ruwach 120; Sight2 is persistent). When one
//! update covers several frames, every spawn frame it passed is caught up,
//! provided the parent is still alive at the update's end.
//!
//! A particle shrinks and fades linearly each frame; Ruwach's particles
//! also scale their alpha by `1 − t` from their frame 19, `t` running from
//! 0 to 1 over the rest of their life. A particle dies once its life is
//! over or its alpha or size has run out. The effect ends once the parent's
//! life plus the longer particle life has passed and no particle is left.
//!
//! Alpha is kept exactly, as a fraction `num / den` of full with `den` a
//! multiple of 510 (the late-life scaling multiplies `den` by the span of
//! that window once per frame); sizes are in hundredths of a world unit.
//! The orbit angle and positions are the renderer's. The clock advances in
//! whole frames, at least one per update.
use vstd::prelude::*;
use crate::draw::EffectStatus;

verus! {

/// The Sight sprite.
pub const SIGHT_SPRITE: &'static str = "data/sprite/\u{c774}\u{d329}\u{d2b8}/sight";
/// The ground-tag sprite.
pub const SHADOW_SPRITE: &'static str = "data/sprite/shadow";
/// The Ruwach sprite.
pub const PARTICLE2_SPRITE: &'static str = "data/sprite/\u{c774}\u{d329}\u{d2b8}/particle2";
/// Every sprite the orbits draw.
pub const SPRITES: [&'static str; 3] = [SIGHT_SPRITE, SHADOW_SPRITE, PARTICLE2_SPRITE];
/// Radius of the orbit, world units.
pub const ORBIT_RADIUS: u32 = 15;
/// Parent life of a persistent orbit, frames.
pub const PERSISTENT_FRAMES: u32 = 9_000_000;
/// Largest late-life fade window a particle may have.
pub const MAX_CLIFF_SPAN: u32 = 16;

/// One kind of orbit particle.
#[derive(Clone, Copy, Debug)]
pub struct ParticleParams {
    /// Its sprite.
    pub sprite: &'static str,
    /// Life, frames.
    pub duration_frames: u32,
    /// Height above the ground at spawn, world units (negative is up).
    pub y_offset: i32,
    /// Downward acceleration per frame, tenths of a world unit.
    pub y_accel_tenths: u32,
    /// Size at spawn, hundredths.
    pub size_hundredths: u32,
    /// Size lost per frame, hundredths.
    pub size_drop_hundredths: u32,
    /// Alpha at spawn, 510ths of full.
    pub alpha_510: u32,
    /// Alpha lost per frame, 510ths of full.
    pub alpha_drop_510: u32,
    /// Frame of its life from which its alpha is scaled down, if any.
    pub fadeout_start_frame: Option<u32>,
    /// Ticks per motion frame of its animation.
    pub anim_ticks: u32,
}

/// One orbit variant.
#[derive(Clone, Copy, Debug)]
pub struct OrbitParams {
    /// Parent life, frames: spawning stops after it.
    pub parent_duration_frames: u32,
    /// Frames between spawns.
    pub spawn_period_frames: u32,
    /// Orbit turn per frame, whole degrees.
    pub angle_deg_per_frame: i32,
    /// The turn is divided by this, tenths.
    pub angle_divisor_tenths: u32,
    /// The orbiting particle.
    pub upper: ParticleParams,
    /// The ground tag spawned beside it, if any.
    pub lower: Option<ParticleParams>,
}

/// Sight: a `sight` particle and a shadow every other frame for 162 frames.
#[allow(non_snake_case)]
pub fn SIGHT() -> (p: OrbitParams)
    ensures
        orbit_wf(p),
        p.parent_duration_frames == 162 && p.spawn_period_frames == 2,
        p.upper.sprite == SIGHT_SPRITE && p.upper.duration_frames == 20,
        p.lower is Some && p.lower->0.sprite == SHADOW_SPRITE && p.lower->0.duration_frames == 20,
        p == (
            OrbitParams {
                parent_duration_frames: 162,
                spawn_period_frames: 2,
                angle_deg_per_frame: -5i32,
                angle_divisor_tenths: 10,
                upper: ParticleParams {
                    sprite: SIGHT_SPRITE,
                    duration_frames: 20,
                    y_offset: -20i32,
                    y_accel_tenths: 0,
                    size_hundredths: 250,
                    size_drop_hundredths: 10,
                    alpha_510: 300,
                    alpha_drop_510: 6,
                    fadeout_start_frame: None,
                    anim_ticks: 4,
                },
                lower: Some(ParticleParams {
                    sprite: SHADOW_SPRITE,
                    duration_frames: 20,
                    y_offset: 0,
                    y_accel_tenths: 0,
                    size_hundredths: 150,
                    size_drop_hundredths: 6,
                    alpha_510: 240,
                    alpha_drop_510: 2,
                    fadeout_start_frame: None,
                    anim_ticks: 4,
                }),
            }
        ),
{
    OrbitParams {
        parent_duration_frames: 162,
        spawn_period_frames: 2,
        angle_deg_per_frame: -5,
        angle_divisor_tenths: 10,
        upper: ParticleParams {
            sprite: SIGHT_SPRITE,
            duration_frames: 20,
            y_offset: -20,
            y_accel_tenths: 0,
            size_hundredths: 250,
            size_drop_hundredths: 10,
            alpha_510: 300,
            alpha_drop_510: 6,
            fadeout_start_frame: None,
            anim_ticks: 4,
        },
        lower: Some(ParticleParams {
            sprite: SHADOW_SPRITE,
            duration_frames: 20,
            y_offset: 0,
            y_accel_tenths: 0,
            size_hundredths: 150,
            size_drop_hundredths: 6,
            alpha_510: 240,
            alpha_drop_510: 2,
            fadeout_start_frame: None,
            anim_ticks: 4,
        }),
    }
}

/// Ruwach: a `particle2` particle and a shadow every third frame for 120
/// frames, both scaled down from their frame 19.
#[allow(non_snake_case)]
pub fn RUWACH() -> (p: OrbitParams)
    ensures
        orbit_wf(p),
        p.parent_duration_frames == 120 && p.spawn_period_frames == 3,
        p.upper.sprite == PARTICLE2_SPRITE && p.upper.duration_frames == 25,
        p.upper.fadeout_start_frame == Some(19u32),
        p.lower is Some && p.lower->0.sprite == SHADOW_SPRITE,
        p == (
            OrbitParams {
                parent_duration_frames: 120,
                spawn_period_frames: 3,
                angle_deg_per_frame: -5i32,
                angle_divisor_tenths: 13,
                upper: ParticleParams {
                    sprite: PARTICLE2_SPRITE,
                    duration_frames: 25,
                    y_offset: -10i32,
                    y_accel_tenths: 0,
                    size_hundredths: 300,
                    size_drop_hundredths: 10,
                    alpha_510: 500,
                    alpha_drop_510: 6,
                    fadeout_start_frame: Some(19),
                    anim_ticks: 4,
                },
                lower: Some(ParticleParams {
                    sprite: SHADOW_SPRITE,
                    duration_frames: 25,
                    y_offset: 0,
                    y_accel_tenths: 0,
                    size_hundredths: 150,
                    size_drop_hundredths: 6,
                    alpha_510: 300,
                    alpha_drop_510: 5,
                    fadeout_start_frame: Some(19),
                    anim_ticks: 4,
                }),
            }
        ),
{
    OrbitParams {
        parent_duration_frames: 120,
        spawn_period_frames: 3,
        angle_deg_per_frame: -5,
        angle_divisor_tenths: 13,
        upper: ParticleParams {
            sprite: PARTICLE2_SPRITE,
            duration_frames: 25,
            y_offset: -10,
            y_accel_tenths: 0,
            size_hundredths: 300,
            size_drop_hundredths: 10,
            alpha_510: 500,
            alpha_drop_510: 6,
            fadeout_start_frame: Some(19),
            anim_ticks: 4,
        },
        lower: Some(ParticleParams {
            sprite: SHADOW_SPRITE,
            duration_frames: 25,
            y_offset: 0,
            y_accel_tenths: 0,
            size_hundredths: 150,
            size_drop_hundredths: 6,
            alpha_510: 300,
            alpha_drop_510: 5,
            fadeout_start_frame: Some(19),
            anim_ticks: 4,
        }),
    }
}

/// Sight Blaster: one drifting `sight` particle every other frame, no
/// shadow, persistent.
#[allow(non_snake_case)]
pub fn SIGHT2() -> (p: OrbitParams)
    ensures
        orbit_wf(p),
        p.parent_duration_frames == PERSISTENT_FRAMES && p.spawn_period_frames == 2,
        p.upper.sprite == SIGHT_SPRITE,
        p.lower is None,
        p == (
            OrbitParams {
                parent_duration_frames: PERSISTENT_FRAMES,
                spawn_period_frames: 2,
                angle_deg_per_frame: -5i32,
                angle_divisor_tenths: 10,
                upper: ParticleParams {
                    sprite: SIGHT_SPRITE,
                    duration_frames: 20,
                    y_offset: -20i32,
                    y_accel_tenths: 1,
                    size_hundredths: 250,
                    size_drop_hundredths: 10,
                    alpha_510: 100,
                    alpha_drop_510: 6,
                    fadeout_start_frame: None,
                    anim_ticks: 3,
                },
                lower: None,
            }
        ),
{
    OrbitParams {
        parent_duration_frames: PERSISTENT_FRAMES,
        spawn_period_frames: 2,
        angle_deg_per_frame: -5,
        angle_divisor_tenths: 10,
        upper: ParticleParams {
            sprite: SIGHT_SPRITE,
            duration_frames: 20,
            y_offset: -20,
            y_accel_tenths: 1,
            size_hundredths: 250,
            size_drop_hundredths: 10,
            alpha_510: 100,
            alpha_drop_510: 6,
            fadeout_start_frame: None,
            anim_ticks: 3,
        },
        lower: None,
    }
}

/// A particle kind keeps the arithmetic exact and small.
pub open spec fn particle_wf(pp: ParticleParams) -> bool {
    &&& pp.duration_frames <= 0xffff
    &&& pp.size_hundredths <= 0xffff && pp.size_drop_hundredths <= 0xffff
    &&& pp.alpha_510 <= 510 && pp.alpha_drop_510 <= 510
    &&& pp.fadeout_start_frame matches Some(fs) ==> fs < pp.duration_frames && pp.duration_frames - fs <= MAX_CLIFF_SPAN
}

/// An orbit variant keeps the arithmetic exact and small.
pub open spec fn orbit_wf(p: OrbitParams) -> bool {
    &&& p.spawn_period_frames >= 1
    &&& p.parent_duration_frames <= 0x1000_0000
    &&& particle_wf(p.upper)
    &&& p.lower matches Some(l) ==> particle_wf(l)
}

/// The longer particle life of a variant.
pub open spec fn particle_max_frames(p: OrbitParams) -> int {
    match p.lower {
        Some(l) => if p.upper.duration_frames > l.duration_frames { p.upper.duration_frames as int } else { l.duration_frames as int },
        None => p.upper.duration_frames as int,
    }
}

/// Planned length of a variant, ms: the parent's life plus the longer
/// particle life, rounded down.
pub open spec fn total_duration_ms_spec(p: OrbitParams) -> int {
    (p.parent_duration_frames + particle_max_frames(p)) * 1000 / 60
}

/// Planned length of a variant, ms.
pub fn total_duration_ms(p: &OrbitParams) -> (r: u64)
    requires
        orbit_wf(*p),
    ensures
        r == total_duration_ms_spec(*p),
{
    let m: u64 = match p.lower {
        Some(l) => if p.upper.duration_frames > l.duration_frames { p.upper.duration_frames as u64 } else { l.duration_frames as u64 },
        None => p.upper.duration_frames as u64,
    };
    (p.parent_duration_frames as u64 + m) * 1000 / 60
}

/// `span^k`.
pub open spec fn span_pow(span: int, k: nat) -> int
    decreases k,
{
    if k == 0 { 1 } else { span * span_pow(span, (k - 1) as nat) }
}

/// One live particle.
#[derive(Clone, Copy, Debug, PartialEq, Eq, Structural)]
pub struct Particle {
    /// A ground tag (the variant's `lower` kind) rather than the orbiting one.
    pub lower: bool,
    /// Frames of life.
    pub age: u32,
    /// Alpha numerator.
    pub alpha_num: u128,
    /// Alpha denominator: `510 · span^cliffs`.
    pub alpha_den: u128,
    /// Frames of the late-life scaling applied so far.
    pub cliffs: u32,
    /// Size, hundredths.
    pub size: u32,
}

/// The kind of a particle.
pub open spec fn kind_of(p: OrbitParams, s: Particle) -> ParticleParams {
    if s.lower && p.lower is Some { p.lower->0 } else { p.upper }
}

/// A particle just spawned.
pub open spec fn fresh_particle(pp: ParticleParams, lower: bool) -> Particle {
    Particle { lower, age: 0, alpha_num: pp.alpha_510 as u128, alpha_den: 510, cliffs: 0, size: pp.size_hundredths }
}

/// The late-life window of a kind: from its start to the end of its life.
pub open spec fn cliff_span(pp: ParticleParams) -> int {
    match pp.fadeout_start_frame {
        Some(fs) => pp.duration_frames - fs,
        None => 1,
    }
}

/// A step of `dt` frames ages a particle by `dt` and shrinks it by
/// `size_drop · dt` hundredths, down to 0 (so a lit particle of a kind that
/// shrinks always gets smaller); before its late-life window (or for a kind
/// without one) its alpha falls by `alpha_drop · dt` of 510, down to 0,
/// over an unchanged denominator.
pub proof fn particle_shrinks_and_fades_linearly(pp: ParticleParams, s: Particle, dt: int)
    requires
        dt >= 0,
        s.age + dt <= u32::MAX,
    ensures
        ({
            let r = particle_step(pp, s, dt);
            let drop = pp.size_drop_hundredths * dt;
            &&& r.age == s.age + dt
            &&& r.lower == s.lower
            &&& r.size == (if s.size >= drop { s.size - drop } else { 0 })
            &&& r.size <= s.size
            &&& (pp.size_drop_hundredths > 0 && dt > 0 && s.size > 0) ==> r.size < s.size
            &&& (pp.fadeout_start_frame is None || s.age < pp.fadeout_start_frame->0) ==> {
                let fall = pp.alpha_drop_510 * dt * (s.alpha_den / 510);
                &&& r.alpha_den == s.alpha_den
                &&& r.alpha_num == (if s.alpha_num >= fall { s.alpha_num - fall } else { 0 })
            }
        }),
{
    assert(pp.size_drop_hundredths * dt >= 0) by (nonlinear_arith)
        requires
            dt >= 0,
    ;
    assert(pp.size_drop_hundredths > 0 && dt > 0 ==> pp.size_drop_hundredths * dt > 0) by (nonlinear_arith);
    assert(pp.alpha_drop_510 * dt * (s.alpha_den / 510) >= 0) by (nonlinear_arith)
        requires
            dt >= 0,
    ;
}

/// A particle is in step with its kind: its alpha a fraction of full with
/// the right denominator, no more than full, and the scaling applied once
/// per frame of the window it has passed.
pub open spec fn particle_state_wf(pp: ParticleParams, s: Particle) -> bool {
    &&& s.alpha_den == 510 * span_pow(cliff_span(pp), s.cliffs as nat)
    &&& s.alpha_num <= s.alpha_den
    &&& s.size <= pp.size_hundredths
    &&& s.cliffs <= MAX_CLIFF_SPAN
    &&& pp.fadeout_start_frame is None ==> s.cliffs == 0
    &&& pp.fadeout_start_frame matches Some(fs) ==> (s.cliffs == 0 || s.age >= fs + s.cliffs)
}

/// One step of `dt` frames: the size and alpha fall linearly, and within
/// the late-life window the alpha is scaled by `1 − t`.
pub open spec fn particle_step(pp: ParticleParams, s: Particle, dt: int) -> Particle {
    let size = s.size - pp.size_drop_hundredths * dt;
    let lin = s.alpha_num - pp.alpha_drop_510 * dt * (s.alpha_den / 510);
    let lin0 = if lin > 0 { lin } else { 0 };
    let aged = Particle {
        age: (s.age + dt) as u32,
        size: (if size > 0 { size } else { 0 }) as u32,
        alpha_num: lin0 as u128,
        ..s
    };
    match pp.fadeout_start_frame {
        Some(fs) => if s.age >= fs {
            let span = pp.duration_frames - fs;
            let x = s.age - fs;
            if x >= span {
                Particle { alpha_num: 0, ..aged }
            } else {
                Particle {
                    alpha_num: (lin0 * (span - x)) as u128,
                    alpha_den: (s.alpha_den * span) as u128,
                    cliffs: (s.cliffs + 1) as u32,
                    ..aged
                }
            }
        } else {
            aged
        },
        None => aged,
    }
}

/// A particle lives while its life lasts and it has alpha and size.
pub open spec fn particle_alive(pp: ParticleParams, s: Particle) -> bool {
    s.age < pp.duration_frames && s.alpha_num > 0 && s.size > 0
}

/// `span^k` is positive and at most `16^k`.
proof fn lemma_span_pow_bounds(span: int, k: nat)
    requires
        1 <= span <= 16,
    ensures
        1 <= span_pow(span, k) <= span_pow(16, k),
    decreases k,
{
    if k > 0 {
        lemma_span_pow_bounds(span, (k - 1) as nat);
        let a = span_pow(span, (k - 1) as nat);
        let b = span_pow(16, (k - 1) as nat);
        assert(span * a <= 16 * b) by (nonlinear_arith)
            requires
                1 <= span <= 16,
                1 <= a <= b,
        ;
        assert(span * a >= 1) by (nonlinear_arith)
            requires
                1 <= span,
                1 <= a,
        ;
    }
}

/// `16^k ≤ 16^16` for `k ≤ 16`, and `16^16 = 2^64`.
proof fn lemma_pow16_bound(k: nat)
    requires
        k <= 16,
    ensures
        span_pow(16, k) <= 0x1_0000_0000_0000_0000,
    decreases 16 - k,
{
    reveal_with_fuel(span_pow, 17);
    if k < 16 {
        lemma_pow16_bound(k + 1);
        lemma_span_pow_bounds(16, k);
    }
}

impl Particle {
    /// Steps the particle `dt` frames.
    pub fn step(&self, pp: &ParticleParams, dt: u32) -> (r: Particle)
        requires
            particle_wf(*pp),
            particle_state_wf(*pp, *self),
            dt >= 1,
            self.age + dt <= u32::MAX,
        ensures
            r == particle_step(*pp, *self, dt as int),
            particle_state_wf(*pp, r),
    {
        let span_now = match pp.fadeout_start_frame { Some(fs) => pp.duration_frames - fs, None => 1 };
        proof {
            lemma_span_pow_bounds(span_now as int, self.cliffs as nat);
            lemma_pow16_bound(self.cliffs as nat);
            assert(self.alpha_den <= 510 * 0x1_0000_0000_0000_0000) by (nonlinear_arith)
                requires
                    self.alpha_den == 510 * span_pow(span_now as int, self.cliffs as nat),
                    span_pow(span_now as int, self.cliffs as nat) <= span_pow(16, self.cliffs as nat),
                    span_pow(16, self.cliffs as nat) <= 0x1_0000_0000_0000_0000,
            ;
        }
        proof {
            assert(pp.size_drop_hundredths * dt <= 0xffff * 0xffff_ffff) by (nonlinear_arith)
                requires
                    pp.size_drop_hundredths <= 0xffff,
                    dt <= 0xffff_ffff,
            ;
            assert(pp.alpha_drop_510 * dt <= 510 * 0xffff_ffff) by (nonlinear_arith)
                requires
                    pp.alpha_drop_510 <= 510,
                    dt <= 0xffff_ffff,
            ;
        }
        let drop_size: u64 = pp.size_drop_hundredths as u64 * dt as u64;
        let size: u32 = if (self.size as u64) > drop_size { (self.size as u64 - drop_size) as u32 } else { 0 };
        let unit: u128 = self.alpha_den / 510;
        proof {
            assert(unit == span_pow(span_now as int, self.cliffs as nat));
            assert(pp.alpha_drop_510 * dt * unit <= 510 * 0xffff_ffff * 0x1_0000_0000_0000_0000) by (nonlinear_arith)
                requires
                    pp.alpha_drop_510 <= 510,
                    dt <= 0xffff_ffff,
                    unit <= 0x1_0000_0000_0000_0000,
            ;
            assert(pp.alpha_drop_510 * dt * unit == pp.alpha_drop_510 as u128 * dt as u128 * unit);
        }
        let drop_alpha: u128 = pp.alpha_drop_510 as u128 * dt as u128 * unit;
        let lin0: u128 = if self.alpha_num > drop_alpha { self.alpha_num - drop_alpha } else { 0 };
        let mut r = Particle { age: self.age + dt, size, alpha_num: lin0, ..*self };
        match pp.fadeout_start_frame {
            Some(fs) => {
                if self.age >= fs {
                    let span = pp.duration_frames - fs;
                    let x = self.age - fs;
                    if x >= span {
                        r.alpha_num = 0;
                    } else {
                        proof {
                            // Inside the window: fewer scalings than its frames so far.
                            assert(self.cliffs < span);
                            assert(lin0 * (span - x) <= self.alpha_den * 16) by (nonlinear_arith)
                                requires
                                    lin0 <= self.alpha_den,
                                    0 < span - x <= 16,
                            ;
                            assert(self.alpha_den * span <= self.alpha_den * 16) by (nonlinear_arith)
                                requires
                                    span <= 16,
                            ;
                            assert(lin0 * (span - x) <= self.alpha_den * span) by (nonlinear_arith)
                                requires
                                    lin0 <= self.alpha_den,
                                    0 < span - x <= span,
                            ;
                            assert(self.alpha_den * span == 510 * span_pow(span as int, (self.cliffs + 1) as nat)) by (nonlinear_arith)
                                requires
                                    self.alpha_den == 510 * span_pow(span as int, self.cliffs as nat),
                                    span_pow(span as int, (self.cliffs + 1) as nat) == span * span_pow(span as int, self.cliffs as nat),
                            ;
                        }
                        r.alpha_num = lin0 * (span - x) as u128;
                        r.alpha_den = self.alpha_den * span as u128;
                        r.cliffs = self.cliffs + 1;
                    }
                }
            },
            None => {},
        }
        r
    }
}

/// The particles one spawn frame emits: the orbiting one, then the ground
/// tag if the variant has one.
pub open spec fn spawn_pair(p: OrbitParams) -> Seq<Particle> {
    match p.lower {
        Some(l) => seq![fresh_particle(p.upper, false), fresh_particle(l, true)],
        None => seq![fresh_particle(p.upper, false)],
    }
}

/// The particles spawned on the frames after `last` through `hi`: one pair
/// for each multiple of the spawn period, in frame order.
pub open spec fn spawned_between(p: OrbitParams, last: int, hi: int) -> Seq<Particle>
    decreases hi - last,
{
    if hi <= last {
        Seq::empty()
    } else {
        spawned_between(p, last, hi - 1) + (if hi % (p.spawn_period_frames as int) == 0 { spawn_pair(p) } else { Seq::empty() })
    }
}

/// The first `n` particles of `ps`, each stepped `dt` frames, without
/// those that die; order is kept.
pub open spec fn stepped_alive(p: OrbitParams, ps: Seq<Particle>, dt: int, n: int) -> Seq<Particle>
    decreases n,
{
    if n <= 0 {
        Seq::empty()
    } else {
        let prev = stepped_alive(p, ps, dt, n - 1);
        let s2 = particle_step(kind_of(p, ps[n - 1]), ps[n - 1], dt);
        if particle_alive(kind_of(p, ps[n - 1]), s2) { prev.push(s2) } else { prev }
    }
}

/// A stored particle: in step with its kind, alive, no older than the
/// clock, spawned while the parent lived, and a ground tag only where the
/// variant has one.
pub open spec fn stored_particle(p: OrbitParams, frame: int, s: Particle) -> bool {
    &&& particle_state_wf(kind_of(p, s), s)
    &&& particle_alive(kind_of(p, s), s)
    &&& s.age <= frame
    &&& frame < s.age + p.parent_duration_frames
    &&& s.lower ==> p.lower is Some
}

/// The particles of one orbit effect and its frame clock.
pub struct OrbitClock {
    params: OrbitParams,
    frame: u32,
    last_spawn: i64,
    particles: Vec<Particle>,
}

impl OrbitClock {
    /// The variant.
    pub closed spec fn params_spec(&self) -> OrbitParams {
        self.params
    }

    /// Frames elapsed.
    pub closed spec fn frame_spec(&self) -> u32 {
        self.frame
    }

    /// Last frame up to which spawns have been made (−1 before any).
    pub closed spec fn last_spawn_spec(&self) -> int {
        self.last_spawn as int
    }

    /// The live particles, oldest spawn first.
    pub closed spec fn particles_spec(&self) -> Seq<Particle> {
        self.particles@
    }

    /// The variant is well formed and every particle is a stored one.
    pub closed spec fn wf(&self) -> bool {
        &&& orbit_wf(self.params)
        &&& -1 <= self.last_spawn <= self.frame
        &&& forall|i: int| 0 <= i < self.particles@.len() ==> stored_particle(self.params, self.frame as int, #[trigger] self.particles@[i])
    }

    /// An orbit of `params` on frame 0, before any spawn.
    pub fn new(params: OrbitParams) -> (c: OrbitClock)
        requires
            orbit_wf(params),
        ensures
            c.wf(),
            c.params_spec() == params,
            c.frame_spec() == 0,
            c.last_spawn_spec() == -1,
            c.particles_spec().len() == 0,
    {
        OrbitClock { params, frame: 0, last_spawn: -1, particles: Vec::new() }
    }

    /// Advances by `frames` whole frames (at least one): while the parent
    /// lives, catches up the spawns of every frame passed, then steps every
    /// particle and drops the dead. Reports `Dead` once the planned length
    /// has passed and no particle is left.
    pub fn advance(&mut self, frames: u32) -> (status: EffectStatus)
        requires
            old(self).wf(),
            frames >= 1,
            old(self).frame_spec() + frames <= 0x7fff_ffff,
        ensures
            final(self).wf(),
            final(self).params_spec() == old(self).params_spec(),
            final(self).frame_spec() == old(self).frame_spec() + frames,
            ({
                let p = old(self).params_spec();
                let f = final(self).frame_spec() as int;
                let spawning = f <= p.parent_duration_frames;
                let all = old(self).particles_spec()
                    + (if spawning { spawned_between(p, old(self).last_spawn_spec(), f) } else { Seq::empty() });
                &&& final(self).last_spawn_spec() == (if spawning { f } else { old(self).last_spawn_spec() })
                &&& final(self).particles_spec() == stepped_alive(p, all, frames as int, all.len() as int)
            }),
            status == (if final(self).frame_spec() * 1000 >= 60 * total_duration_ms_spec(final(self).params_spec())
                && final(self).particles_spec().len() == 0 {
                EffectStatus::Dead
            } else {
                EffectStatus::Running
            }),
    {
        let p = self.params;
        let f: u32 = self.frame + frames;
        let ghost old_ps = self.particles@;
        let ghost last0 = self.last_spawn as int;
        if f <= p.parent_duration_frames {
            let mut g: i64 = self.last_spawn + 1;
            while g <= f as i64
                invariant
                    self.params == p,
                    orbit_wf(p),
                    self.last_spawn == last0,
                    last0 >= -1,
                    self.frame == old(self).frame,
                    last0 + 1 <= g <= f + 1,
                    f <= 0x7fff_ffff,
                    self.particles@ == old_ps + spawned_between(p, last0, g - 1),
                decreases f + 1 - g,
            {
                let ghost before = self.particles@;
                if g % p.spawn_period_frames as i64 == 0 {
                    self.particles.push(Particle {
                        lower: false, age: 0, alpha_num: p.upper.alpha_510 as u128, alpha_den: 510, cliffs: 0,
                        size: p.upper.size_hundredths,
                    });
                    match p.lower {
                        Some(l) => {
                            self.particles.push(Particle {
                                lower: true, age: 0, alpha_num: l.alpha_510 as u128, alpha_den: 510, cliffs: 0,
                                size: l.size_hundredths,
                            });
                        },
                        None => {},
                    }
                }
                proof {
                    let prev = spawned_between(p, last0, g - 1);
                    assert(spawned_between(p, last0, g as int) == prev
                        + (if (g as int) % (p.spawn_period_frames as int) == 0 { spawn_pair(p) } else { Seq::empty() }));
                    if (g as int) % (p.spawn_period_frames as int) == 0 {
                        assert(self.particles@ =~= before + spawn_pair(p));
                    } else {
                        assert(self.particles@ =~= before);
                    }
                    assert(self.particles@ =~= old_ps + spawned_between(p, last0, g as int));
                }
                g = g + 1;
            }
            self.last_spawn = f as i64;
        }
        let ghost all = self.particles@;
        proof {
            assert forall|i: int| 0 <= i < all.len() implies {
                let s = #[trigger] all[i];
                &&& particle_state_wf(kind_of(p, s), s)
                &&& s.age <= self.frame
                &&& (i >= old_ps.len() ==> s.age == 0 && f <= p.parent_duration_frames)
                &&& (i < old_ps.len() ==> self.frame < s.age + p.parent_duration_frames)
                &&& s.lower ==> p.lower is Some
            } by {
                if i < old_ps.len() {
                    assert(stored_particle(p, self.frame as int, old_ps[i]));
                } else {
                    lemma_spawned_fresh(p, last0, f as int, i - old_ps.len());
                }
            }
        }
        let mut next: Vec<Particle> = Vec::new();
        let mut i: usize = 0;
        while i < self.particles.len()
            invariant
                self.params == p,
                orbit_wf(p),
                all == self.particles@,
                self.frame + frames == f,
                f <= 0x7fff_ffff,
                frames >= 1,
                i <= all.len(),
                forall|k: int| 0 <= k < all.len() ==> {
                    let s = #[trigger] all[k];
                    &&& particle_state_wf(kind_of(p, s), s)
                    &&& s.age <= self.frame
                    &&& (k >= old_ps.len() ==> s.age == 0 && f <= p.parent_duration_frames)
                    &&& (k < old_ps.len() ==> self.frame < s.age + p.parent_duration_frames)
                    &&& s.lower ==> p.lower is Some
                },
                old_ps.len() <= all.len(),
                next@ == stepped_alive(p, all, frames as int, i as int),
                forall|k: int| 0 <= k < next@.len() ==> stored_particle(p, f as int, #[trigger] next@[k]),
            decreases all.len() - i,
        {
            let s = self.particles[i];
            let kind = if s.lower {
                match p.lower {
                    Some(l) => l,
                    None => p.upper,
                }
            } else {
                p.upper
            };
            let s2 = s.step(&kind, frames);
            if s2.age < kind.duration_frames && s2.alpha_num > 0 && s2.size > 0 {
                next.push(s2);
            }
            i = i + 1;
        }
        self.particles = next;
        self.frame = f;
        let total = total_duration_ms(&self.params);
        if self.frame as u64 * 1000 >= 60 * total && self.particles.len() == 0 {
            EffectStatus::Dead
        } else {
            EffectStatus::Running
        }
    }

    /// Live particles.
    pub fn particle_count(&self) -> (r: usize)
        ensures
            r == self.particles_spec().len(),
    {
        self.particles.len()
    }

    /// Live particle `i`.
    pub fn particle(&self, i: usize) -> (s: Particle)
        requires
            i < self.particles_spec().len(),
        ensures
            s == self.particles_spec()[i as int],
    {
        self.particles[i]
    }

    /// The sprite of live particle `i`.
    pub fn sprite_of(&self, i: usize) -> (r: &'static str)
        requires
            i < self.particles_spec().len(),
        ensures
            r == kind_of(self.params_spec(), self.particles_spec()[i as int]).sprite,
    {
        let s = self.particles[i];
        if s.lower {
            match self.params.lower {
                Some(l) => l.sprite,
                None => self.params.upper.sprite,
            }
        } else {
            self.params.upper.sprite
        }
    }
}

/// Every spawned particle is a fresh one of its kind.
proof fn lemma_spawned_fresh(p: OrbitParams, last: int, hi: int, k: int)
    requires
        orbit_wf(p),
        0 <= k < spawned_between(p, last, hi).len(),
    ensures
        ({
            let s = spawned_between(p, last, hi)[k];
            &&& particle_state_wf(kind_of(p, s), s)
            &&& s.age == 0
            &&& s.lower ==> p.lower is Some
            &&& s == fresh_particle(kind_of(p, s), s.lower)
        }),
    decreases hi - last,
{
    if hi > last {
        let prev = spawned_between(p, last, hi - 1);
        if k < prev.len() {
            lemma_spawned_fresh(p, last, hi - 1, k);
        }
    }
}

/// Once the parent's life and the longer particle life have both passed,
/// no particle is left and the planned length has run out: the effect
/// reports `Dead` from then on.
pub proof fn orbit_ends_in_time(c: OrbitClock)
    requires
        c.wf(),
        c.frame_spec() >= c.params_spec().parent_duration_frames + particle_max_frames(c.params_spec()),
    ensures
        c.particles_spec().len() == 0,
        c.frame_spec() * 1000 >= 60 * total_duration_ms_spec(c.params_spec()),
{
    let p = c.params_spec();
    if c.particles_spec().len() > 0 {
        let s = c.particles_spec()[0];
        assert(stored_particle(p, c.frame_spec() as int, s));
        assert(kind_of(p, s).duration_frames <= particle_max_frames(p));
    }
    let n = (p.parent_duration_frames + particle_max_frames(p)) * 1000;
    vstd::arithmetic::div_mod::lemma_fundamental_div_mod(n, 60);
}

} // verus!
