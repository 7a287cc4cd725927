//! The `SAINTCASTING` cone aura behind the `BeginSpell` family: two passes
//! of four truncated cones sharing a base point, each an emitter that idles,
//! rises, flattens and pulses.
//!
//! Every emitter starts at distance 4.10 with an 80° rise and no alpha, and
//! idles for `5·ec` frames (`ec` its index in the pass). Each frame after
//! that it slides outward by 0.07 and its rise drops by 1° (to a floor of
//! 10°, where its alpha is cut). From distance 4.00 on its alpha drains by
//! 3 a frame; below it, it refills. When the alpha drains to zero before process
//! 26 the emitter snaps back to distance 3.37 at the configured reset rise,
//! and pulses again. The parent lives 56 frames.
//!
//! Distances here are exact hundredths, so the refill window is exactly
//! `distance < 4.00` ([`DRAIN_FROM_DISTANCE`]): a cone reset to 3.37
//! refills on its eight slides below 4.00 and drains from the frame it
//! reaches 4.00. Angles are whole degrees and alphas whole steps of 255.
use vstd::prelude::*;
use crate::draw::{BlendKind, EffectStatus};

verus! {

/// Frames the parent effect lives.
pub const TOTAL_FRAMES: u32 = 56;
/// [`TOTAL_FRAMES`] in milliseconds.
pub const TOTAL_DURATION_MS: u32 = 933;
/// Emitters (cones) per pass.
pub const NUM_EMITTERS: usize = 4;
/// The two passes' `time` arguments; on this short path they only count
/// the passes.
pub const PASS_TIMES: [u32; 2] = [45, 25];
/// Emitters in both passes.
pub const TOTAL_EMITTERS: usize = 8;
/// Starting distance, hundredths.
pub const INIT_DISTANCE: u64 = 410;
/// Starting rise angle, degrees.
pub const INIT_RISE_DEG: u32 = 80;
/// Outward slide per frame, hundredths.
pub const DISTANCE_GROW_PER_FRAME: u64 = 7;
/// Lowest rise angle, degrees.
pub const RISE_FLOOR_DEG: u32 = 10;
/// Distance a drained emitter snaps back to, hundredths.
pub const RESET_DISTANCE: u64 = 337;
/// Alpha lost per frame past the threshold.
pub const ALPHA_DRAIN_PER_FRAME: u32 = 3;
/// First distance, in hundredths, at which the alpha drains instead of
/// refilling: the refill window is `distance < 4.00`.
pub const DRAIN_FROM_DISTANCE: u64 = 400;
/// A drained emitter resets only while its process is below this.
pub const RESET_PROCESS_LIMIT: i32 = 26;
/// Idle frames between consecutive emitters of a pass.
pub const PROCESS_STAGGER: i32 = 5;
/// Frames an aura can be advanced through: an emitter's `process` is an
/// `i32` counter, as in the client, and must not overflow.
pub const MAX_FRAMES: u32 = 0x7fff_fffe;
/// Largest refill rate accepted: an additive cone's alpha denominator
/// `51 · refill` must fit a `u32`.
pub const MAX_REFILL: u32 = 84_215_045;

/// Per-variant colour and size parameters; everything else is shared.
#[derive(Clone, Copy, Debug)]
pub struct SaintCastingConfig {
    /// Texture of both passes, unless [`Self::pass_textures`] is set.
    pub texture: &'static str,
    /// Texture of each pass, when they differ.
    pub pass_textures: Option<[&'static str; 2]>,
    /// Height of each of the four cones of a pass.
    pub max_heights: [u32; 4],
    /// Blend of the cones.
    pub blend: BlendKind,
    /// Alpha refilled per frame below the threshold (`+5` Aura Blade, `+10` the
    /// rest).
    pub refill_per_frame: u32,
    /// Rise angle a drained emitter resets to (`64°` Aura Blade, `74°` the
    /// rest).
    pub reset_rise_deg: u32,
}

/// A usable configuration: it refills (with no refill the client's additive
/// alpha is `0/0`), and within range.
pub open spec fn config_wf(c: SaintCastingConfig) -> bool {
    1 <= c.refill_per_frame <= MAX_REFILL
}

/// One cone of the aura.
#[derive(Clone, Copy, Debug)]
pub struct Emitter {
    /// Distance of the cone's base ring from the centre, hundredths.
    pub distance: u64,
    /// Rise angle, degrees.
    pub rise_deg: u32,
    /// Alpha, of 255.
    pub alpha: u32,
    /// Fixed azimuth of the cone, degrees.
    pub rot_start_deg: u32,
    /// Height of the cone.
    pub max_height: u32,
    /// Frames since the emitter started; negative while it idles.
    pub process: i32,
    /// Phase advance of the flame-tip bell per frame, degrees.
    pub wave_rate_deg: u32,
    /// Constant phase of the bell, degrees.
    pub wave_base_deg: u32,
    /// Texture of the cone.
    pub texture: &'static str,
}

/// One frame of an emitter.
pub open spec fn emitter_step(e: Emitter, refill: u32, reset_rise: u32) -> Emitter {
    let process = e.process + 1;
    if process <= 0 {
        Emitter { process: process as i32, ..e }
    } else {
        let distance = e.distance + DISTANCE_GROW_PER_FRAME;
        let floored = e.rise_deg < RISE_FLOOR_DEG + 1;
        let rise = if floored { RISE_FLOOR_DEG as int } else { e.rise_deg - 1 };
        let alpha = if floored { 0 } else { e.alpha as int };
        if distance >= DRAIN_FROM_DISTANCE {
            if alpha <= ALPHA_DRAIN_PER_FRAME {
                if process < RESET_PROCESS_LIMIT {
                    Emitter { distance: RESET_DISTANCE, rise_deg: reset_rise, alpha: 0, process: process as i32, ..e }
                } else {
                    Emitter { distance: distance as u64, rise_deg: rise as u32, alpha: 0, process: process as i32, ..e }
                }
            } else {
                Emitter {
                    distance: distance as u64,
                    rise_deg: rise as u32,
                    alpha: (alpha - ALPHA_DRAIN_PER_FRAME) as u32,
                    process: process as i32,
                    ..e
                }
            }
        } else {
            Emitter { distance: distance as u64, rise_deg: rise as u32, alpha: (alpha + refill) as u32, process: process as i32, ..e }
        }
    }
}

/// An emitter after `n` frames.
pub open spec fn emitter_after(e: Emitter, refill: u32, reset_rise: u32, n: nat) -> Emitter
    decreases n,
{
    if n == 0 {
        e
    } else {
        emitter_step(emitter_after(e, refill, reset_rise, (n - 1) as nat), refill, reset_rise)
    }
}

impl Emitter {
    /// Advances the emitter by one frame.
    pub fn step(&mut self, refill_per_frame: u32, reset_rise_deg: u32)
        requires
            old(self).process < i32::MAX,
            old(self).distance + DISTANCE_GROW_PER_FRAME <= u64::MAX,
            old(self).alpha + refill_per_frame <= u32::MAX,
        ensures
            *final(self) == emitter_step(*old(self), refill_per_frame, reset_rise_deg),
    {
        self.process = self.process + 1;
        if self.process <= 0 {
            return;
        }
        self.distance = self.distance + DISTANCE_GROW_PER_FRAME;
        if self.rise_deg < RISE_FLOOR_DEG + 1 {
            self.rise_deg = RISE_FLOOR_DEG;
            self.alpha = 0;
        } else {
            self.rise_deg = self.rise_deg - 1;
        }
        if self.distance >= DRAIN_FROM_DISTANCE {
            if self.alpha <= ALPHA_DRAIN_PER_FRAME {
                self.alpha = 0;
                if self.process < RESET_PROCESS_LIMIT {
                    self.distance = RESET_DISTANCE;
                    self.rise_deg = reset_rise_deg;
                }
            } else {
                self.alpha = self.alpha - ALPHA_DRAIN_PER_FRAME;
            }
        } else {
            self.alpha = self.alpha + refill_per_frame;
        }
    }
}

/// What every reachable emitter satisfies after `n` frames: its distance
/// has not run past `n` slides, its process not past `n`, and its alpha is
/// at most one refill per slide since its last reset while below the threshold,
/// never more than nine refills.
pub open spec fn emitter_inv(e: Emitter, refill: u32, n: int) -> bool {
    &&& RESET_DISTANCE <= e.distance <= INIT_DISTANCE + DISTANCE_GROW_PER_FRAME * n
    &&& e.process <= n
    &&& e.distance < DRAIN_FROM_DISTANCE ==> e.alpha <= refill * ((e.distance - RESET_DISTANCE) / DISTANCE_GROW_PER_FRAME as int)
    &&& e.alpha <= 9 * refill
}

/// One frame keeps [`emitter_inv`].
proof fn lemma_step_inv(e: Emitter, refill: u32, reset_rise: u32, n: int)
    requires
        emitter_inv(e, refill, n),
        refill <= MAX_REFILL,
        0 <= n < MAX_FRAMES,
    ensures
        emitter_inv(emitter_step(e, refill, reset_rise), refill, n + 1),
{
    let e2 = emitter_step(e, refill, reset_rise);
    if e.process + 1 > 0 && e.distance + DISTANCE_GROW_PER_FRAME < DRAIN_FROM_DISTANCE {
        let x = e.distance - RESET_DISTANCE;
        let j = x / 7;
        assert((x + 7) / 7 == j + 1);
        let a0: int = if e.rise_deg < RISE_FLOOR_DEG + 1 { 0 } else { e.alpha as int };
        assert(a0 <= refill * j);
        assert(e2.alpha == a0 + refill);
        assert(refill * j + refill == refill * (j + 1)) by (nonlinear_arith);
        assert(j + 1 <= 9);
        assert(refill * (j + 1) <= 9 * refill) by (nonlinear_arith)
            requires
                j + 1 <= 9,
                refill >= 0,
        ;
    }
}

/// Fixed azimuth of cone `ec` of a pass, degrees.
pub open spec fn rot_start_spec(ec: int) -> u32 {
    if ec == 0 { 180 } else if ec == 1 { 270 } else if ec == 2 { 0 } else { 90 }
}

/// Bell phase advance of cone `ec`, degrees per frame: 1 for the first two
/// cones of a pass, 2 for the others.
pub open spec fn wave_rate_spec(ec: int) -> u32 {
    if ec < 2 { 1 } else { 2 }
}

/// Texture of pass `pass`.
pub open spec fn pass_texture_spec(c: SaintCastingConfig, pass: int) -> &'static str {
    match c.pass_textures {
        Some(t) => t@[pass],
        None => c.texture,
    }
}

/// Emitter `i` (pass `i / 4`, cone `i % 4`) as the aura spawns it: at the
/// starting distance and rise, transparent, idling `5·ec` frames.
pub open spec fn initial_emitter(c: SaintCastingConfig, i: int) -> Emitter {
    let ec = i % 4;
    Emitter {
        distance: INIT_DISTANCE,
        rise_deg: INIT_RISE_DEG,
        alpha: 0,
        rot_start_deg: rot_start_spec(ec),
        max_height: c.max_heights@[ec],
        process: (-(PROCESS_STAGGER * ec)) as i32,
        wave_rate_deg: wave_rate_spec(ec),
        wave_base_deg: (90 * ec) as u32,
        texture: pass_texture_spec(c, i / 4),
    }
}

/// Emitter `i` of an aura of `c` after `n` frames.
pub open spec fn emitter_at(c: SaintCastingConfig, i: int, n: nat) -> Emitter {
    emitter_after(initial_emitter(c, i), c.refill_per_frame, c.reset_rise_deg, n)
}

/// Every emitter of a usable aura satisfies [`emitter_inv`] at every frame.
proof fn lemma_emitter_at_inv(c: SaintCastingConfig, i: int, n: nat)
    requires
        config_wf(c),
        0 <= i < 8,
        n <= MAX_FRAMES,
    ensures
        emitter_inv(emitter_at(c, i, n), c.refill_per_frame, n as int),
    decreases n,
{
    if n > 0 {
        lemma_emitter_at_inv(c, i, (n - 1) as nat);
        lemma_step_inv(emitter_at(c, i, (n - 1) as nat), c.refill_per_frame, c.reset_rise_deg, n - 1);
    }
}

fn rot_start(ec: usize) -> (r: u32)
    requires
        ec < 4,
    ensures
        r == rot_start_spec(ec as int),
{
    if ec == 0 { 180 } else if ec == 1 { 270 } else if ec == 2 { 0 } else { 90 }
}

fn pass_texture(c: &SaintCastingConfig, pass: usize) -> (r: &'static str)
    requires
        pass < 2,
    ensures
        r == pass_texture_spec(*c, pass as int),
{
    match c.pass_textures {
        Some(t) => t[pass],
        None => c.texture,
    }
}

/// What the renderer gets of one lit cone. The cone's height is
/// `sin(rise)·max_height`, its top ring `distance + cos(rise)·max_height`,
/// and its flame-tip bell swings `0.3·max_height·sin(phase)`; the alpha is
/// `alpha / alpha_den`.
#[derive(Clone, Copy, Debug)]
pub struct ConeDraw {
    /// Base ring distance, hundredths.
    pub distance: u64,
    /// Rise angle, degrees.
    pub rise_deg: u32,
    /// Height of the cone.
    pub max_height: u32,
    /// Azimuth, degrees.
    pub rot_start_deg: u32,
    /// Alpha numerator, at most [`Self::alpha_den`].
    pub alpha: u32,
    /// Alpha denominator.
    pub alpha_den: u32,
    /// Phase of the flame-tip bell, degrees.
    pub wave_phase_deg: u64,
    /// Texture.
    pub texture: &'static str,
}

/// Alpha denominator of a cone: additive cones are attenuated by their
/// refill rate (`255 · refill/5`) so the stacked glow keeps its detail;
/// alpha-blended cones use plain 255.
pub open spec fn alpha_den_spec(c: SaintCastingConfig) -> int {
    match c.blend {
        BlendKind::Additive => 51 * c.refill_per_frame,
        BlendKind::Alpha => 255,
    }
}

/// The bell's phase: `max(process, 0)·rate + base`.
pub open spec fn wave_phase_spec(e: Emitter) -> int {
    (if e.process > 0 { e.process as int } else { 0 }) * e.wave_rate_deg + e.wave_base_deg
}

/// The cone of emitter `e` on frame `frame`: nothing once the parent has
/// expired or while the emitter is transparent.
pub open spec fn cone_spec(c: SaintCastingConfig, e: Emitter, frame: int) -> Option<ConeDraw> {
    let den = alpha_den_spec(c);
    if frame > TOTAL_FRAMES || e.alpha == 0 {
        None
    } else {
        Some(ConeDraw {
            distance: e.distance,
            rise_deg: e.rise_deg,
            max_height: e.max_height,
            rot_start_deg: e.rot_start_deg,
            alpha: (if e.alpha <= den { e.alpha as int } else { den }) as u32,
            alpha_den: den as u32,
            wave_phase_deg: wave_phase_spec(e) as u64,
            texture: e.texture,
        })
    }
}

/// The cones never turn about their axis or change their make: whatever
/// frame it is, emitter `i` keeps the azimuth, height, bell rate and phase
/// offset of its cone `i % 4` and the texture of its pass `i / 4`.
pub proof fn cones_never_turn(c: SaintCastingConfig, i: int, n: nat)
    requires
        0 <= i < TOTAL_EMITTERS,
    ensures
        emitter_at(c, i, n).rot_start_deg == rot_start_spec(i % 4),
        emitter_at(c, i, n).max_height == c.max_heights@[i % 4],
        emitter_at(c, i, n).wave_rate_deg == wave_rate_spec(i % 4),
        emitter_at(c, i, n).wave_base_deg == 90 * (i % 4),
        emitter_at(c, i, n).texture == pass_texture_spec(c, i / 4),
    decreases n,
{
    if n > 0 {
        cones_never_turn(c, i, (n - 1) as nat);
    }
}

/// Alpha of an emitter `p` frames into its first pulse: one refill a frame
/// below the threshold (through frame 9), then three fewer a frame.
pub open spec fn pulse_alpha(refill: int, p: int) -> int {
    if p <= 9 { refill * (p - 1) } else { 8 * refill - 3 * (p - 9) }
}

/// While idling, an emitter only counts its process up.
proof fn lemma_idle(c: SaintCastingConfig, i: int, n: nat)
    requires
        0 <= i < TOTAL_EMITTERS,
        n <= PROCESS_STAGGER * (i % 4),
    ensures
        emitter_at(c, i, n) == (Emitter { process: (initial_emitter(c, i).process + n) as i32, ..initial_emitter(c, i) }),
    decreases n,
{
    if n > 0 {
        lemma_idle(c, i, (n - 1) as nat);
    }
}

/// The first pulse in closed form. Emitter `i` idles `5·ec` frames; on its
/// first active frame its alpha is still empty past the threshold, so it snaps
/// back to distance 3.37 at the reset rise; then it refills once a frame
/// until its base reaches 4.00 (its frame 10) and drains 3 a frame from
/// there. This holds while the pulse lasts (`3p < 8·refill + 27`) and
/// before the rise can reach its floor (`p ≤ reset_rise − 9`).
pub proof fn first_pulse(c: SaintCastingConfig, i: int, p: int)
    requires
        config_wf(c),
        0 <= i < TOTAL_EMITTERS,
        1 <= p,
        3 * p < 8 * c.refill_per_frame + 27,
        p <= c.reset_rise_deg - 9,
    ensures
        ({
            let e = emitter_at(c, i, (PROCESS_STAGGER * (i % 4) + p) as nat);
            &&& e.process == p
            &&& e.distance == RESET_DISTANCE + DISTANCE_GROW_PER_FRAME * (p - 1)
            &&& e.rise_deg == c.reset_rise_deg - (p - 1)
            &&& e.alpha == pulse_alpha(c.refill_per_frame as int, p)
        }),
    decreases p,
{
    let idle = PROCESS_STAGGER * (i % 4);
    let r = c.refill_per_frame as int;
    if p == 1 {
        lemma_idle(c, i, idle as nat);
        let a = emitter_at(c, i, idle as nat);
        assert(a.process == 0);
        assert(emitter_at(c, i, (idle + 1) as nat) == emitter_step(a, c.refill_per_frame, c.reset_rise_deg));
        assert(r * 0 == 0);
    } else {
        first_pulse(c, i, p - 1);
        let prev = emitter_at(c, i, (idle + p - 1) as nat);
        assert(emitter_at(c, i, (idle + p) as nat) == emitter_step(prev, c.refill_per_frame, c.reset_rise_deg));
        if p <= 9 {
            assert(r * (p - 2) + r == r * (p - 1)) by (nonlinear_arith);
            assert(r * (p - 1) <= 8 * r) by (nonlinear_arith)
                requires
                    p <= 9,
                    r >= 0,
            ;
            assert(prev.alpha == r * (p - 2));
        } else if p == 10 {
            assert(r * (9 - 1) == 8 * r) by (nonlinear_arith);
            assert(prev.alpha == 8 * r);
        } else {
            assert(prev.alpha == 8 * r - 3 * (p - 10));
        }
    }
}

/// Emitter `i` is dark until two frames after its idle ends, and lit with
/// one refill on that frame: the cones of a pass come up one after another,
/// 5 frames apart.
pub proof fn cascade_comes_up_staggered(c: SaintCastingConfig, i: int, n: nat)
    requires
        config_wf(c),
        0 <= i < TOTAL_EMITTERS,
    ensures
        n <= PROCESS_STAGGER * (i % 4) + 1 ==> emitter_at(c, i, n).alpha == 0,
        emitter_at(c, i, (PROCESS_STAGGER * (i % 4) + 2) as nat).alpha == c.refill_per_frame,
{
    let idle = PROCESS_STAGGER * (i % 4);
    lemma_idle(c, i, idle as nat);
    let e1 = emitter_step(initial_emitter(c, i), c.refill_per_frame, c.reset_rise_deg);
    if n <= idle {
        lemma_idle(c, i, n);
    }
    let a = emitter_at(c, i, idle as nat);
    let b = emitter_at(c, i, (idle + 1) as nat);
    assert(b == emitter_step(a, c.refill_per_frame, c.reset_rise_deg));
    assert(emitter_at(c, i, (idle + 2) as nat) == emitter_step(b, c.refill_per_frame, c.reset_rise_deg));
}

/// A reachable emitter never holds more than nine refills of alpha, so an
/// additive cone's alpha never reaches its denominator and the stacked glow
/// never saturates.
pub proof fn glow_stays_under_its_peak(c: SaintCastingConfig, i: int, n: nat)
    requires
        config_wf(c),
        0 <= i < TOTAL_EMITTERS,
        n <= MAX_FRAMES,
    ensures
        emitter_at(c, i, n).alpha <= 9 * c.refill_per_frame,
        c.blend == BlendKind::Additive ==> emitter_at(c, i, n).alpha < alpha_den_spec(c),
{
    lemma_emitter_at_inv(c, i, n);
}

/// Once a cone has drained past its last chance to reset (process 25 or
/// more, base past the threshold after its next slide), it stays dark.
pub proof fn drained_cone_stays_dark(e: Emitter, refill: u32, reset_rise: u32, k: nat)
    requires
        e.alpha == 0,
        e.process >= RESET_PROCESS_LIMIT - 1,
        e.distance + DISTANCE_GROW_PER_FRAME >= DRAIN_FROM_DISTANCE,
        e.process + k <= i32::MAX,
        e.distance + DISTANCE_GROW_PER_FRAME * k <= u64::MAX,
    ensures
        emitter_after(e, refill, reset_rise, k).alpha == 0,
        emitter_after(e, refill, reset_rise, k).process == e.process + k,
        emitter_after(e, refill, reset_rise, k).distance == e.distance + DISTANCE_GROW_PER_FRAME * k,
    decreases k,
{
    if k > 0 {
        drained_cone_stays_dark(e, refill, reset_rise, (k - 1) as nat);
    }
}

/// The eight cones of a `SAINTCASTING` aura and its frame clock.
pub struct SaintCastingEffect {
    cfg: SaintCastingConfig,
    frame: u32,
    emitters: Vec<Emitter>,
}

impl SaintCastingEffect {
    /// The configuration.
    pub closed spec fn config(&self) -> SaintCastingConfig {
        self.cfg
    }

    /// Frames elapsed.
    pub closed spec fn frame_spec(&self) -> u32 {
        self.frame
    }

    /// The emitters, pass by pass.
    pub closed spec fn emitters_spec(&self) -> Seq<Emitter> {
        self.emitters@
    }

    /// A usable configuration, and every emitter is the one its spawn state
    /// reaches in the frames elapsed.
    pub open spec fn wf(&self) -> bool {
        &&& config_wf(self.config())
        &&& self.frame_spec() <= MAX_FRAMES
        &&& self.emitters_spec().len() == TOTAL_EMITTERS
        &&& forall|i: int| 0 <= i < TOTAL_EMITTERS ==>
            #[trigger] self.emitters_spec()[i] == emitter_at(self.config(), i, self.frame_spec() as nat)
    }

    /// A fresh aura of `cfg`: both passes of four emitters, on frame 0.
    pub fn new(cfg: SaintCastingConfig) -> (e: SaintCastingEffect)
        requires
            config_wf(cfg),
        ensures
            e.wf(),
            e.config() == cfg,
            e.frame_spec() == 0,
    {
        let mut emitters: Vec<Emitter> = Vec::new();
        let mut pass: usize = 0;
        while pass < 2
            invariant
                pass <= 2,
                emitters@.len() == 4 * pass,
                forall|i: int| 0 <= i < emitters@.len() ==> #[trigger] emitters@[i] == initial_emitter(cfg, i),
            decreases 2 - pass,
        {
            let texture = pass_texture(&cfg, pass);
            let mut ec: usize = 0;
            while ec < NUM_EMITTERS
                invariant
                    pass < 2,
                    ec <= 4,
                    texture == pass_texture_spec(cfg, pass as int),
                    emitters@.len() == 4 * pass + ec,
                    forall|i: int| 0 <= i < emitters@.len() ==> #[trigger] emitters@[i] == initial_emitter(cfg, i),
                decreases 4 - ec,
            {
                let ghost i = 4 * pass + ec;
                assert(i % 4 == ec && i / 4 == pass);
                emitters.push(Emitter {
                    distance: INIT_DISTANCE,
                    rise_deg: INIT_RISE_DEG,
                    alpha: 0,
                    rot_start_deg: rot_start(ec),
                    max_height: cfg.max_heights[ec],
                    process: -(PROCESS_STAGGER * ec as i32),
                    wave_rate_deg: if ec < 2 { 1 } else { 2 },
                    wave_base_deg: 90 * ec as u32,
                    texture,
                });
                ec = ec + 1;
            }
            pass = pass + 1;
        }
        SaintCastingEffect { cfg, frame: 0, emitters }
    }

    /// Steps every emitter one frame.
    fn step_all(&mut self)
        requires
            old(self).wf(),
            old(self).frame_spec() < MAX_FRAMES,
        ensures
            final(self).wf(),
            final(self).config() == old(self).config(),
            final(self).frame_spec() == old(self).frame_spec() + 1,
    {
        let ghost n = self.frame as nat;
        let refill = self.cfg.refill_per_frame;
        let reset = self.cfg.reset_rise_deg;
        let mut i: usize = 0;
        while i < TOTAL_EMITTERS
            invariant
                self.cfg == old(self).cfg,
                self.frame == old(self).frame,
                n == self.frame,
                n < MAX_FRAMES,
                config_wf(self.cfg),
                refill == self.cfg.refill_per_frame,
                reset == self.cfg.reset_rise_deg,
                i <= TOTAL_EMITTERS,
                self.emitters@.len() == TOTAL_EMITTERS,
                forall|j: int| 0 <= j < i ==> #[trigger] self.emitters@[j] == emitter_at(self.cfg, j, n + 1),
                forall|j: int| i <= j < TOTAL_EMITTERS ==> #[trigger] self.emitters@[j] == emitter_at(self.cfg, j, n),
            decreases TOTAL_EMITTERS - i,
        {
            let mut e = self.emitters[i];
            proof {
                lemma_emitter_at_inv(self.cfg, i as int, n);
            }
            e.step(refill, reset);
            assert(e == emitter_at(self.cfg, i as int, n + 1));
            self.emitters.set(i, e);
            i = i + 1;
        }
        self.frame = self.frame + 1;
    }

    /// Advances by `frames` whole frames, stepping every emitter once per
    /// frame, and reports `Dead` once the parent's 56 frames have passed.
    pub fn advance(&mut self, frames: u32) -> (status: EffectStatus)
        requires
            old(self).wf(),
            old(self).frame_spec() + frames <= MAX_FRAMES,
        ensures
            final(self).wf(),
            final(self).config() == old(self).config(),
            final(self).frame_spec() == old(self).frame_spec() + frames,
            status == (if final(self).frame_spec() >= TOTAL_FRAMES { EffectStatus::Dead } else { EffectStatus::Running }),
    {
        let mut k: u32 = 0;
        while k < frames
            invariant
                self.wf(),
                self.config() == old(self).config(),
                k <= frames,
                self.frame_spec() == old(self).frame_spec() + k,
                old(self).frame_spec() + frames <= MAX_FRAMES,
            decreases frames - k,
        {
            self.step_all();
            k = k + 1;
        }
        if self.frame >= TOTAL_FRAMES { EffectStatus::Dead } else { EffectStatus::Running }
    }

    /// Emitter `i` (pass `i / 4`, cone `i % 4`).
    pub fn emitter(&self, i: usize) -> (e: Emitter)
        requires
            self.wf(),
            i < TOTAL_EMITTERS,
        ensures
            e == emitter_at(self.config(), i as int, self.frame_spec() as nat),
    {
        self.emitters[i]
    }

    /// The cone emitter `i` draws this frame, if any.
    pub fn cone(&self, i: usize) -> (r: Option<ConeDraw>)
        requires
            self.wf(),
            i < TOTAL_EMITTERS,
        ensures
            r == cone_spec(self.config(), emitter_at(self.config(), i as int, self.frame_spec() as nat), self.frame_spec() as int),
    {
        let e = self.emitters[i];
        if self.frame > TOTAL_FRAMES || e.alpha == 0 {
            return None;
        }
        let den: u32 = match self.cfg.blend {
            BlendKind::Additive => 51 * self.cfg.refill_per_frame,
            BlendKind::Alpha => 255,
        };
        proof {
            lemma_emitter_at_inv(self.cfg, i as int, self.frame as nat);
            cones_never_turn(self.cfg, i as int, self.frame as nat);
        }
        let active: u64 = if e.process > 0 { e.process as u64 } else { 0 };
        let rate = e.wave_rate_deg as u64;
        assert(active * rate <= 2 * (MAX_FRAMES as int)) by (nonlinear_arith)
            requires
                active <= MAX_FRAMES,
                rate <= 2,
        ;
        Some(ConeDraw {
            distance: e.distance,
            rise_deg: e.rise_deg,
            max_height: e.max_height,
            rot_start_deg: e.rot_start_deg,
            alpha: if e.alpha <= den { e.alpha } else { den },
            alpha_den: den,
            wave_phase_deg: active * rate + e.wave_base_deg as u64,
            texture: e.texture,
        })
    }

    /// Frames elapsed.
    pub fn frame(&self) -> (r: u32)
        ensures
            r == self.frame_spec(),
    {
        self.frame
    }
}

} // verus!
