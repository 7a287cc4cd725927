//! Shared radial spike burst: `alpha_center.tga` rays radiating from a
//! centre, each spinning slowly and lengthening over its life (the
//! `PP_2DFLASH` ×N pattern of Bash, HasteUp, Flasher, Turn Undead and
//! Summon Slave).
//!
//! Each spike takes its longitude, spin speed, initial length and growth —
//! and, for a burst whose growth changes part-way, its second growth — from
//! a generator started at `seed ^ 0x9E3779B9`, in that order, spike by
//! spike; a draw is the top 24 bits of the generator state, read as a
//! fraction of `2^24` of the parameter's range. The burst is alive while its
//! age is under its duration. Its alpha rises linearly over `fade_in` frames
//! and, from `fade_out_start`, falls linearly to nothing at the end.
//!
//! The fade-out start is kept in thirds of a frame (the usual start is two
//! thirds of the way through); alphas are exact fractions of the peak. Time
//! may also be counted in ticks, a caller-chosen `1/ticks` of a frame, so
//! fractional frame counts are kept exactly. A burst without a fade-in
//! ramps up over a thousandth of a frame, and one whose fade-out window is
//! empty ramps down over a thousandth of a frame from the window's start:
//! the guard against a zero-length ramp. On whole frames both are
//! instantaneous. The spikes' geometry
//! is the renderer's.
use vstd::prelude::*;
use crate::rng::{lcg_iter, Rng};

verus! {

/// The ray texture.
pub const SPIKE_TEXTURE: &'static str = "alpha_center.tga";
/// Every texture a burst draws with.
pub const TEXTURES: [&'static str; 1] = [SPIKE_TEXTURE];
/// Constant the seed is mixed with before the first draw.
pub const SEED_MIX: u32 = 0x9E37_79B9;

/// The integer part of a burst's recipe.
#[derive(Clone, Copy, Debug, PartialEq, Eq, Structural)]
pub struct SpikeBurstParams {
    /// Spikes in the burst.
    pub count: u32,
    /// Life of the burst, frames.
    pub duration_frames: u32,
    /// Frames of the linear fade-in.
    pub fade_in_frames: u32,
    /// Frame the fade-out starts on, in thirds of a frame.
    pub fade_out_start_thirds: u32,
    /// Whether each spike's growth changes part-way (one more draw each).
    pub change_growth: bool,
}

/// The usual fade-out start: two thirds of the way through, in thirds.
pub open spec fn default_fade_out_start_thirds(duration_frames: int) -> int {
    2 * duration_frames
}

/// The usual fade-out start, in thirds of a frame.
pub fn default_fade_out_start(duration_frames: u32) -> (r: u32)
    requires
        duration_frames <= 0x7fff_ffff,
    ensures
        r == default_fade_out_start_thirds(duration_frames as int),
{
    2 * duration_frames
}

/// A recipe whose fade-out starts before the end of its life.
pub open spec fn params_wf(p: SpikeBurstParams) -> bool {
    p.fade_out_start_thirds < 3 * p.duration_frames
}

/// Generator draws each spike takes.
pub open spec fn draws_per_spike(p: SpikeBurstParams) -> int {
    if p.change_growth { 5 } else { 4 }
}

/// Draw `k` (from 1) of a burst seeded with `seed`: the top 24 bits of the
/// generator state.
pub open spec fn burst_draw(seed: u32, k: int) -> u32 {
    lcg_iter(seed ^ SEED_MIX, k as nat) >> 8
}

/// The draws that place one spike, each a fraction of `2^24`.
#[derive(Clone, Copy, Debug, PartialEq, Eq, Structural)]
pub struct SpikeDraws {
    /// Initial longitude, of a full turn.
    pub longitude: u32,
    /// Spin speed, of the speed range.
    pub angular: u32,
    /// Initial length, of the length range.
    pub length: u32,
    /// Growth per frame, of the growth range.
    pub growth: u32,
    /// Growth after the change, of its range, when the burst has one.
    pub change: Option<u32>,
}

/// The draws of spike `i`.
pub open spec fn spike_draws_spec(p: SpikeBurstParams, seed: u32, i: int) -> SpikeDraws {
    let b = draws_per_spike(p) * i;
    SpikeDraws {
        longitude: burst_draw(seed, b + 1),
        angular: burst_draw(seed, b + 2),
        length: burst_draw(seed, b + 3),
        growth: burst_draw(seed, b + 4),
        change: if p.change_growth { Some(burst_draw(seed, b + 5)) } else { None },
    }
}

/// Makes the draws of spike `i` from a generator that has made those of the
/// spikes before it.
fn draw_spike(rng: &mut Rng, p: &SpikeBurstParams, Ghost(seed): Ghost<u32>, Ghost(i): Ghost<int>) -> (d: SpikeDraws)
    requires
        i >= 0,
        old(rng).state() == lcg_iter(seed ^ SEED_MIX, (draws_per_spike(*p) * i) as nat),
    ensures
        final(rng).state() == lcg_iter(seed ^ SEED_MIX, (draws_per_spike(*p) * (i + 1)) as nat),
        d == spike_draws_spec(*p, seed, i),
{
    let ghost b = draws_per_spike(*p) * i;
    let longitude = rng.next_u32() >> 8;
    assert(rng.state() == lcg_iter(seed ^ SEED_MIX, (b + 1) as nat));
    let angular = rng.next_u32() >> 8;
    assert(rng.state() == lcg_iter(seed ^ SEED_MIX, (b + 2) as nat));
    let length = rng.next_u32() >> 8;
    assert(rng.state() == lcg_iter(seed ^ SEED_MIX, (b + 3) as nat));
    let growth = rng.next_u32() >> 8;
    assert(rng.state() == lcg_iter(seed ^ SEED_MIX, (b + 4) as nat));
    let change = if p.change_growth {
        let c = rng.next_u32() >> 8;
        assert(rng.state() == lcg_iter(seed ^ SEED_MIX, (b + 5) as nat));
        Some(c)
    } else {
        None
    };
    SpikeDraws { longitude, angular, length, growth, change }
}

/// The draws of every spike of a burst seeded with `seed`, in spike order.
pub fn spike_draws(p: &SpikeBurstParams, seed: u32) -> (v: Vec<SpikeDraws>)
    ensures
        v@.len() == p.count,
        forall|i: int| 0 <= i < p.count ==> #[trigger] v@[i] == spike_draws_spec(*p, seed, i),
{
    let mut rng = Rng(seed ^ SEED_MIX);
    let mut v: Vec<SpikeDraws> = Vec::new();
    let mut i: u32 = 0;
    while i < p.count
        invariant
            i <= p.count,
            v@.len() == i,
            rng.state() == lcg_iter(seed ^ SEED_MIX, (draws_per_spike(*p) * i) as nat),
            forall|k: int| 0 <= k < i ==> #[trigger] v@[k] == spike_draws_spec(*p, seed, k),
        decreases p.count - i,
    {
        let d = draw_spike(&mut rng, p, Ghost(seed), Ghost(i as int));
        v.push(d);
        i = i + 1;
    }
    v
}

/// Denominator of the rise: the fade-in's frames, or 1 when there is no
/// fade-in (the burst is then full from its first frame on).
pub open spec fn rise_den(p: SpikeBurstParams) -> int {
    if p.fade_in_frames > 0 { p.fade_in_frames as int } else { 1 }
}

/// The fade-out window in thirds: from its start to the end of the life.
pub open spec fn fall_span(p: SpikeBurstParams) -> int {
    3 * p.duration_frames - p.fade_out_start_thirds
}

/// Denominator of the fall: the fade-out window, or 1 when it is empty
/// (the burst then drops to nothing right after its start).
pub open spec fn fall_den(p: SpikeBurstParams) -> int {
    if fall_span(p) > 0 { fall_span(p) } else { 1 }
}

/// The burst's alpha on frame `f`, in units of `1/(rise_den · fall_den)`
/// of the peak: the rise `min(f, rise_den)` times the fall, which is full
/// before the fade-out and `3·(duration − f)` (at least 0) within it.
pub open spec fn alpha_level_spec(p: SpikeBurstParams, f: int) -> int {
    let rise = if f < rise_den(p) { f } else { rise_den(p) };
    let span = fall_span(p);
    let left = 3 * (p.duration_frames - f);
    let fall = if 3 * f < p.fade_out_start_thirds {
        fall_den(p)
    } else if span <= 0 {
        if 3 * f == p.fade_out_start_thirds { 1int } else { 0int }
    } else if left < 0 {
        0
    } else if left > span {
        span
    } else {
        left
    };
    rise * fall
}

/// The peak level, `rise_den · fall_den`.
pub open spec fn peak_level(p: SpikeBurstParams) -> int {
    rise_den(p) * fall_den(p)
}

/// The burst's alpha on frame `f`, as a level of [`peak_level`].
pub fn alpha_level(p: &SpikeBurstParams, f: u32) -> (r: u128)
    ensures
        r == alpha_level_spec(*p, f as int),
        r <= peak_level(*p),
{
    let rd: u128 = if p.fade_in_frames > 0 { p.fade_in_frames as u128 } else { 1 };
    let fw: u128 = f as u128;
    let rise: u128 = if fw < rd { fw } else { rd };
    let start: u128 = p.fade_out_start_thirds as u128;
    let whole: u128 = 3 * p.duration_frames as u128;
    let fd: u128 = if whole > start { whole - start } else { 1 };
    let fall: u128 = if 3 * fw < start {
        fd
    } else if whole <= start {
        if 3 * fw == start { 1 } else { 0 }
    } else if f >= p.duration_frames {
        0
    } else if 3 * (p.duration_frames as u128 - fw) > fd {
        fd
    } else {
        3 * (p.duration_frames as u128 - fw)
    };
    proof {
        assert(rise * fall <= rd * fd) by (nonlinear_arith)
            requires
                rise <= rd,
                fall <= fd,
        ;
        assert(rd * fd <= 0xffff_ffff * 0x3_0000_0000u128) by (nonlinear_arith)
            requires
                rd <= 0xffff_ffff,
                fd <= 0x3_0000_0000,
        ;
    }
    rise * fall
}

/// An exact alpha at a tick resolution: the peak times
/// `(rise / rise_den) · (fall / fall_den)`.
#[derive(Clone, Copy, Debug, PartialEq, Eq, Structural)]
pub struct AlphaFraction {
    /// How far the fade-in has come.
    pub rise: u128,
    /// The fade-in's length in ticks (ticks per frame when there is none).
    pub rise_den: u128,
    /// What is left of the fade-out, in thirds of a tick.
    pub fall: u128,
    /// The fade-out window in thirds of a tick (three per tick when it is
    /// empty).
    pub fall_den: u128,
}

/// Denominator of the rise `t` ticks a frame: the fade-in's ticks, or `t`
/// when there is none.
pub open spec fn rise_den_ticks(p: SpikeBurstParams, t: int) -> int {
    if p.fade_in_frames > 0 { p.fade_in_frames * t } else { t }
}

/// The rise `n` ticks in at `t` ticks a frame, of [`rise_den_ticks`]: up
/// over the fade-in, or over a thousandth of a frame when there is none.
pub open spec fn rise_ticks(p: SpikeBurstParams, n: int, t: int) -> int {
    if p.fade_in_frames > 0 {
        if n < p.fade_in_frames * t { n } else { p.fade_in_frames * t }
    } else if 1000 * n < t {
        1000 * n
    } else {
        t
    }
}

/// Denominator of the fall at `t` ticks a frame: the fade-out window in
/// thirds of a tick, or `3·t` when it is empty.
pub open spec fn fall_den_ticks(p: SpikeBurstParams, t: int) -> int {
    if fall_span(p) > 0 { fall_span(p) * t } else { 3 * t }
}

/// The fall `n` ticks in at `t` ticks a frame, of [`fall_den_ticks`]: full
/// before the fade-out, then `3·(duration·t − n)` (at least 0) within it;
/// with an empty window, down over a thousandth of a frame from its start.
pub open spec fn fall_ticks(p: SpikeBurstParams, n: int, t: int) -> int {
    let span = fall_span(p) * t;
    let left = 3 * (p.duration_frames * t - n);
    if 3 * n < p.fade_out_start_thirds * t {
        fall_den_ticks(p, t)
    } else if fall_span(p) <= 0 {
        let rest = 3 * t - 1000 * (3 * n - p.fade_out_start_thirds * t);
        if rest > 0 { rest } else { 0int }
    } else if left < 0 {
        0
    } else if left > span {
        span
    } else {
        left
    }
}

/// The burst's alpha `n` ticks in at `ticks` ticks a frame, as an exact
/// fraction of the peak.
pub fn alpha_in_ticks(p: &SpikeBurstParams, n: u32, ticks: u32) -> (r: AlphaFraction)
    requires
        ticks >= 1,
    ensures
        r.rise == rise_ticks(*p, n as int, ticks as int),
        r.rise_den == rise_den_ticks(*p, ticks as int),
        r.fall == fall_ticks(*p, n as int, ticks as int),
        r.fall_den == fall_den_ticks(*p, ticks as int),
        r.rise <= r.rise_den,
        r.fall <= r.fall_den,
{
    let t: u128 = ticks as u128;
    let nw: u128 = n as u128;
    let fi: u128 = p.fade_in_frames as u128;
    proof {
        assert(fi * t <= 0xffff_ffff * 0xffff_ffffu128) by (nonlinear_arith)
            requires
                fi <= 0xffff_ffff,
                t <= 0xffff_ffff,
        ;
        assert(3 * p.duration_frames * t <= 0x3_0000_0000 * 0xffff_ffffu128) by (nonlinear_arith)
            requires
                p.duration_frames <= 0xffff_ffff,
                t <= 0xffff_ffff,
        ;
        assert(p.fade_out_start_thirds * t <= 0xffff_ffff * 0xffff_ffffu128) by (nonlinear_arith)
            requires
                p.fade_out_start_thirds <= 0xffff_ffff,
                t <= 0xffff_ffff,
        ;
    }
    let (rise, rise_den): (u128, u128) = if fi > 0 {
        let rd = fi * t;
        (if nw < rd { nw } else { rd }, rd)
    } else {
        (if 1000 * nw < t { 1000 * nw } else { t }, t)
    };
    let start: u128 = p.fade_out_start_thirds as u128 * t;
    let whole: u128 = 3 * p.duration_frames as u128 * t;
    proof {
        assert(whole > start <==> fall_span(*p) > 0) by (nonlinear_arith)
            requires
                whole == 3 * p.duration_frames * t,
                start == p.fade_out_start_thirds * t,
                fall_span(*p) == 3 * p.duration_frames - p.fade_out_start_thirds,
                t >= 1,
        ;
        assert(whole > start ==> whole - start == fall_span(*p) * t) by (nonlinear_arith)
            requires
                whole == 3 * p.duration_frames * t,
                start == p.fade_out_start_thirds * t,
                fall_span(*p) == 3 * p.duration_frames - p.fade_out_start_thirds,
        ;
    }
    assert(whole == 3 * (p.duration_frames * t)) by (nonlinear_arith)
        requires
            whole == 3 * p.duration_frames * t,
    ;
    let fd: u128 = if whole > start { whole - start } else { 3 * t };
    let fall: u128 = if 3 * nw < start {
        fd
    } else if whole <= start {
        let over = 3 * nw - start;
        if 1000 * over >= 3 * t { 0 } else { 3 * t - 1000 * over }
    } else if 3 * nw >= whole {
        0
    } else if whole - 3 * nw > fd {
        fd
    } else {
        whole - 3 * nw
    };
    AlphaFraction { rise, rise_den, fall, fall_den: fd }
}

/// The burst is alive `n` ticks in at `ticks` ticks a frame.
pub fn alive_in_ticks(p: &SpikeBurstParams, n: u32, ticks: u32) -> (r: bool)
    ensures
        r == (n < p.duration_frames * ticks),
{
    proof {
        assert(p.duration_frames * ticks <= 0xffff_ffff * 0xffff_ffffu64) by (nonlinear_arith)
            requires
                p.duration_frames <= 0xffff_ffff,
                ticks <= 0xffff_ffff,
        ;
    }
    (n as u64) < p.duration_frames as u64 * ticks as u64
}

/// At any tick resolution a burst whose fade-out starts before its end is
/// dark at its start and from its end on and lit strictly inside its life.
pub proof fn burst_lit_inside_its_life_in_ticks(p: SpikeBurstParams, n: int, t: int)
    requires
        params_wf(p),
        n >= 0,
        t >= 1,
    ensures
        0 <= rise_ticks(p, n, t) <= rise_den_ticks(p, t),
        0 <= fall_ticks(p, n, t) <= fall_den_ticks(p, t),
        rise_ticks(p, 0, t) == 0,
        n >= p.duration_frames * t ==> fall_ticks(p, n, t) == 0,
        0 < n < p.duration_frames * t ==> rise_ticks(p, n, t) > 0 && fall_ticks(p, n, t) > 0,
{
    let d = p.duration_frames as int;
    let st = p.fade_out_start_thirds as int;
    assert(fall_span(p) * t == 3 * d * t - st * t) by (nonlinear_arith)
        requires
            fall_span(p) == 3 * d - st,
    ;
    assert(fall_span(p) * t > 0) by (nonlinear_arith)
        requires
            fall_span(p) > 0,
            t >= 1,
    ;
    assert(st * t < 3 * d * t) by (nonlinear_arith)
        requires
            st < 3 * d,
            t >= 1,
    ;
    assert(p.fade_in_frames * t >= 0) by (nonlinear_arith)
        requires
            t >= 1,
    ;
    assert(3 * d * t == 3 * (d * t)) by (nonlinear_arith);
    if p.fade_in_frames > 0 {
        assert(p.fade_in_frames * t > 0) by (nonlinear_arith)
            requires
                p.fade_in_frames > 0,
                t >= 1,
        ;
    }
}

/// The burst is alive at age `age` frames.
pub fn alive(p: &SpikeBurstParams, age: u32) -> (r: bool)
    ensures
        r == (age < p.duration_frames),
{
    age < p.duration_frames
}

/// One burst: its recipe, the seed it was made with, its spikes' draws, the
/// ticks of its clock per frame and its age in ticks.
pub struct SpikeBurst {
    params: SpikeBurstParams,
    seed: Ghost<u32>,
    spikes: Vec<SpikeDraws>,
    ticks: u32,
    age_frames: u32,
}

/// The draws of all `p.count` spikes of a burst seeded with `seed`.
pub open spec fn burst_spikes(p: SpikeBurstParams, seed: u32) -> Seq<SpikeDraws> {
    Seq::new(p.count as nat, |i: int| spike_draws_spec(p, seed, i))
}

impl SpikeBurst {
    /// The recipe.
    pub closed spec fn params_spec(&self) -> SpikeBurstParams {
        self.params
    }

    /// The seed the burst was made with.
    pub closed spec fn seed_spec(&self) -> u32 {
        self.seed@
    }

    /// The spikes' draws, in spike order.
    pub closed spec fn spikes_spec(&self) -> Seq<SpikeDraws> {
        self.spikes@
    }

    /// Ticks per frame.
    pub closed spec fn ticks_spec(&self) -> u32 {
        self.ticks
    }

    /// Ticks since the burst was made.
    pub closed spec fn age_spec(&self) -> u32 {
        self.age_frames
    }

    /// A burst of `params` seeded with `seed`, at age 0, counting `ticks`
    /// ticks a frame.
    pub fn new_in_ticks(params: SpikeBurstParams, seed: u32, ticks: u32) -> (b: SpikeBurst)
        requires
            ticks >= 1,
        ensures
            b.params_spec() == params,
            b.seed_spec() == seed,
            b.ticks_spec() == ticks,
            b.age_spec() == 0,
            b.spikes_spec() == burst_spikes(params, seed),
    {
        let spikes = spike_draws(&params, seed);
        assert(spikes@ =~= burst_spikes(params, seed));
        SpikeBurst { params, seed: Ghost(seed), spikes, ticks, age_frames: 0 }
    }

    /// A burst of `params` seeded with `seed`, at age 0, counting whole
    /// frames.
    pub fn new(params: SpikeBurstParams, seed: u32) -> (b: SpikeBurst)
        ensures
            b.params_spec() == params,
            b.seed_spec() == seed,
            b.ticks_spec() == 1,
            b.age_spec() == 0,
            b.spikes_spec() == burst_spikes(params, seed),
    {
        Self::new_in_ticks(params, seed, 1)
    }

    /// Ages the burst `frames` ticks; reports whether it is still alive.
    pub fn tick(&mut self, frames: u32) -> (alive: bool)
        requires
            old(self).age_spec() + frames <= u32::MAX,
        ensures
            final(self).params_spec() == old(self).params_spec(),
            final(self).seed_spec() == old(self).seed_spec(),
            final(self).spikes_spec() == old(self).spikes_spec(),
            final(self).ticks_spec() == old(self).ticks_spec(),
            final(self).age_spec() == old(self).age_spec() + frames,
            alive == (final(self).age_spec() < final(self).params_spec().duration_frames * final(self).ticks_spec()),
    {
        self.age_frames = self.age_frames + frames;
        alive_in_ticks(&self.params, self.age_frames, self.ticks)
    }

    /// Whether the burst is still within its life.
    pub fn alive(&self) -> (r: bool)
        ensures
            r == (self.age_spec() < self.params_spec().duration_frames * self.ticks_spec()),
    {
        alive_in_ticks(&self.params, self.age_frames, self.ticks)
    }

    /// Ticks since the burst was made.
    pub fn age_frames(&self) -> (r: u32)
        ensures
            r == self.age_spec(),
    {
        self.age_frames
    }

    /// The burst's alpha now, as a level of [`peak_level`], for a burst
    /// counting whole frames.
    pub fn current_alpha(&self) -> (r: u128)
        requires
            self.ticks_spec() == 1,
        ensures
            r == alpha_level_spec(self.params_spec(), self.age_spec() as int),
    {
        alpha_level(&self.params, self.age_frames)
    }

    /// The burst's alpha now, exactly, at its tick resolution.
    pub fn current_alpha_in_ticks(&self) -> (r: AlphaFraction)
        requires
            self.ticks_spec() >= 1,
        ensures
            r.rise == rise_ticks(self.params_spec(), self.age_spec() as int, self.ticks_spec() as int),
            r.rise_den == rise_den_ticks(self.params_spec(), self.ticks_spec() as int),
            r.fall == fall_ticks(self.params_spec(), self.age_spec() as int, self.ticks_spec() as int),
            r.fall_den == fall_den_ticks(self.params_spec(), self.ticks_spec() as int),
    {
        alpha_in_ticks(&self.params, self.age_frames, self.ticks)
    }

    /// Number of spikes.
    pub fn spike_count(&self) -> (r: usize)
        ensures
            r == self.spikes_spec().len(),
    {
        self.spikes.len()
    }

    /// Spike `i`'s draws.
    pub fn spike(&self, i: usize) -> (r: SpikeDraws)
        requires
            i < self.spikes_spec().len(),
        ensures
            r == self.spikes_spec()[i as int],
    {
        self.spikes[i]
    }
}

/// Playback is deterministic: two bursts made from the same recipe and seed
/// and aged alike hold the same spikes and show the same alpha — the seed
/// and the recipe fix everything drawn.
pub proof fn equal_recipes_give_equal_bursts(p: SpikeBurstParams, seed: u32, frames: u32, b1: SpikeBurst, b2: SpikeBurst)
    requires
        b1.params_spec() == p && b2.params_spec() == p,
        b1.spikes_spec() == burst_spikes(p, seed) && b2.spikes_spec() == burst_spikes(p, seed),
        b1.age_spec() == frames && b2.age_spec() == frames,
    ensures
        b1.spikes_spec() == b2.spikes_spec(),
        b1.spikes_spec().len() == p.count,
        alpha_level_spec(b1.params_spec(), b1.age_spec() as int) == alpha_level_spec(b2.params_spec(), b2.age_spec() as int),
{
}

/// A burst whose fade-out starts before its end is lit strictly inside
/// its life, dark at its start and from its end on, and never brighter
/// than its peak.
pub proof fn burst_lit_inside_its_life(p: SpikeBurstParams, f: int)
    requires
        params_wf(p),
        f >= 0,
    ensures
        0 <= alpha_level_spec(p, f) <= peak_level(p),
        alpha_level_spec(p, 0) == 0,
        f >= p.duration_frames ==> alpha_level_spec(p, f) == 0,
        0 < f < p.duration_frames ==> alpha_level_spec(p, f) > 0,
{
    let rd = rise_den(p);
    let fd = fall_den(p);
    let rise = if f < rd { f } else { rd };
    let span = fall_span(p);
    let left = 3 * (p.duration_frames - f);
    let fall = if 3 * f < p.fade_out_start_thirds { fd } else if left < 0 { 0 } else if left > span { span } else { left };
    assert(alpha_level_spec(p, f) == rise * fall);
    assert(rise * fall <= rd * fd) by (nonlinear_arith)
        requires
            0 <= rise <= rd,
            0 <= fall <= fd,
    ;
    assert(rise * fall >= 0) by (nonlinear_arith)
        requires
            0 <= rise,
            0 <= fall,
    ;
    if 0 < f < p.duration_frames {
        assert(rise * fall > 0) by (nonlinear_arith)
            requires
                rise > 0,
                fall > 0,
        ;
    }
    if f >= p.duration_frames {
        assert(rise * 0 == 0) by (nonlinear_arith);
    }
    assert(0 * fd == 0) by (nonlinear_arith);
}

} // verus!
