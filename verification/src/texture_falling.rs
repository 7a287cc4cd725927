//! `EF_TEXTURE_FALLING` — a sword billboard dropped from above onto the
//! target, leaving a short fading trail.
//!
//! The lead starts 12 units above the anchor and falls 0.31 per frame for 32
//! frames. Its alpha climbs to 200 of 255 over the first 10 frames, holds
//! while it falls, then drops 5 per frame. Every update records the lead's
//! position at the front of a four-entry history; the four stamps are drawn
//! at those positions, each dimmer than the lead by 0, 100, 125 and 150 of
//! 255. The effect ends once the fade has run out.
//!
//! Positions here are heights above the anchor in hundredths of a world unit
//! (negative is up), alphas on the 0..255 scale; the camera-facing quads are
//! the renderer's. Time is counted in ticks, a caller-chosen `1/ticks` of a
//! frame, so fractional frame counts are kept exactly (heights then in
//! `1/(100·ticks)`, alphas in `1/(fade_in_frames·ticks)`); whole frames are
//! the case of one tick a frame.
use vstd::prelude::*;
use crate::draw::EffectStatus;

verus! {

/// Stamps in the trail: the lead and three ghosts.
pub const TRAIL_LEN: usize = 4;
/// How much dimmer each stamp is than the lead, 0..255 scale.
pub const TRAIL_ALPHA_DROP: [u32; 4] = [0, 100, 125, 150];

/// One falling texture.
#[derive(Clone, Copy, Debug)]
pub struct Params {
    /// The texture.
    pub texture: &'static str,
    /// Start height above the anchor, hundredths of a world unit.
    pub start_height: u32,
    /// Fall per frame, hundredths of a world unit.
    pub fall_speed: u32,
    /// Frames the lead falls.
    pub fall_frames: u32,
    /// Quad size, world units.
    pub size: u32,
    /// Constant roll, whole degrees.
    pub rotation_deg: u32,
    /// Tint, 8-bit RGB.
    pub color: [u8; 3],
    /// Peak alpha, 0..255 scale.
    pub peak_alpha: u32,
    /// Frames of the fade-in.
    pub fade_in_frames: u32,
    /// Alpha lost per frame once the fall is over, 0..255 scale.
    pub fade_out_rate: u32,
}

/// The sword drop.
#[allow(non_snake_case)]
pub fn TEXTURE_FALLING() -> (p: Params)
    ensures
        p.texture == "sword.bmp",
        p.start_height == 1200 && p.fall_speed == 31 && p.fall_frames == 32,
        p.size == 6 && p.rotation_deg == 45 && p.color == [255u8, 255, 255],
        p.peak_alpha == 200 && p.fade_in_frames == 10 && p.fade_out_rate == 5,
{
    Params {
        texture: "sword.bmp",
        start_height: 1200,
        fall_speed: 31,
        fall_frames: 32,
        size: 6,
        rotation_deg: 45,
        color: [255, 255, 255],
        peak_alpha: 200,
        fade_in_frames: 10,
        fade_out_rate: 5,
    }
}

/// Every texture the effect draws with.
pub const TEXTURES: [&'static str; 1] = ["sword.bmp"];

/// The parameters keep the arithmetic small: every field within `u16`
/// range, a fade-in and a fade-out.
pub open spec fn params_wf(p: Params) -> bool {
    &&& p.start_height <= 0xffff && p.fall_speed <= 0xffff && p.fall_frames <= 0xffff
    &&& p.peak_alpha <= 255 && 0 < p.fade_in_frames <= 0xffff && 0 < p.fade_out_rate <= 255
}

/// Largest tick resolution a drop accepts.
pub const MAX_TICKS_PER_FRAME: u32 = 0xffff;

/// Height of the lead above the anchor `n` ticks in at `t` ticks a frame,
/// in `1/(100·t)` (negative is up): it falls for `fall_frames` frames and
/// then rests.
pub open spec fn lead_y_ticks_spec(p: Params, n: int, t: int) -> int {
    let m = if n < p.fall_frames * t { n } else { p.fall_frames * t };
    p.fall_speed * m - p.start_height * t
}

/// Height of the lead above the anchor on frame `n`, hundredths (negative
/// is up).
pub open spec fn lead_y_spec(p: Params, n: int) -> int {
    lead_y_ticks_spec(p, n, 1)
}

/// The lead's alpha `n` ticks in at `t` ticks a frame, 0..255 scale, in
/// units of `1/(fade_in_frames·t)`.
pub open spec fn lead_alpha_ticks_spec(p: Params, n: int, t: int) -> int {
    if n < p.fade_in_frames * t {
        p.peak_alpha * n
    } else if n <= p.fall_frames * t {
        p.peak_alpha * p.fade_in_frames * t
    } else {
        let a = p.peak_alpha * t - (n - p.fall_frames * t) * p.fade_out_rate;
        if a > 0 { a * p.fade_in_frames } else { 0 }
    }
}

/// The lead's alpha on frame `n`, 0..255 scale, in units of
/// `1/fade_in_frames`.
pub open spec fn lead_alpha_spec(p: Params, n: int) -> int {
    lead_alpha_ticks_spec(p, n, 1)
}

/// The effect has ended `n` ticks in at `t` ticks a frame:
/// `n ≥ (fall_frames + peak / rate)·t`.
pub open spec fn ended_ticks(p: Params, n: int, t: int) -> bool {
    n * p.fade_out_rate >= (p.fall_frames * p.fade_out_rate + p.peak_alpha) * t
}

/// The effect has ended on frame `n`: `n ≥ fall_frames + peak / rate`.
pub open spec fn ended(p: Params, n: int) -> bool {
    ended_ticks(p, n, 1)
}

/// Height of the lead `n` ticks in at `ticks` ticks a frame.
pub fn lead_y_in_ticks(p: &Params, n: u32, ticks: u32) -> (r: i64)
    requires
        params_wf(*p),
        1 <= ticks <= MAX_TICKS_PER_FRAME,
    ensures
        r == lead_y_ticks_spec(*p, n as int, ticks as int),
{
    let t = ticks as u64;
    proof {
        assert(p.fall_frames * t <= 0xffff * 0xffffu64 && p.start_height * t <= 0xffff * 0xffffu64) by (nonlinear_arith)
            requires
                p.fall_frames <= 0xffff,
                p.start_height <= 0xffff,
                t <= 0xffff,
        ;
    }
    let ft = p.fall_frames as u64 * t;
    let m: u64 = if (n as u64) < ft { n as u64 } else { ft };
    proof {
        assert(p.fall_speed * m <= 0xffff * (0xffff * 0xffffu64)) by (nonlinear_arith)
            requires
                p.fall_speed <= 0xffff,
                m <= 0xffff * 0xffffu64,
        ;
    }
    (p.fall_speed as u64 * m) as i64 - (p.start_height as u64 * t) as i64
}

/// Height of the lead on frame `n`.
pub fn lead_y(p: &Params, n: u32) -> (r: i64)
    requires
        params_wf(*p),
    ensures
        r == lead_y_spec(*p, n as int),
{
    lead_y_in_ticks(p, n, 1)
}

/// The lead's alpha `n` ticks in at `ticks` ticks a frame, in units of
/// `1/(fade_in_frames·ticks)` of the 0..255 scale.
pub fn lead_alpha_in_ticks(p: &Params, n: u32, ticks: u32) -> (r: u64)
    requires
        params_wf(*p),
        1 <= ticks <= MAX_TICKS_PER_FRAME,
    ensures
        r == lead_alpha_ticks_spec(*p, n as int, ticks as int),
        r <= p.peak_alpha * p.fade_in_frames * ticks,
{
    let t = ticks as u64;
    let pk = p.peak_alpha as u64;
    let fi = p.fade_in_frames as u64;
    proof {
        assert(fi * t <= 0xffff * 0xffffu64 && p.fall_frames * t <= 0xffff * 0xffffu64) by (nonlinear_arith)
            requires
                fi <= 0xffff,
                p.fall_frames <= 0xffff,
                t <= 0xffff,
        ;
        assert(pk * fi * t <= 255 * (0xffff * 0xffffu64)) by (nonlinear_arith)
            requires
                pk <= 255,
                fi * t <= 0xffff * 0xffffu64,
        ;
        assert(pk * fi <= 255 * 0xffffu64 && pk * t <= 255 * 0xffffu64) by (nonlinear_arith)
            requires
                pk <= 255,
                fi <= 0xffff,
                t <= 0xffff,
        ;
    }
    let nn = n as u64;
    if nn < fi * t {
        proof {
            assert(pk * nn <= pk * fi * t) by (nonlinear_arith)
                requires
                    nn < fi * t,
            ;
        }
        pk * nn
    } else if nn <= p.fall_frames as u64 * t {
        pk * fi * t
    } else {
        let since = nn - p.fall_frames as u64 * t;
        proof {
            assert(since * p.fade_out_rate <= 0xffff_ffff * 255) by (nonlinear_arith)
                requires
                    since <= 0xffff_ffff,
                    p.fade_out_rate <= 255,
            ;
        }
        let drop: u64 = since * p.fade_out_rate as u64;
        if drop < pk * t {
            proof {
                assert((pk * t - drop) * fi <= pk * fi * t) by (nonlinear_arith)
                    requires
                        drop >= 0,
                        pk * t >= drop,
                ;
            }
            (pk * t - drop) * fi
        } else {
            0
        }
    }
}

/// The lead's alpha on frame `n`, in units of `1/fade_in_frames` of the
/// 0..255 scale.
pub fn lead_alpha(p: &Params, n: u32) -> (r: u64)
    requires
        params_wf(*p),
    ensures
        r == lead_alpha_spec(*p, n as int),
{
    lead_alpha_in_ticks(p, n, 1)
}

/// How much dimmer stamp `i` is than the lead: 0, 100, 125, 150.
pub open spec fn trail_drop_spec(i: int) -> int {
    if i == 0 { 0 } else if i == 1 { 100 } else if i == 2 { 125 } else { 150 }
}

/// How much dimmer stamp `i` is than the lead, 0..255 scale.
pub fn trail_drop(i: usize) -> (r: u32)
    requires
        i < TRAIL_LEN,
    ensures
        r == trail_drop_spec(i as int),
        r == TRAIL_ALPHA_DROP[i as int],
{
    if i == 0 { 0 } else if i == 1 { 100 } else if i == 2 { 125 } else { 150 }
}

/// Alpha of stamp `i` when the lead's alpha is `lead` (in units of
/// `1/(fade_in_frames·t)`): the lead less the stamp's drop, floored at 0.
pub open spec fn stamp_alpha_spec(p: Params, lead: int, i: int, t: int) -> int {
    let a = lead - trail_drop_spec(i) * p.fade_in_frames * t;
    if a > 0 { a } else { 0 }
}

/// The falling lead and its position history.
pub struct FallingTrailClock {
    params: Params,
    ticks: u32,
    frame: u32,
    history: Vec<i64>,
}

impl FallingTrailClock {
    /// The parameters.
    pub closed spec fn params_spec(&self) -> Params {
        self.params
    }

    /// Ticks per frame.
    pub closed spec fn ticks_spec(&self) -> u32 {
        self.ticks
    }

    /// Ticks elapsed.
    pub closed spec fn frame_spec(&self) -> u32 {
        self.frame
    }

    /// Recorded lead heights, newest first, in `1/(100·ticks)`.
    pub closed spec fn history_spec(&self) -> Seq<i64> {
        self.history@
    }

    /// The history holds at most four heights, and a frame is 1 to 65,535
    /// ticks.
    pub closed spec fn wf(&self) -> bool {
        &&& params_wf(self.params)
        &&& self.history@.len() <= TRAIL_LEN
        &&& 1 <= self.ticks <= MAX_TICKS_PER_FRAME
    }

    /// A drop of `params` on frame 0, with nothing recorded yet, counting
    /// `ticks` ticks a frame.
    pub fn new_in_ticks(params: Params, ticks: u32) -> (c: FallingTrailClock)
        requires
            params_wf(params),
            1 <= ticks <= MAX_TICKS_PER_FRAME,
        ensures
            c.wf(),
            c.params_spec() == params,
            c.ticks_spec() == ticks,
            c.frame_spec() == 0,
            c.history_spec().len() == 0,
    {
        FallingTrailClock { params, ticks, frame: 0, history: Vec::new() }
    }

    /// A drop of `params` on frame 0, with nothing recorded yet, counting
    /// whole frames.
    pub fn new(params: Params) -> (c: FallingTrailClock)
        requires
            params_wf(params),
        ensures
            c.wf(),
            c.params_spec() == params,
            c.ticks_spec() == 1,
            c.frame_spec() == 0,
            c.history_spec().len() == 0,
    {
        Self::new_in_ticks(params, 1)
    }

    /// Advances by `ticks` ticks and records the lead's new height at the
    /// front of the history, keeping the newest four. Reports `Dead` once the
    /// fade has run out.
    pub fn advance(&mut self, ticks: u32) -> (status: EffectStatus)
        requires
            old(self).wf(),
            old(self).frame_spec() + ticks <= u32::MAX,
        ensures
            final(self).wf(),
            final(self).params_spec() == old(self).params_spec(),
            final(self).ticks_spec() == old(self).ticks_spec(),
            final(self).frame_spec() == old(self).frame_spec() + ticks,
            ({
                let h = seq![lead_y_ticks_spec(old(self).params_spec(), final(self).frame_spec() as int,
                    old(self).ticks_spec() as int) as i64] + old(self).history_spec();
                final(self).history_spec() == (if h.len() > TRAIL_LEN { h.take(TRAIL_LEN as int) } else { h })
            }),
            status == (if ended_ticks(old(self).params_spec(), final(self).frame_spec() as int, old(self).ticks_spec() as int) {
                EffectStatus::Dead
            } else {
                EffectStatus::Running
            }),
    {
        self.frame = self.frame + ticks;
        let y = lead_y_in_ticks(&self.params, self.frame, self.ticks);
        let ghost h = seq![y] + self.history@;
        self.history.insert(0, y);
        assert(self.history@ =~= h);
        if self.history.len() > TRAIL_LEN {
            self.history.truncate(TRAIL_LEN);
            assert(self.history@ =~= h.take(TRAIL_LEN as int));
        }
        let p = self.params;
        let t = self.ticks as u64;
        proof {
            assert(self.frame * p.fade_out_rate <= 0xffff_ffff * 255) by (nonlinear_arith)
                requires
                    self.frame <= 0xffff_ffff,
                    p.fade_out_rate <= 255,
            ;
            assert(p.fall_frames * p.fade_out_rate <= 0xffff * 255) by (nonlinear_arith)
                requires
                    p.fall_frames <= 0xffff,
                    p.fade_out_rate <= 255,
            ;
            assert((p.fall_frames * p.fade_out_rate + p.peak_alpha) * t <= (0xffff * 255 + 255) * 0xffffu64) by (nonlinear_arith)
                requires
                    p.fall_frames * p.fade_out_rate <= 0xffff * 255,
                    p.peak_alpha <= 255,
                    t <= 0xffff,
            ;
        }
        if self.frame as u64 * p.fade_out_rate as u64 >= (p.fall_frames as u64 * p.fade_out_rate as u64 + p.peak_alpha as u64) * t {
            EffectStatus::Dead
        } else {
            EffectStatus::Running
        }
    }

    /// Alphas of the stamps drawn now, newest first, in units of
    /// `1/(fade_in_frames·ticks)` of the 0..255 scale; a stamp with no alpha
    /// is skipped.
    pub fn stamp_alphas(&self) -> (v: Vec<u64>)
        requires
            self.wf(),
        ensures
            v@.len() <= self.history_spec().len(),
            forall|i: int| 0 <= i < v@.len() ==> #[trigger] v@[i] > 0,
            v@ == stamps_spec(self.params_spec(),
                lead_alpha_ticks_spec(self.params_spec(), self.frame_spec() as int, self.ticks_spec() as int),
                self.ticks_spec() as int, self.history_spec().len() as int),
    {
        let lead = lead_alpha_in_ticks(&self.params, self.frame, self.ticks);
        let t = self.ticks as u64;
        let mut v: Vec<u64> = Vec::new();
        let mut i: usize = 0;
        while i < self.history.len()
            invariant
                self.wf(),
                t == self.ticks,
                lead == lead_alpha_ticks_spec(self.params, self.frame as int, self.ticks as int),
                i <= self.history@.len(),
                v@ == stamps_spec(self.params, lead as int, t as int, i as int),
                v@.len() <= i,
                forall|k: int| 0 <= k < v@.len() ==> #[trigger] v@[k] > 0,
            decreases self.history@.len() - i,
        {
            let d = trail_drop(i) as u64;
            proof {
                assert(d * self.params.fade_in_frames <= 150 * 0xffffu64) by (nonlinear_arith)
                    requires
                        d <= 150,
                        self.params.fade_in_frames <= 0xffff,
                ;
                assert(d * self.params.fade_in_frames * t <= 150 * 0xffff * 0xffffu64) by (nonlinear_arith)
                    requires
                        d <= 150,
                        self.params.fade_in_frames <= 0xffff,
                        t <= 0xffff,
                ;
            }
            let drop: u64 = d * self.params.fade_in_frames as u64 * t;
            if lead > drop {
                v.push(lead - drop);
            }
            i = i + 1;
        }
        v
    }
}

/// Alphas of the first `n` stamps that are drawn, newest first, at `t`
/// ticks a frame.
pub open spec fn stamps_spec(p: Params, lead: int, t: int, n: int) -> Seq<u64>
    decreases n,
{
    if n <= 0 {
        Seq::empty()
    } else {
        let prev = stamps_spec(p, lead, t, n - 1);
        let a = stamp_alpha_spec(p, lead, n - 1, t);
        if a > 0 { prev.push(a as u64) } else { prev }
    }
}

/// Milliseconds the drop lasts: the fall plus the fade, rounded down.
pub fn total_duration_ms(p: &Params) -> (r: u64)
    requires
        params_wf(*p),
    ensures
        r == (p.fall_frames * p.fade_out_rate + p.peak_alpha) * 1000 / (60 * p.fade_out_rate as int),
{
    proof {
        assert(p.fall_frames * p.fade_out_rate <= 0xffff * 255) by (nonlinear_arith)
            requires
                p.fall_frames <= 0xffff,
                p.fade_out_rate <= 255,
        ;
    }
    (p.fall_frames as u64 * p.fade_out_rate as u64 + p.peak_alpha as u64) * 1000 / (60 * p.fade_out_rate as u64)
}

/// Counting time in ticks changes nothing but the unit: `n` whole frames,
/// counted as `n·t` ticks at `t` ticks a frame, put the lead `t` times as
/// far (in `1/(100·t)`) as the whole-frame height and give it `t` times the
/// whole-frame alpha level; and the lead keeps falling, by `fall_speed` a
/// tick, through all of its `fall_frames` frames, then rests.
pub proof fn ticks_scale_the_whole_frame_drop(p: Params, n: int, t: int, a: int, b: int)
    requires
        n >= 0,
        t >= 1,
        0 <= a < b,
    ensures
        lead_y_ticks_spec(p, n * t, t) == t * lead_y_spec(p, n),
        lead_alpha_ticks_spec(p, n * t, t) == t * lead_alpha_spec(p, n),
        ended_ticks(p, n * t, t) == ended(p, n),
        b <= p.fall_frames * t ==> lead_y_ticks_spec(p, b, t) - lead_y_ticks_spec(p, a, t) == p.fall_speed * (b - a),
        a >= p.fall_frames * t ==> lead_y_ticks_spec(p, b, t) == lead_y_ticks_spec(p, a, t),
{
    let f = p.fall_frames as int;
    let fi = p.fade_in_frames as int;
    let pk = p.peak_alpha as int;
    let r = p.fade_out_rate as int;
    assert(n < f <==> n * t < f * t) by (nonlinear_arith)
        requires
            t >= 1,
    ;
    assert(n < fi <==> n * t < fi * t) by (nonlinear_arith)
        requires
            t >= 1,
    ;
    assert(n <= f <==> n * t <= f * t) by (nonlinear_arith)
        requires
            t >= 1,
    ;
    let m = if n < f { n } else { f };
    assert(p.fall_speed * (m * t) - p.start_height * t == t * (p.fall_speed * m - p.start_height)) by (nonlinear_arith);
    assert(f * t == f * t);
    assert(pk * (n * t) == t * (pk * n)) by (nonlinear_arith);
    assert(pk * fi * t == t * (pk * fi)) by (nonlinear_arith);
    let x = pk - (n - f) * r;
    assert(pk * t - (n * t - f * t) * r == t * x) by (nonlinear_arith)
        requires
            x == pk - (n - f) * r,
    ;
    assert(t * x > 0 <==> x > 0) by (nonlinear_arith)
        requires
            t >= 1,
    ;
    assert(t * x * fi == t * (x * fi)) by (nonlinear_arith);
    assert(n * t * r >= (f * r + pk) * t <==> n * r >= f * r + pk) by (nonlinear_arith)
        requires
            t >= 1,
    ;
    assert(p.fall_speed * b - p.fall_speed * a == p.fall_speed * (b - a)) by (nonlinear_arith);
}

/// The drop only descends toward the anchor, the lead never outshines its
/// peak, and, when it has finished fading in before it lands, the lead is
/// dark once the drop has ended.
pub proof fn drop_falls_and_fades(p: Params, a: int, b: int)
    requires
        params_wf(p),
        p.fade_in_frames <= p.fall_frames,
        0 <= a <= b,
    ensures
        lead_y_spec(p, a) <= lead_y_spec(p, b) <= p.fall_speed * p.fall_frames - p.start_height,
        0 <= lead_alpha_spec(p, b) <= p.peak_alpha * p.fade_in_frames,
        ended(p, b) ==> lead_alpha_spec(p, b) == 0,
{
    let ma = if a < p.fall_frames { a } else { p.fall_frames as int };
    let mb = if b < p.fall_frames { b } else { p.fall_frames as int };
    assert(p.fall_speed * ma <= p.fall_speed * mb) by (nonlinear_arith)
        requires
            ma <= mb,
    ;
    assert(p.fall_speed * mb <= p.fall_speed * p.fall_frames) by (nonlinear_arith)
        requires
            mb <= p.fall_frames,
    ;
    if b < p.fade_in_frames {
        assert(p.peak_alpha * b <= p.peak_alpha * p.fade_in_frames) by (nonlinear_arith)
            requires
                b < p.fade_in_frames,
        ;
    } else if b > p.fall_frames {
        let x = p.peak_alpha - (b - p.fall_frames) * p.fade_out_rate;
        if x > 0 {
            assert(x * p.fade_in_frames <= p.peak_alpha * p.fade_in_frames) by (nonlinear_arith)
                requires
                    x <= p.peak_alpha,
            ;
        }
        if ended(p, b) {
            assert(x <= 0) by (nonlinear_arith)
                requires
                    x == p.peak_alpha - (b - p.fall_frames) * p.fade_out_rate,
                    b * p.fade_out_rate >= p.fall_frames * p.fade_out_rate + p.peak_alpha,
            ;
        }
    }
    if ended(p, b) {
        if b <= p.fall_frames {
            if p.peak_alpha > 0 {
                assert(b * p.fade_out_rate <= p.fall_frames * p.fade_out_rate) by (nonlinear_arith)
                    requires
                        b <= p.fall_frames,
                        p.fade_out_rate > 0,
                ;
                assert(false);
            } else {
                assert(p.peak_alpha * b == 0 && p.peak_alpha * p.fade_in_frames == 0) by (nonlinear_arith)
                    requires
                        p.peak_alpha == 0,
                ;
                assert(lead_alpha_spec(p, b) == 0);
            }
        } else {
            assert(lead_alpha_spec(p, b) == 0);
        }
    }
}

} // verus!
