//! `EF_PRESSEDBODY` (413) / `EF_KICKEDBODY` (415) — `SetCharacterSquare`
//! vertical body deforms.
//!
//! * **Pressedbody** — the body is squashed flat toward the feet from frame 17;
//!   the effect lasts 50 frames and plays `takingoff.wav` at frame 5.
//! * **Kickedbody** — the body is punted up from frame 30; the effect lasts 54
//!   frames and plays `EF_hit2.wav` at 17 and `EF_hit4.wav` at 25.
//!
//! This module holds the frame bookkeeping: the durations, the sound cue
//! queue and the deform schedule. Time is counted in ticks, a caller-chosen
//! `1/ticks` of a 60 fps frame, so a fractional frame count (such as 17.5
//! frames, 35 half-frame ticks) gives the deform the client gives it; the
//! deform's quantities come back as fractions over `ticks`.
use vstd::prelude::*;
use crate::draw::EffectStatus;

verus! {

/// Native engine framerate.
pub const FPS: u32 = 60;

/// Which deform a [`SquareBodyClock`] runs.
#[derive(Clone, Copy, Debug, PartialEq, Eq, Structural)]
pub enum SquareKind {
    /// `BL_PRESSED`: squash toward the feet.
    Pressed,
    /// `BL_KICKED`: lift then settle.
    Kicked,
}

/// First active `stateCnt` of the deform.
pub open spec fn start_frame_spec(kind: SquareKind) -> int {
    match kind {
        SquareKind::Pressed => 17,
        SquareKind::Kicked => 30,
    }
}

/// Total length of the effect in frames.
pub open spec fn total_frames_spec(kind: SquareKind) -> int {
    match kind {
        SquareKind::Pressed => 50,
        SquareKind::Kicked => 54,
    }
}

/// Number of sound cues of a deform.
pub open spec fn cue_count_spec(kind: SquareKind) -> int {
    match kind {
        SquareKind::Pressed => 1,
        SquareKind::Kicked => 2,
    }
}

/// Frame of sound cue `i`.
pub open spec fn cue_frame_spec(kind: SquareKind, i: int) -> int {
    match kind {
        SquareKind::Pressed => 5,
        SquareKind::Kicked => if i == 0 { 17 } else { 25 },
    }
}

/// How many cues have fired once `process` ticks have elapsed, a frame
/// being `ticks` ticks.
pub open spec fn cues_due(kind: SquareKind, process: int, ticks: int) -> int {
    if process < cue_frame_spec(kind, 0) * ticks {
        0
    } else if cue_count_spec(kind) == 1 || process < cue_frame_spec(kind, 1) * ticks {
        1
    } else {
        2
    }
}

/// Frame of the `i`-th sound cue.
pub fn cue_frame(kind: SquareKind, i: usize) -> (r: u32)
    requires
        i < cue_count_spec(kind),
    ensures
        r == cue_frame_spec(kind, i as int),
{
    match kind {
        SquareKind::Pressed => 5,
        SquareKind::Kicked => if i == 0 { 17 } else { 25 },
    }
}

/// Number of sound cues of a deform.
pub fn cue_count(kind: SquareKind) -> (r: usize)
    ensures
        r == cue_count_spec(kind),
{
    match kind {
        SquareKind::Pressed => 1,
        SquareKind::Kicked => 2,
    }
}

/// Sound file of cue `i`.
pub open spec fn cue_path_spec(kind: SquareKind, i: int) -> &'static str {
    match kind {
        SquareKind::Pressed => "effect\\takingoff.wav",
        SquareKind::Kicked => if i == 0 { "effect\\EF_hit2.wav" } else { "effect\\EF_hit4.wav" },
    }
}

/// Sound file of the `i`-th cue.
pub fn cue_path(kind: SquareKind, i: usize) -> (r: &'static str)
    requires
        i < cue_count_spec(kind),
    ensures
        r == cue_path_spec(kind, i as int),
{
    match kind {
        SquareKind::Pressed => "effect\\takingoff.wav",
        SquareKind::Kicked => if i == 0 { "effect\\EF_hit2.wav" } else { "effect\\EF_hit4.wav" },
    }
}

/// Total length of the effect in frames.
pub fn total_frames(kind: SquareKind) -> (r: u32)
    ensures
        r == total_frames_spec(kind),
{
    match kind {
        SquareKind::Pressed => 50,
        SquareKind::Kicked => 54,
    }
}

/// First active frame of the deform.
pub fn start_frame(kind: SquareKind) -> (r: u32)
    ensures
        r == start_frame_spec(kind),
{
    match kind {
        SquareKind::Pressed => 17,
        SquareKind::Kicked => 30,
    }
}

/// Whole milliseconds in `frames` frames at 60 fps (truncated).
pub open spec fn frames_to_ms(frames: int) -> int {
    frames * 1000 / (FPS as int)
}

/// Pressedbody's wall-clock length: 50 frames at 60 fps, 833 ms.
pub fn pressed_total_duration_ms() -> (r: u32)
    ensures
        r == frames_to_ms(total_frames_spec(SquareKind::Pressed)),
        r == 833,
{
    total_frames(SquareKind::Pressed) * 1000 / FPS
}

/// Kickedbody's wall-clock length: 54 frames at 60 fps, 900 ms.
pub fn kicked_total_duration_ms() -> (r: u32)
    ensures
        r == frames_to_ms(total_frames_spec(SquareKind::Kicked)),
        r == 900,
{
    total_frames(SquareKind::Kicked) * 1000 / FPS
}

/// The tick at which the next cue fires: the first cue's while none has
/// fired, else the last one's.
fn cue_threshold(next: usize, first: u64, last: u64) -> (r: u64)
    ensures
        r == (if next == 0 { first } else { last }),
{
    if next == 0 { first } else { last }
}

/// Frame bookkeeping of one deform: elapsed time in ticks (a caller-chosen
/// fraction `1/ticks` of a 60 fps frame, so that fractional frame counts
/// are kept exactly), the next sound cue, and the most recently fired cue
/// that nobody has taken yet.
pub struct SquareBodyClock {
    kind: SquareKind,
    ticks: u32,
    process: u64,
    next_sfx: usize,
    pending_sfx: Option<usize>,
}

impl SquareBodyClock {
    /// Which deform this clock runs.
    pub closed spec fn kind(&self) -> SquareKind {
        self.kind
    }

    /// Ticks per frame.
    pub closed spec fn ticks(&self) -> u32 {
        self.ticks
    }

    /// Ticks elapsed at the last update.
    pub closed spec fn process(&self) -> u64 {
        self.process
    }

    /// Number of cues already fired.
    pub closed spec fn fired(&self) -> int {
        self.next_sfx as int
    }

    /// Index of the fired cue waiting to be taken, if any.
    pub closed spec fn pending(&self) -> Option<usize> {
        self.pending_sfx
    }

    /// Cue bookkeeping stays within the deform's cue list, and a frame is
    /// at least one tick.
    pub closed spec fn wf(&self) -> bool {
        &&& self.ticks >= 1
        &&& self.next_sfx <= cue_count_spec(self.kind)
        &&& self.pending_sfx matches Some(i) ==> i < self.next_sfx
    }

    /// A clock for `kind` at time 0, counting `ticks` ticks per frame.
    pub fn new_in_ticks(kind: SquareKind, ticks: u32) -> (c: SquareBodyClock)
        requires
            ticks >= 1,
        ensures
            c.wf(),
            c.kind() == kind,
            c.ticks() == ticks,
            c.process() == 0,
            c.fired() == 0,
            c.pending() is None,
    {
        SquareBodyClock { kind, ticks, process: 0, next_sfx: 0, pending_sfx: None }
    }

    /// A Pressedbody clock at frame 0, counting whole frames.
    pub fn pressed() -> (c: SquareBodyClock)
        ensures
            c.wf(),
            c.kind() == SquareKind::Pressed,
            c.ticks() == 1,
            c.process() == 0,
            c.fired() == 0,
            c.pending() is None,
    {
        Self::new_in_ticks(SquareKind::Pressed, 1)
    }

    /// A Kickedbody clock at frame 0, counting whole frames.
    pub fn kicked() -> (c: SquareBodyClock)
        ensures
            c.wf(),
            c.kind() == SquareKind::Kicked,
            c.ticks() == 1,
            c.process() == 0,
            c.fired() == 0,
            c.pending() is None,
    {
        Self::new_in_ticks(SquareKind::Kicked, 1)
    }

    /// Records that `process` ticks have elapsed: fires, in order, every
    /// cue whose frame has been reached (the latest one becomes the pending
    /// request), and reports `Dead` once the deform's length is reached.
    pub fn update(&mut self, process: u64) -> (status: EffectStatus)
        requires
            old(self).wf(),
        ensures
            final(self).wf(),
            final(self).kind() == old(self).kind(),
            final(self).ticks() == old(self).ticks(),
            final(self).process() == process,
            final(self).fired() == (if cues_due(old(self).kind(), process as int, old(self).ticks() as int)
                > old(self).fired() {
                cues_due(old(self).kind(), process as int, old(self).ticks() as int)
            } else {
                old(self).fired()
            }),
            final(self).pending() == (if final(self).fired() > old(self).fired() {
                Some((final(self).fired() - 1) as usize)
            } else {
                old(self).pending()
            }),
            status == (if process >= total_frames_spec(old(self).kind()) * old(self).ticks() {
                EffectStatus::Dead
            } else {
                EffectStatus::Running
            }),
    {
        self.process = process;
        let count = cue_count(self.kind);
        let t = self.ticks as u64;
        let c0 = cue_frame(self.kind, 0) as u64;
        let cl = cue_frame(self.kind, count - 1) as u64;
        let end = total_frames(self.kind) as u64;
        proof {
            assert(c0 <= 25 && cl <= 25 && end <= 54);
            assert(c0 * t <= 25 * 0xffff_ffffu64 && cl * t <= 25 * 0xffff_ffffu64 && end * t <= 54 * 0xffff_ffffu64)
                by (nonlinear_arith)
                requires c0 <= 25, cl <= 25, end <= 54, t <= 0xffff_ffff;
            assert(c0 * t <= cl * t) by (nonlinear_arith) requires c0 <= cl;
        }
        let first = c0 * t;
        let last = cl * t;
        let ghost kind = self.kind;
        let ghost fired0 = self.next_sfx;
        let ghost pending0 = self.pending_sfx;
        while self.next_sfx < count && process >= cue_threshold(self.next_sfx, first, last)
            invariant
                self.kind == kind,
                self.process == process,
                self.ticks >= 1,
                t == self.ticks,
                count == cue_count_spec(kind),
                first == cue_frame_spec(kind, 0) * t,
                last == cue_frame_spec(kind, count - 1) * t,
                first <= last,
                fired0 <= self.next_sfx <= count,
                self.next_sfx > fired0 ==> self.next_sfx <= cues_due(kind, process as int, t as int),
                self.pending_sfx == (if self.next_sfx > fired0 {
                    Some((self.next_sfx - 1) as usize)
                } else {
                    pending0
                }),
                pending0 matches Some(i) ==> i < fired0,
            decreases count - self.next_sfx,
        {
            self.pending_sfx = Some(self.next_sfx);
            self.next_sfx = self.next_sfx + 1;
        }
        if process >= end * t {
            EffectStatus::Dead
        } else {
            EffectStatus::Running
        }
    }

    /// Hands out the pending sound cue (at most once).
    pub fn take_sfx_request(&mut self) -> (r: Option<&'static str>)
        requires
            old(self).wf(),
        ensures
            final(self).wf(),
            final(self).kind() == old(self).kind(),
            final(self).process() == old(self).process(),
            final(self).fired() == old(self).fired(),
            final(self).pending() is None,
            r == (match old(self).pending() {
                Some(i) => Some(cue_path_spec(old(self).kind(), i as int)),
                None => None,
            }),
    {
        match self.pending_sfx.take() {
            Some(i) => Some(cue_path(self.kind, i)),
            None => None,
        }
    }

    /// The pending cue's index without taking it.
    pub fn pending_cue(&self) -> (r: Option<usize>)
        ensures
            r == self.pending(),
    {
        self.pending_sfx
    }
}

/// How a Kickedbody is lifted, each quantity in `1/den` units:
/// `0.3 · sin(angle)` of its lift height while rising, `0.3` at the top,
/// then `tenths / 10` while settling.
#[derive(Clone, Copy, Debug, PartialEq, Eq, Structural)]
pub enum BodyLift {
    /// No lift.
    Grounded,
    /// Rising: `0.3 · sin(angle_deg / den °)` of the lift height.
    Rising { angle_deg: u64 },
    /// Settling (or held at the top): `tenths / (10 · den)` of the lift height.
    Tenths { tenths: u64 },
}

/// The deform applied to the body at one instant; `den` is the clock's
/// ticks per frame, and every quantity is in `1/den` of its unit.
#[derive(Clone, Copy, Debug, PartialEq, Eq, Structural)]
pub struct BodyDeform {
    /// Denominator of the quantities below.
    pub den: u64,
    /// Vertical size of the body, `1/den` percent (`100·den` is unsquashed).
    pub squeeze_pct: u64,
    /// Vertical lift.
    pub lift: BodyLift,
}

/// The deform `process` ticks in, at `ticks` ticks a frame, `t` being the
/// time since the deform started: none before it or after its window.
/// Pressedbody eases from 100% to 40% over its first three frames
/// (`100 − 20·t`), holds 40% to frame 33 of the deform, and never lifts.
/// Kickedbody never squeezes; it rises `0.3·sin(5t°)` through frame 18,
/// holds `0.3` to frame 20, and settles `(23 − t)/10` to frame 23.
pub open spec fn body_deform_spec(kind: SquareKind, process: int, ticks: int) -> Option<BodyDeform> {
    let t = process - start_frame_spec(kind) * ticks;
    let d = ticks as u64;
    if t < 0 {
        None
    } else {
        match kind {
            SquareKind::Pressed => if t <= 3 * ticks {
                Some(BodyDeform { den: d, squeeze_pct: (100 * ticks - 20 * t) as u64, lift: BodyLift::Grounded })
            } else if t <= 33 * ticks {
                Some(BodyDeform { den: d, squeeze_pct: (40 * ticks) as u64, lift: BodyLift::Grounded })
            } else {
                None
            },
            SquareKind::Kicked => if t <= 18 * ticks {
                Some(BodyDeform { den: d, squeeze_pct: (100 * ticks) as u64, lift: BodyLift::Rising { angle_deg: (5 * t) as u64 } })
            } else if t <= 20 * ticks {
                Some(BodyDeform { den: d, squeeze_pct: (100 * ticks) as u64, lift: BodyLift::Tenths { tenths: (3 * ticks) as u64 } })
            } else if t <= 23 * ticks {
                Some(BodyDeform { den: d, squeeze_pct: (100 * ticks) as u64, lift: BodyLift::Tenths { tenths: (23 * ticks - t) as u64 } })
            } else {
                None
            },
        }
    }
}

impl SquareBodyClock {
    /// The deform at the time of the last update.
    pub fn body_vertical(&self) -> (r: Option<BodyDeform>)
        requires
            self.wf(),
        ensures
            r == body_deform_spec(self.kind(), self.process() as int, self.ticks() as int),
    {
        let tk = self.ticks as u64;
        let start = start_frame(self.kind) as u64 * tk;
        if self.process < start {
            return None;
        }
        let t = self.process - start;
        match self.kind {
            SquareKind::Pressed => if t <= 3 * tk {
                Some(BodyDeform { den: tk, squeeze_pct: 100 * tk - 20 * t, lift: BodyLift::Grounded })
            } else if t <= 33 * tk {
                Some(BodyDeform { den: tk, squeeze_pct: 40 * tk, lift: BodyLift::Grounded })
            } else {
                None
            },
            SquareKind::Kicked => if t <= 18 * tk {
                Some(BodyDeform { den: tk, squeeze_pct: 100 * tk, lift: BodyLift::Rising { angle_deg: 5 * t } })
            } else if t <= 20 * tk {
                Some(BodyDeform { den: tk, squeeze_pct: 100 * tk, lift: BodyLift::Tenths { tenths: 3 * tk } })
            } else if t <= 23 * tk {
                Some(BodyDeform { den: tk, squeeze_pct: 100 * tk, lift: BodyLift::Tenths { tenths: 23 * tk - t } })
            } else {
                None
            },
        }
    }
}

/// Pressedbody squashes only, never below 40%, from frame 17 through frame
/// 50; Kickedbody lifts only, from frame 30 through frame 53, its rise
/// angle never past 90° — at any tick resolution.
pub proof fn deform_windows(process: int, ticks: int)
    requires
        process >= 0,
        ticks >= 1,
        ticks <= u32::MAX,
        process <= u64::MAX,
    ensures
        (body_deform_spec(SquareKind::Pressed, process, ticks) is Some) <==> 17 * ticks <= process <= 50 * ticks,
        body_deform_spec(SquareKind::Pressed, process, ticks) matches Some(d)
            ==> d.den == ticks && 40 * ticks <= d.squeeze_pct <= 100 * ticks && d.lift == BodyLift::Grounded,
        (body_deform_spec(SquareKind::Kicked, process, ticks) is Some) <==> 30 * ticks <= process <= 53 * ticks,
        body_deform_spec(SquareKind::Kicked, process, ticks) matches Some(d) ==> d.den == ticks && d.squeeze_pct == 100 * ticks
            && (d.lift matches BodyLift::Rising { angle_deg } ==> angle_deg <= 90 * ticks)
            && (d.lift matches BodyLift::Tenths { tenths } ==> tenths <= 3 * ticks),
{
}

} // verus!
