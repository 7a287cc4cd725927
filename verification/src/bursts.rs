//! Periodic bursts with a fixed lifetime, the pattern several parents share:
//! a burst fires on frames `first, first + period, …` up to `last`, and each
//! one stays alive while fewer than `life` frames have passed since it fired.
//!
//! The parents keep no list of bursts: given the frame through which bursts
//! have fired and the current frame, the live ones are exactly the burst
//! frames in a window, so they are computed rather than stored and pruned.
use vstd::prelude::*;
use vstd::arithmetic::div_mod::{lemma_fundamental_div_mod, lemma_div_pos_is_pos};

verus! {

/// `f` is a burst frame of the train `first, first + period, …, ≤ last`.
pub open spec fn is_burst_frame(first: int, period: int, last: int, f: int) -> bool {
    first <= f <= last && (f - first) % period == 0
}

/// The burst fired on frame `f` is alive at frame `now`: it is a burst frame,
/// it has fired (`f <= fired`), and fewer than `life` frames have passed.
pub open spec fn burst_live(first: int, period: int, last: int, life: int, fired: int, now: int, f: int) -> bool {
    is_burst_frame(first, period, last, f) && f <= fired && now - f < life
}

/// Oldest burst frame that can still be alive at `now`: the first burst frame
/// at or after `max(first, now - life + 1)`.
pub open spec fn oldest_live(first: int, period: int, life: int, now: int) -> int {
    let base = if now - life + 1 > first { now - life + 1 } else { first };
    first + ((base - first + period - 1) / period) * period
}

/// Newest burst frame that can be alive: `min(last, fired)` bounds it.
pub open spec fn newest_bound(last: int, fired: int) -> int {
    if last < fired { last } else { fired }
}

/// The live bursts, oldest first: `lo, lo + period, …` up to the bound.
pub open spec fn live_burst_seq(first: int, period: int, last: int, life: int, fired: int, now: int) -> Seq<int> {
    let lo = oldest_live(first, period, life, now);
    let hi = newest_bound(last, fired);
    let n = if lo > hi { 0 } else { (hi - lo) / period + 1 };
    Seq::new(n as nat, |i: int| lo + i * period)
}

/// A list of frame numbers read as integers.
pub open spec fn frames_of(v: Seq<u32>) -> Seq<int> {
    v.map_values(|x: u32| x as int)
}

/// Spawn frames of the bursts alive at `now`, oldest first, given that
/// bursts have fired through frame `fired`.
pub fn live_bursts(first: u32, period: u32, last: u32, life: u32, fired: u32, now: u32) -> (v: Vec<u32>)
    requires
        period > 0,
        last + period <= u32::MAX,
    ensures
        frames_of(v@) == live_burst_seq(first as int, period as int, last as int, life as int, fired as int, now as int),
        forall|f: int| #[trigger] frames_of(v@).contains(f)
            <==> burst_live(first as int, period as int, last as int, life as int, fired as int, now as int, f),
{
    let floor_frame: u64 = if now as u64 + 1 > life as u64 { now as u64 + 1 - life as u64 } else { 0 };
    let base: u64 = if floor_frame > first as u64 { floor_frame } else { first as u64 };
    let k: u64 = (base - first as u64 + period as u64 - 1) / period as u64;
    proof {
        lemma_fundamental_div_mod((base - first + period - 1) as int, period as int);
        assert(k * period <= base - first + period - 1) by (nonlinear_arith)
            requires
                base - first + period - 1 == period * k + (base - first + period - 1) % (period as int),
                (base - first + period - 1) % (period as int) >= 0,
        ;
    }
    let lo: u64 = first as u64 + k * period as u64;
    let hi: u64 = if (last as u64) < (fired as u64) { last as u64 } else { fired as u64 };
    let ghost glo = oldest_live(first as int, period as int, life as int, now as int);
    let ghost ghi = newest_bound(last as int, fired as int);
    assert(lo == glo);
    assert(hi == ghi);
    let n: u64 = if lo > hi { 0 } else { (hi - lo) / period as u64 + 1 };
    let mut v: Vec<u32> = Vec::new();
    let mut j: u64 = 0;
    while j < n
        invariant
            lo == glo,
            hi == ghi,
            hi <= u32::MAX,
            period > 0,
            n == (if lo > hi { 0 } else { (hi - lo) / (period as int) + 1 }),
            j <= n,
            v@.len() == j,
            forall|t: int| 0 <= t < v@.len() ==> #[trigger] v@[t] as int == lo + t * period,
        decreases n - j,
    {
        proof {
            assert(j * period <= hi - lo) by (nonlinear_arith)
                requires
                    j < n,
                    n == (hi - lo) / (period as int) + 1,
                    lo <= hi,
                    period > 0,
            {
                vstd::arithmetic::div_mod::lemma_fundamental_div_mod((hi - lo) as int, period as int);
                assert(j <= (hi - lo) / (period as int));
                assert(j * period <= ((hi - lo) / (period as int)) * period) by (nonlinear_arith)
                    requires j <= (hi - lo) / (period as int), period > 0;
            }
        }
        let f: u64 = lo + j * period as u64;
        v.push(f as u32);
        j = j + 1;
    }
    proof {
        let s = live_burst_seq(first as int, period as int, last as int, life as int, fired as int, now as int);
        let m = frames_of(v@);
        assert(m =~= s);
        assert forall|g: int| #[trigger] m.contains(g)
            <==> burst_live(first as int, period as int, last as int, life as int, fired as int, now as int, g) by {
            live_seq_membership(first as int, period as int, last as int, life as int, fired as int, now as int, g);
        }
    }
    v
}

/// A frame is in [`live_burst_seq`] exactly when its burst is alive.
pub proof fn live_seq_membership(first: int, period: int, last: int, life: int, fired: int, now: int, g: int)
    requires
        period > 0,
        first >= 0,
    ensures
        live_burst_seq(first, period, last, life, fired, now).contains(g)
            <==> burst_live(first, period, last, life, fired, now, g),
{
    let s = live_burst_seq(first, period, last, life, fired, now);
    let lo = oldest_live(first, period, life, now);
    let hi = newest_bound(last, fired);
    let base = if now - life + 1 > first { now - life + 1 } else { first };
    let k = (base - first + period - 1) / period;
    lemma_fundamental_div_mod(base - first + period - 1, period);
    let r = (base - first + period - 1) % period;
    assert(lo == first + k * period);
    // `lo` is the first grid point at or after `base`.
    assert(lo >= base && lo - period < base) by (nonlinear_arith)
        requires
            lo == first + k * period,
            base - first + period - 1 == period * k + r,
            0 <= r < period,
    ;
    assert(k >= 0) by {
        lemma_div_pos_is_pos(base - first + period - 1, period);
    }
    if s.contains(g) {
        let i = choose|i: int| 0 <= i < s.len() && s[i] == g;
        assert(s[i] == lo + i * period);
        assert(g - first == (k + i) * period) by (nonlinear_arith)
            requires g == lo + i * period, lo == first + k * period;
        assert((g - first) % period == 0) by {
            vstd::arithmetic::div_mod::lemma_mod_multiples_basic(k + i, period);
            assert((k + i) * period == period * (k + i)) by (nonlinear_arith);
        }
        assert(g <= hi) by (nonlinear_arith)
            requires
                g == lo + i * period,
                0 <= i < s.len(),
                s.len() == (if lo > hi { 0 } else { (hi - lo) / period + 1 }),
                period > 0,
        {
            if lo <= hi {
                lemma_fundamental_div_mod(hi - lo, period);
                assert(i <= (hi - lo) / period);
                assert(i * period <= ((hi - lo) / period) * period) by (nonlinear_arith)
                    requires i <= (hi - lo) / period, period > 0;
            }
        }
        assert(g >= lo) by (nonlinear_arith) requires g == lo + i * period, i >= 0, period > 0;
    }
    if burst_live(first, period, last, life, fired, now, g) {
        lemma_fundamental_div_mod(g - first, period);
        let q = (g - first) / period;
        assert(g == first + q * period) by (nonlinear_arith)
            requires g - first == period * q + (g - first) % period, (g - first) % period == 0;
        // `g >= base` and `g` is on the grid, so `g >= lo`.
        assert(q >= k) by (nonlinear_arith)
            requires
                g == first + q * period,
                g >= base,
                lo == first + k * period,
                lo - period < base,
                period > 0,
        {
            if q < k {
                assert(q <= k - 1);
                assert(q * period <= (k - 1) * period) by (nonlinear_arith) requires q <= k - 1, period > 0;
            }
        }
        let i = q - k;
        assert(g == lo + i * period) by (nonlinear_arith)
            requires g == first + q * period, lo == first + k * period, i == q - k;
        assert(lo <= hi);
        lemma_fundamental_div_mod(hi - lo, period);
        assert(i <= (hi - lo) / period) by (nonlinear_arith)
            requires
                lo + i * period <= hi,
                hi - lo == period * ((hi - lo) / period) + (hi - lo) % period,
                0 <= (hi - lo) % period < period,
                period > 0,
                i >= 0,
        {
            if i > (hi - lo) / period {
                assert(i * period >= ((hi - lo) / period + 1) * period) by (nonlinear_arith)
                    requires i >= (hi - lo) / period + 1, period > 0;
            }
        }
        assert(s[i] == g);
    }
}

/// At most `ceil(life / period)` bursts of one train are alive at once, as
/// long as bursts have fired only through the current frame.
pub proof fn live_bursts_bounded(first: int, period: int, last: int, life: int, fired: int, now: int)
    requires
        period > 0,
        first >= 0,
        life >= 0,
        fired <= now,
    ensures
        live_burst_seq(first, period, last, life, fired, now).len() <= (life + period - 1) / period,
{
    let lo = oldest_live(first, period, life, now);
    let hi = newest_bound(last, fired);
    let base = if now - life + 1 > first { now - life + 1 } else { first };
    let k = (base - first + period - 1) / period;
    lemma_fundamental_div_mod(base - first + period - 1, period);
    assert(lo >= base) by (nonlinear_arith)
        requires
            lo == first + k * period,
            base - first + period - 1 == period * k + (base - first + period - 1) % period,
            (base - first + period - 1) % period < period,
    ;
    if lo <= hi {
        let q = (hi - lo) / period;
        lemma_fundamental_div_mod(hi - lo, period);
        assert(q * period <= life - 1) by (nonlinear_arith)
            requires
                hi - lo == period * q + (hi - lo) % period,
                (hi - lo) % period >= 0,
                hi <= now,
                lo >= now - life + 1,
        ;
        lemma_fundamental_div_mod(life + period - 1, period);
        let b = (life + period - 1) / period;
        assert(q + 1 <= b) by (nonlinear_arith)
            requires
                q * period <= life - 1,
                life + period - 1 == period * b + (life + period - 1) % period,
                0 <= (life + period - 1) % period < period,
                period > 0,
        {
            if q + 1 > b {
                assert((q + 1) * period >= (b + 1) * period) by (nonlinear_arith)
                    requires q + 1 >= b + 1, period > 0;
            }
        }
    } else {
        lemma_div_pos_is_pos(life + period - 1, period);
    }
}

/// Once `life` frames have passed since the last burst frame `last`, no burst
/// of the train is alive.
pub proof fn train_runs_out(first: int, period: int, last: int, life: int, fired: int, now: int)
    requires
        period > 0,
        first >= 0,
        now >= last + life,
    ensures
        live_burst_seq(first, period, last, life, fired, now).len() == 0,
{
    let s = live_burst_seq(first, period, last, life, fired, now);
    if s.len() > 0 {
        live_seq_membership(first, period, last, life, fired, now, s[0]);
        assert(s.contains(s[0]));
    }
}

} // verus!
