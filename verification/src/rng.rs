//! The deterministic linear congruential generator every effect seeds its
//! per-particle scatter and stagger from (no `rand` dependency, so viewer
//! exports and tests are reproducible).
//!
//! All effects share one generator: `state = state * 1664525 + 1013904223`
//! modulo 2^32. [`Rng::from_seed`] scrambles a seed with the golden-ratio
//! constant first; [`lcg_next`] drives a bare `u32` state the same way.
use vstd::prelude::*;
use vstd::arithmetic::div_mod::{lemma_mul_mod_noop_left, lemma_mod_multiples_vanish, lemma_add_mod_noop};
use vstd::arithmetic::mul::lemma_mul_is_associative;

verus! {

/// LCG multiplier (Numerical Recipes).
pub const LCG_MUL: u32 = 1_664_525;
/// LCG increment (Numerical Recipes).
pub const LCG_INC: u32 = 1_013_904_223;
/// Golden-ratio constant that scrambles a seed before the first draw.
pub const SEED_MUL: u32 = 0x9E37_79B9;

/// 2^32, the modulus of all the generator arithmetic.
pub open spec fn modulus() -> int {
    0x1_0000_0000
}

/// One step of the generator: `state * 1664525 + 1013904223 (mod 2^32)`.
pub open spec fn lcg_step(state: u32) -> u32 {
    ((state as int * LCG_MUL as int + LCG_INC as int) % modulus()) as u32
}

/// The state after `k` steps from `state`.
pub open spec fn lcg_iter(state: u32, k: nat) -> u32
    decreases k,
{
    if k == 0 {
        state
    } else {
        lcg_step(lcg_iter(state, (k - 1) as nat))
    }
}

/// The initial state [`Rng::from_seed`] derives from a seed:
/// `seed * 0x9E3779B9 + 1 (mod 2^32)`.
pub open spec fn scramble(seed: u32) -> u32 {
    ((seed as int * SEED_MUL as int + 1) % modulus()) as u32
}

/// `x.wrapping_mul(a).wrapping_add(c)` is `x * a + c` modulo 2^32.
proof fn lemma_wrapping_affine(x: u32, a: u32, c: u32)
    ensures
        vstd::wrapping::u32_specs::wrapping_add(vstd::wrapping::u32_specs::wrapping_mul(x, a), c)
            == ((x as int * a as int + c as int) % modulus()) as u32,
{
    let m = modulus();
    let p = x as int * a as int;
    assert(x as nat * a as nat == p);
    let lo = p % m;
    vstd::arithmetic::div_mod::lemma_mod_bound(p, m);
    lemma_add_mod_noop(p, c as int, m);
    vstd::arithmetic::div_mod::lemma_small_mod(c as nat, m as nat);
    if lo + c >= m {
        lemma_mod_multiples_vanish(1, lo + c - m, m);
        vstd::arithmetic::div_mod::lemma_small_mod((lo + c - m) as nat, m as nat);
    } else {
        vstd::arithmetic::div_mod::lemma_small_mod((lo + c) as nat, m as nat);
    }
}

/// Advances `state` by one step and returns the new state.
pub fn lcg_next(state: &mut u32) -> (r: u32)
    ensures
        *final(state) == lcg_step(*old(state)),
        r == *final(state),
{
    proof {
        lemma_wrapping_affine(*state, LCG_MUL, LCG_INC);
    }
    *state = state.wrapping_mul(LCG_MUL).wrapping_add(LCG_INC);
    *state
}

/// A generator state owned by one effect.
pub struct Rng(pub u32);

impl Rng {
    /// The generator's current state.
    pub open spec fn state(&self) -> u32 {
        self.0
    }

    /// Scrambles `seed` so nearby seeds (e.g. neighbouring float bit
    /// patterns) start far apart.
    pub fn from_seed(seed: u32) -> (r: Rng)
        ensures
            r.state() == scramble(seed),
    {
        proof {
            lemma_wrapping_affine(seed, SEED_MUL, 1);
        }
        Rng(seed.wrapping_mul(SEED_MUL).wrapping_add(1))
    }

    /// Advances the generator and returns the new state.
    pub fn next_u32(&mut self) -> (r: u32)
        ensures
            final(self).state() == lcg_step(old(self).state()),
            r == final(self).state(),
    {
        proof {
            lemma_wrapping_affine(self.0, LCG_MUL, LCG_INC);
        }
        self.0 = self.0.wrapping_mul(LCG_MUL).wrapping_add(LCG_INC);
        self.0
    }

    /// A `random(n)`-style draw as a signed value: the next
    /// state modulo `n`, converted to `i32` (values of `n` above `i32::MAX + 1`
    /// wrap on that conversion, as the cast does).
    pub fn random_int(&mut self, n: u32) -> (r: i32)
        requires
            n > 0,
        ensures
            final(self).state() == lcg_step(old(self).state()),
            r == (final(self).state() % n) as i32,
            n <= 0x8000_0000 ==> 0 <= r < n,
    {
        let v = self.next_u32();
        (v % n) as i32
    }

    /// `random(n)` — the next state modulo `n`, with `n == 0` treated as 1
    /// (so it returns 0 instead of panicking).
    pub fn random(&mut self, n: u32) -> (r: u32)
        ensures
            final(self).state() == lcg_step(old(self).state()),
            r == final(self).state() % (if n == 0 { 1 } else { n }),
            r < (if n == 0 { 1 } else { n }),
    {
        let m = if n > 1 { n } else { 1 };
        self.next_u32() % m
    }
}

/// Multiplying by `a` then by `inv` modulo 2^32 gives back `x` whenever
/// `a * inv == 1 (mod 2^32)`.
proof fn lemma_mul_inverse(x: int, a: int, inv: int, k: int)
    requires
        0 <= x < modulus(),
        a * inv == 1 + k * modulus(),
    ensures
        ((x * a) % modulus()) * inv % modulus() == x,
{
    let m = modulus();
    lemma_mul_mod_noop_left(x * a, inv, m);
    lemma_mul_is_associative(x, a, inv);
    assert(x * (a * inv) == x + m * (x * k)) by (nonlinear_arith)
        requires
            a * inv == 1 + k * m,
    ;
    lemma_mod_multiples_vanish(x * k, x, m);
    vstd::arithmetic::div_mod::lemma_small_mod(x as nat, m as nat);
}

/// An affine map `x -> (x * k + c) mod 2^32` with an invertible `k` (`k * inv
/// == 1 + q * 2^32`) is one-to-one on `0..2^32`.
proof fn lemma_affine_injective(a: int, b: int, k: int, c: int, inv: int, q: int)
    requires
        0 <= a < modulus(),
        0 <= b < modulus(),
        0 <= c < modulus(),
        k * inv == 1 + q * modulus(),
        (a * k + c) % modulus() == (b * k + c) % modulus(),
    ensures
        a == b,
{
    let m = modulus();
    let ra = (a * k) % m;
    let rb = (b * k) % m;
    assert(ra == rb) by {
        lemma_add_mod_noop(a * k, c, m);
        lemma_add_mod_noop(b * k, c, m);
        vstd::arithmetic::div_mod::lemma_small_mod(c as nat, m as nat);
        vstd::arithmetic::div_mod::lemma_mod_bound(a * k, m);
        vstd::arithmetic::div_mod::lemma_mod_bound(b * k, m);
        if ra + c < m {
            vstd::arithmetic::div_mod::lemma_small_mod((ra + c) as nat, m as nat);
        } else {
            lemma_mod_multiples_vanish(1, ra + c - m, m);
            vstd::arithmetic::div_mod::lemma_small_mod((ra + c - m) as nat, m as nat);
        }
        if rb + c < m {
            vstd::arithmetic::div_mod::lemma_small_mod((rb + c) as nat, m as nat);
        } else {
            lemma_mod_multiples_vanish(1, rb + c - m, m);
            vstd::arithmetic::div_mod::lemma_small_mod((rb + c - m) as nat, m as nat);
        }
    }
    lemma_mul_inverse(a, k, inv, q);
    lemma_mul_inverse(b, k, inv, q);
}

/// Seed scrambling is one-to-one: different seeds always start the
/// generator in different states (the multiplier is odd, hence invertible
/// modulo 2^32).
pub proof fn scramble_is_injective(a: u32, b: u32)
    requires
        a != b,
    ensures
        scramble(a) != scramble(b),
{
    if scramble(a) == scramble(b) {
        assert(SEED_MUL as int * 0x144C_BC89 == 1 + 210485888 * modulus());
        lemma_affine_injective(a as int, b as int, SEED_MUL as int, 1, 0x144C_BC89, 210485888);
    }
}

/// One generator step is one-to-one: two different states never collide on
/// the next draw, so distinct streams stay distinct.
pub proof fn lcg_step_is_injective(a: u32, b: u32)
    requires
        a != b,
    ensures
        lcg_step(a) != lcg_step(b),
{
    if lcg_step(a) == lcg_step(b) {
        assert(LCG_MUL as int * 0xFEE0_58C5 == 1 + 1657219 * modulus());
        lemma_affine_injective(a as int, b as int, LCG_MUL as int, LCG_INC as int, 0xFEE0_58C5, 1657219);
    }
}

} // verus!
