//! Balanced ternary values and the seeded generator that draws them.
use vstd::prelude::*;

verus! {

/// Multiplier of the linear congruential generator used for every random draw.
pub const LCG_MULTIPLIER: u64 = 6364136223846793005;

/// A balanced ternary value: -1, 0 or +1.
#[derive(Clone, Copy, Debug, PartialEq, Eq, Hash, Structural)]
pub enum Ternary {
    Neg,
    Zero,
    Pos,
}

impl Ternary {
    /// The integer that the value stands for.
    pub open spec fn value(self) -> int {
        match self {
            Ternary::Neg => -1,
            Ternary::Zero => 0,
            Ternary::Pos => 1,
        }
    }

    /// Converts -1, 0 and 1 into a ternary value; every other integer is refused.
    pub fn from_i8(v: i8) -> (r: Option<Self>)
        ensures
            r == ternary_of_int(v as int),
    {
        match v {
            -1 => Some(Ternary::Neg),
            0 => Some(Ternary::Zero),
            1 => Some(Ternary::Pos),
            _ => None,
        }
    }

    /// The integer value of the ternary digit.
    pub fn to_i8(self) -> (r: i8)
        ensures
            r as int == self.value(),
    {
        match self {
            Ternary::Neg => -1,
            Ternary::Zero => 0,
            Ternary::Pos => 1,
        }
    }

    /// Advances the generator state by one step and draws a value from the new state.
    pub fn random(seed: &mut u64) -> (r: Self)
        ensures
            *final(seed) == lcg_next(*old(seed)),
            r == ternary_of_seed(*final(seed)),
    {
        *seed = seed.wrapping_mul(LCG_MULTIPLIER).wrapping_add(1);
        let m: u64 = *seed % 3;
        if m == 0 {
            Ternary::Neg
        } else if m == 1 {
            Ternary::Zero
        } else {
            Ternary::Pos
        }
    }
}

/// The ternary value whose integer is `v`, if there is one.
pub open spec fn ternary_of_int(v: int) -> Option<Ternary> {
    if v == -1 {
        Some(Ternary::Neg)
    } else if v == 0 {
        Some(Ternary::Zero)
    } else if v == 1 {
        Some(Ternary::Pos)
    } else {
        None
    }
}

/// One step of the generator: multiply, add one, both modulo 2^64.
pub open spec fn lcg_next(s: u64) -> u64 {
    s.wrapping_mul(LCG_MULTIPLIER).wrapping_add(1)
}

/// The generator state after `k` steps from `s`.
pub open spec fn lcg_iter(s: u64, k: nat) -> u64
    decreases k,
{
    if k == 0 {
        s
    } else {
        lcg_next(lcg_iter(s, (k - 1) as nat))
    }
}

/// The value drawn from a generator state: its remainder modulo 3 picks Neg, Zero or Pos.
pub open spec fn ternary_of_seed(s: u64) -> Ternary {
    if s % 3 == 0 {
        Ternary::Neg
    } else if s % 3 == 1 {
        Ternary::Zero
    } else {
        Ternary::Pos
    }
}

/// Converting a value to its integer and back gives the value again, and an
/// integer that converts gives back that integer.
pub proof fn lemma_int_roundtrip(t: Ternary, v: int)
    ensures
        ternary_of_int(t.value()) == Some(t),
        ternary_of_int(v) is Some <==> -1 <= v <= 1,
        ternary_of_int(v) matches Some(u) ==> u.value() == v,
{
}

/// One generator step is the affine map `s * 6364136223846793005 + 1` taken
/// modulo 2^64.
pub proof fn lemma_lcg_next_formula(s: u64)
    ensures
        lcg_next(s) as int == (s as int * 6364136223846793005 + 1) % 0x1_0000_0000_0000_0000,
{
    let m: int = 0x1_0000_0000_0000_0000;
    let x: int = s as int * 6364136223846793005;
    let w: int = x % m;
    assert(0 <= w < m) by {
        vstd::arithmetic::div_mod::lemma_mod_bound(x, m);
    }
    vstd::arithmetic::div_mod::lemma_add_mod_noop(x, 1, m);
    assert(1int % m == 1);
    assert((w + 1) % m == (x + 1) % m);
    if w + 1 < m {
        vstd::arithmetic::div_mod::lemma_small_mod((w + 1) as nat, m as nat);
    } else {
        assert(w + 1 == m);
        vstd::arithmetic::div_mod::lemma_mod_self_0(m);
    }
}

/// The value drawn from a state is its remainder modulo 3, shifted down by one:
/// remainders 0, 1, 2 give -1, 0, +1.
pub proof fn lemma_ternary_of_seed_value(s: u64)
    ensures
        ternary_of_seed(s).value() == (s % 3) as int - 1,
{
}

/// Stepping the generator `j` times and then `k` times is stepping it `j + k`
/// times; each step is one `lcg_next`.
pub proof fn lemma_lcg_iter_add(s: u64, j: nat, k: nat)
    ensures
        lcg_iter(s, 0) == s,
        lcg_iter(s, j + 1) == lcg_next(lcg_iter(s, j)),
        lcg_iter(lcg_iter(s, j), k) == lcg_iter(s, j + k),
    decreases k,
{
    if k > 0 {
        lemma_lcg_iter_add(s, j, (k - 1) as nat);
        assert((j + k - 1) as nat + 1 == j + k);
    }
}

} // verus!
