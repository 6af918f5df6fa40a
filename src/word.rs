//! 256-bit machine words held as little-endian 64-bit limbs.

use vstd::prelude::*;

verus! {

/// `2^k`.
pub open spec fn pow2(k: nat) -> nat
    decreases k,
{
    if k == 0 {
        1
    } else {
        2 * pow2((k - 1) as nat)
    }
}

/// The number of binary digits of `n`; zero has none.
pub open spec fn bit_len(n: nat) -> nat
    decreases n,
{
    if n == 0 {
        0
    } else {
        1 + bit_len(n / 2)
    }
}

/// The radix of one limb, `2^64`.
pub open spec fn limb_radix() -> nat {
    0x1_0000_0000_0000_0000
}

/// A 256-bit unsigned machine word; `l0` is the least significant limb.
#[derive(Clone, Copy, Debug, PartialEq, Eq, Hash, Structural)]
pub struct Word {
    pub l0: u64,
    pub l1: u64,
    pub l2: u64,
    pub l3: u64,
}

impl Word {
    /// The integer the word denotes.
    pub open spec fn val(self) -> nat {
        self.l0 as nat + limb_radix() * (self.l1 as nat + limb_radix() * (self.l2 as nat
            + limb_radix() * (self.l3 as nat)))
    }

    pub open spec fn spec_zero() -> Word {
        Word { l0: 0, l1: 0, l2: 0, l3: 0 }
    }

    pub open spec fn spec_from_u64(x: u64) -> Word {
        Word { l0: x, l1: 0, l2: 0, l3: 0 }
    }

    /// The word zero.
    pub fn zero() -> (r: Word)
        ensures
            r == Word::spec_zero(),
            r.val() == 0,
    {
        Word { l0: 0, l1: 0, l2: 0, l3: 0 }
    }

    /// The word holding the small integer `x`.
    pub fn from_u64(x: u64) -> (r: Word)
        ensures
            r.val() == x as nat,
            r == Word::spec_from_u64(x),
    {
        Word { l0: x, l1: 0, l2: 0, l3: 0 }
    }

    /// The number of significant bits of the word.
    pub fn bits(&self) -> (r: usize)
        ensures
            r as nat == bit_len(self.val()),
    {
        u256_bits(self)
    }

    /// Whether the word is at most `u64::MAX`, and its value if so.
    pub fn low_u64(&self) -> (r: Option<u64>)
        ensures
            r.is_some() <==> self.val() < limb_radix(),
            r.is_some() ==> r.unwrap() as nat == self.val(),
    {
        proof {
            lemma_word_small(*self);
        }
        if self.l1 == 0 && self.l2 == 0 && self.l3 == 0 {
            Some(self.l0)
        } else {
            None
        }
    }
}

/// Relies on `ethereum_types::U256::bits`: the count of significant bits of
/// the 256-bit integer whose little-endian limbs are given.
#[verifier::external_body]
fn u256_bits(w: &Word) -> (r: usize)
    ensures
        r as nat == bit_len(w.val()),
{
    ethereum_types::U256([w.l0, w.l1, w.l2, w.l3]).bits()
}

/// A word is below `2^64` exactly when its upper limbs are zero.
pub proof fn lemma_word_small(w: Word)
    ensures
        w.val() < limb_radix() <==> (w.l1 == 0 && w.l2 == 0 && w.l3 == 0),
        (w.l1 == 0 && w.l2 == 0 && w.l3 == 0) ==> w.val() == w.l0 as nat,
{
    let b = limb_radix();
    let rest = w.l1 as nat + b * (w.l2 as nat + b * (w.l3 as nat));
    assert(w.val() == w.l0 as nat + b * rest);
    if rest > 0 {
        assert(b * rest >= b) by (nonlinear_arith)
            requires
                rest > 0,
        ;
    }
    if w.l1 == 0 && w.l2 == 0 && w.l3 == 0 {
        assert(rest == 0) by (nonlinear_arith)
            requires
                rest == w.l1 as nat + b * (w.l2 as nat + b * (w.l3 as nat)),
                w.l1 == 0 && w.l2 == 0 && w.l3 == 0,
        ;
    } else {
        assert(rest > 0) by (nonlinear_arith)
            requires
                rest == w.l1 as nat + b * (w.l2 as nat + b * (w.l3 as nat)),
                b > 0,
                !(w.l1 == 0 && w.l2 == 0 && w.l3 == 0),
        ;
    }
}

/// `n` has at most `k` binary digits exactly when `n < 2^k`.
pub proof fn lemma_bit_len_bound(n: nat, k: nat)
    ensures
        bit_len(n) <= k <==> n < pow2(k),
    decreases k,
{
    if n == 0 {
        lemma_pow2_positive(k);
    } else if k == 0 {
    } else {
        lemma_bit_len_bound(n / 2, (k - 1) as nat);
    }
}

/// `2^k` is positive.
pub proof fn lemma_pow2_positive(k: nat)
    ensures
        pow2(k) > 0,
    decreases k,
{
    if k > 0 {
        lemma_pow2_positive((k - 1) as nat);
    }
}

/// The values of `2^k` that the memory rules use.
pub proof fn lemma_pow2_values()
    ensures
        pow2(1) == 2,
        pow2(8) == 256,
        pow2(32) == 0x1_0000_0000,
        pow2(64) == limb_radix(),
{
    reveal_with_fuel(pow2, 65);
}

} // verus!
