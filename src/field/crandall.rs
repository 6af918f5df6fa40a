//! The prime field of order `2^64 - 9 * 2^28 + 1`, elements held canonically.

use vstd::arithmetic::div_mod::{lemma_mul_mod_noop_general, lemma_small_mod};
use vstd::arithmetic::power::{
    lemma_pow0, lemma_pow1, lemma_pow_adds, lemma_pow_multiplies, lemma_square_is_pow2, pow,
};
use vstd::prelude::*;

verus! {

/// The order of the field.
pub const CRANDALL_ORDER: u64 = 18446744071293632513;

/// The order of the field, as an integer.
pub open spec fn order() -> nat {
    18446744071293632513
}

/// The sum of two field values.
pub open spec fn fadd(a: nat, b: nat) -> nat {
    (a + b) % order()
}

/// The difference of two field values.
pub open spec fn fsub(a: nat, b: nat) -> nat {
    ((a + order() - b) as nat) % order()
}

/// The product of two field values.
pub open spec fn fmul(a: nat, b: nat) -> nat {
    (a * b) % order()
}

/// `a^e` in the field.
pub open spec fn fpow(a: nat, e: nat) -> nat {
    (pow(a as int, e) % (order() as int)) as nat
}

/// An element of the field.
#[derive(Clone, Copy, Debug, PartialEq, Eq, Hash, Structural)]
pub struct CrandallField(pub u64);

impl CrandallField {
    /// The element is held in canonical form, below the order.
    pub open spec fn wf(self) -> bool {
        self.0 < CRANDALL_ORDER
    }

    /// The value of the element.
    pub open spec fn val(self) -> nat {
        self.0 as nat
    }

    pub fn zero() -> (r: CrandallField)
        ensures
            r.wf(),
            r.val() == 0,
    {
        CrandallField(0)
    }

    pub fn one() -> (r: CrandallField)
        ensures
            r.wf(),
            r.val() == 1,
    {
        CrandallField(1)
    }

    /// The element congruent to `n`.
    pub fn from_noncanonical_u64(n: u64) -> (r: CrandallField)
        ensures
            r.wf(),
            r.val() == n as nat % order(),
    {
        CrandallField(n % CRANDALL_ORDER)
    }

    /// The value of the element, below the order.
    pub fn to_canonical_u64(&self) -> (r: u64)
        requires
            self.wf(),
        ensures
            r as nat == self.val(),
    {
        self.0
    }

    pub fn is_zero(&self) -> (r: bool)
        requires
            self.wf(),
        ensures
            r <==> self.val() == 0,
    {
        self.0 == 0
    }

    pub fn add(&self, rhs: &CrandallField) -> (r: CrandallField)
        requires
            self.wf(),
            rhs.wf(),
        ensures
            r.wf(),
            r.val() == fadd(self.val(), rhs.val()),
    {
        let s: u128 = (self.0 as u128 + rhs.0 as u128) % (CRANDALL_ORDER as u128);
        CrandallField(s as u64)
    }

    pub fn sub(&self, rhs: &CrandallField) -> (r: CrandallField)
        requires
            self.wf(),
            rhs.wf(),
        ensures
            r.wf(),
            r.val() == fsub(self.val(), rhs.val()),
    {
        let s: u128 = (self.0 as u128 + CRANDALL_ORDER as u128 - rhs.0 as u128) % (
        CRANDALL_ORDER as u128);
        CrandallField(s as u64)
    }

    pub fn neg(&self) -> (r: CrandallField)
        requires
            self.wf(),
        ensures
            r.wf(),
            r.val() == fsub(0, self.val()),
    {
        CrandallField((CRANDALL_ORDER - self.0) % CRANDALL_ORDER)
    }

    pub fn mul(&self, rhs: &CrandallField) -> (r: CrandallField)
        requires
            self.wf(),
            rhs.wf(),
        ensures
            r.wf(),
            r.val() == fmul(self.val(), rhs.val()),
    {
        let a = self.0 as u128;
        let b = rhs.0 as u128;
        assert(a * b < 0x1_0000_0000_0000_0000_0000_0000_0000_0000) by (nonlinear_arith)
            requires
                a < 0x1_0000_0000_0000_0000,
                b < 0x1_0000_0000_0000_0000,
        ;
        let p: u128 = (a * b) % (CRANDALL_ORDER as u128);
        CrandallField(p as u64)
    }

    /// `self^power`, by repeated squaring.
    pub fn exp_u64(&self, power: u64) -> (r: CrandallField)
        requires
            self.wf(),
        ensures
            r.wf(),
            r.val() == fpow(self.val(), power as nat),
    {
        let ghost m = order() as int;
        let mut acc = CrandallField::one();
        let mut base = *self;
        let mut e = power;
        proof {
            lemma_small_mod(self.val(), order());
            lemma_pow0(self.val() as int);
        }
        while e > 0
            invariant
                m == order() as int,
                acc.wf(),
                base.wf(),
                (acc.val() * pow(base.val() as int, e as nat)) % m == pow(self.val() as int, power as nat) % m,
            decreases e,
        {
            let ghost b = base.val() as int;
            let ghost a = acc.val() as int;
            let ghost k = (e / 2) as nat;
            proof {
                lemma_pow_multiplies(b, 2, k);
                lemma_pow_adds(b, 2 * k, (e % 2) as nat);
                lemma_square_is_pow2(b);
                lemma_pow1(b);
                lemma_pow0(b);
                assert(pow(b * b, k) == pow(b, 2 * k));
                assert(2 * k + (e % 2) as nat == e as nat);
            }
            if e % 2 == 1 {
                acc = acc.mul(&base);
                proof {
                    // a * b^e = (a * b) * (b^2)^k
                    assert(a * pow(b, e as nat) == (a * b) * pow(b * b, k)) by (nonlinear_arith)
                        requires
                            pow(b, e as nat) == pow(b, 2 * k) * pow(b, 1),
                            pow(b, 2 * k) == pow(b * b, k),
                            pow(b, 1) == b,
                    ;
                    lemma_mul_mod_noop_general(a * b, pow(b * b, k), m);
                }
            } else {
                proof {
                    assert(a * pow(b, e as nat) == a * pow(b * b, k)) by (nonlinear_arith)
                        requires
                            pow(b, e as nat) == pow(b, 2 * k) * pow(b, 0),
                            pow(b, 2 * k) == pow(b * b, k),
                            pow(b, 0) == 1,
                    ;
                }
            }
            let ghost a2 = acc.val() as int;
            base = base.mul(&base);
            proof {
                // acc * (b*b)^k == acc * ((b*b) % m)^k modulo m
                vstd::arithmetic::power::lemma_pow_mod_noop(b * b, k, m);
                lemma_mul_mod_noop_general(a2, pow(b * b, k), m);
                lemma_mul_mod_noop_general(a2, pow((b * b) % m, k), m);
            }
            e = e / 2;
        }
        proof {
            lemma_pow0(base.val() as int);
        }
        acc
    }

    /// The inverse `self^(p - 2)` of a nonzero element; `None` for zero.
    pub fn try_inverse(&self) -> (r: Option<CrandallField>)
        requires
            self.wf(),
        ensures
            r.is_none() <==> self.val() == 0,
            r.is_some() ==> r.unwrap().wf() && r.unwrap().val() == fpow(
                self.val(),
                (order() - 2) as nat,
            ),
    {
        if self.0 == 0 {
            None
        } else {
            Some(self.exp_u64(CRANDALL_ORDER - 2))
        }
    }
}

} // verus!
