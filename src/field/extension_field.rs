//! The degree-four extension `F[X] / (X^4 - 3)` of the Crandall field.

use vstd::prelude::*;

use crate::field::crandall::{fadd, fmul, fpow, fsub, order, CrandallField, CRANDALL_ORDER};

verus! {

/// `W`, the element of the base field with `X^4 - W` irreducible.
pub const QUARTIC_W: u64 = 3;

/// A field extension of degree four over a base field.
pub trait QuarticFieldExtension: Sized {
    type BaseField;

    /// The element is held in canonical form.
    spec fn well_formed(&self) -> bool;

    /// A base-field element is held in canonical form.
    spec fn base_well_formed(c: Self::BaseField) -> bool;

    /// The four coefficients, lowest power first.
    spec fn spec_repr(&self) -> Seq<Self::BaseField>;

    /// Whether the element lies in the base field.
    spec fn spec_is_in_basefield(&self) -> bool;

    /// The Frobenius automorphism `x -> x^p`, `p` the order of the base field.
    spec fn spec_frobenius(&self) -> Self;

    /// The element times a base-field scalar.
    spec fn spec_scalar_mul(&self, c: Self::BaseField) -> Self;

    /// Returns the four coefficients, lowest power first.
    fn to_canonical_representation(&self) -> (r: [Self::BaseField; 4])
        requires
            self.well_formed(),
        ensures
            r@ == self.spec_repr(),
    ;

    /// Returns whether the coefficients of `X`, `X^2` and `X^3` are zero.
    fn is_in_basefield(&self) -> (r: bool)
        requires
            self.well_formed(),
        ensures
            r == self.spec_is_in_basefield(),
    ;

    /// Returns the image of the element under the Frobenius automorphism.
    fn frobenius(&self) -> (r: Self)
        requires
            self.well_formed(),
        ensures
            r.well_formed(),
            r == self.spec_frobenius(),
    ;

    /// Returns the element times the scalar `c`.
    fn scalar_mul(&self, c: Self::BaseField) -> (r: Self)
        requires
            self.well_formed(),
            Self::base_well_formed(c),
        ensures
            r.well_formed(),
            r == self.spec_scalar_mul(c),
    ;
}

/// An element `a0 + a1 X + a2 X^2 + a3 X^3` of the quartic extension.
#[derive(Clone, Copy, Debug, Hash)]
pub struct QuarticCrandallField(pub [CrandallField; 4]);

impl PartialEq for QuarticCrandallField {
    /// Equal when the canonical representations are.
    fn eq(&self, other: &QuarticCrandallField) -> (r: bool) {
        let r = self.0[0] == other.0[0] && self.0[1] == other.0[1] && self.0[2] == other.0[2]
            && self.0[3] == other.0[3];
        proof {
            if r {
                assert(self.0@ =~= other.0@);
            }
        }
        r
    }
}

impl vstd::std_specs::cmp::PartialEqSpecImpl for QuarticCrandallField {
    open spec fn obeys_eq_spec() -> bool {
        true
    }

    open spec fn eq_spec(&self, other: &QuarticCrandallField) -> bool {
        self.0@ == other.0@
    }
}

impl Eq for QuarticCrandallField {

}

/// An extension element from its coefficient values, all below the order.
pub open spec fn quartic(a0: nat, a1: nat, a2: nat, a3: nat) -> QuarticCrandallField {
    QuarticCrandallField(
        [
            CrandallField(a0 as u64),
            CrandallField(a1 as u64),
            CrandallField(a2 as u64),
            CrandallField(a3 as u64),
        ],
    )
}

/// `z0 = W^((p - 1) / 4)`, which `X^p = z0 X` in the extension.
pub open spec fn frobenius_root() -> nat {
    fpow(QUARTIC_W as nat, ((order() - 1) / 4) as nat)
}

/// Product in `F[X] / (X^4 - W)`.
pub open spec fn quartic_mul(a: QuarticCrandallField, b: QuarticCrandallField) -> QuarticCrandallField {
    let (a0, a1, a2, a3) = (a.c(0), a.c(1), a.c(2), a.c(3));
    let (b0, b1, b2, b3) = (b.c(0), b.c(1), b.c(2), b.c(3));
    let w = QUARTIC_W as nat;
    quartic(
        fadd(fmul(a0, b0), fmul(w, fadd(fadd(fmul(a1, b3), fmul(a2, b2)), fmul(a3, b1)))),
        fadd(fadd(fmul(a0, b1), fmul(a1, b0)), fmul(w, fadd(fmul(a2, b3), fmul(a3, b2)))),
        fadd(fadd(fadd(fmul(a0, b2), fmul(a1, b1)), fmul(a2, b0)), fmul(w, fmul(a3, b3))),
        fadd(fadd(fadd(fmul(a0, b3), fmul(a1, b2)), fmul(a2, b1)), fmul(a3, b0)),
    )
}

/// `x^e`, by repeated squaring.
pub open spec fn quartic_pow(x: QuarticCrandallField, e: nat) -> QuarticCrandallField
    decreases e,
{
    if e == 0 {
        quartic(1, 0, 0, 0)
    } else {
        let h = quartic_pow(quartic_mul(x, x), e / 2);
        if e % 2 == 0 {
            h
        } else {
            quartic_mul(x, h)
        }
    }
}

/// The candidate inverse `x^(r - 1) / x^r`, with `r = 1 + p + p^2 + p^3`.
pub open spec fn quartic_inverse(x: QuarticCrandallField) -> QuarticCrandallField {
    let a_pow_p = x.spec_frobenius();
    let a_pow_p_plus_1 = quartic_mul(a_pow_p, x);
    let a_pow_p3_plus_p2 = a_pow_p_plus_1.spec_frobenius().spec_frobenius();
    let a_pow_r_minus_1 = quartic_mul(a_pow_p3_plus_p2, a_pow_p);
    a_pow_r_minus_1.spec_scalar_mul(CrandallField(fpow(quartic_norm(x), (order() - 2) as nat) as u64))
}

/// The constant coefficient of `x^r`, `r = 1 + p + p^2 + p^3`: the norm of `x`.
pub open spec fn quartic_norm(x: QuarticCrandallField) -> nat {
    let a_pow_p = x.spec_frobenius();
    let a_pow_r_minus_1 = quartic_mul(
        quartic_mul(a_pow_p, x).spec_frobenius().spec_frobenius(),
        a_pow_p,
    );
    quartic_mul(a_pow_r_minus_1, x).c(0)
}

impl QuarticCrandallField {
    /// Coefficient `i`.
    pub open spec fn c(self, i: int) -> nat {
        self.0[i].val()
    }

    /// All coefficients are canonical.
    pub open spec fn wf(self) -> bool {
        forall|i: int| 0 <= i < 4 ==> (#[trigger] self.0[i]).wf()
    }

    pub open spec fn spec_is_zero(self) -> bool {
        self.c(0) == 0 && self.c(1) == 0 && self.c(2) == 0 && self.c(3) == 0
    }

    /// The element with the given coefficients.
    pub fn new(a0: CrandallField, a1: CrandallField, a2: CrandallField, a3: CrandallField) -> (r:
        QuarticCrandallField)
        ensures
            r == QuarticCrandallField([a0, a1, a2, a3]),
    {
        QuarticCrandallField([a0, a1, a2, a3])
    }

    pub fn zero() -> (r: QuarticCrandallField)
        ensures
            r.wf(),
            r == quartic(0, 0, 0, 0),
    {
        let z = CrandallField::zero();
        QuarticCrandallField([z, z, z, z])
    }

    pub fn one() -> (r: QuarticCrandallField)
        ensures
            r.wf(),
            r == quartic(1, 0, 0, 0),
    {
        let z = CrandallField::zero();
        QuarticCrandallField([CrandallField::one(), z, z, z])
    }

    pub fn is_zero(&self) -> (r: bool)
        requires
            self.wf(),
        ensures
            r == self.spec_is_zero(),
    {
        self.0[0].is_zero() && self.0[1].is_zero() && self.0[2].is_zero() && self.0[3].is_zero()
    }

    pub fn neg(&self) -> (r: QuarticCrandallField)
        requires
            self.wf(),
        ensures
            r.wf(),
            r == quartic(
                fsub(0, self.c(0)),
                fsub(0, self.c(1)),
                fsub(0, self.c(2)),
                fsub(0, self.c(3)),
            ),
    {
        QuarticCrandallField([self.0[0].neg(), self.0[1].neg(), self.0[2].neg(), self.0[3].neg()])
    }

    pub fn add(&self, rhs: &QuarticCrandallField) -> (r: QuarticCrandallField)
        requires
            self.wf(),
            rhs.wf(),
        ensures
            r.wf(),
            r == quartic(
                fadd(self.c(0), rhs.c(0)),
                fadd(self.c(1), rhs.c(1)),
                fadd(self.c(2), rhs.c(2)),
                fadd(self.c(3), rhs.c(3)),
            ),
    {
        QuarticCrandallField(
            [
                self.0[0].add(&rhs.0[0]),
                self.0[1].add(&rhs.0[1]),
                self.0[2].add(&rhs.0[2]),
                self.0[3].add(&rhs.0[3]),
            ],
        )
    }

    pub fn sub(&self, rhs: &QuarticCrandallField) -> (r: QuarticCrandallField)
        requires
            self.wf(),
            rhs.wf(),
        ensures
            r.wf(),
            r == quartic(
                fsub(self.c(0), rhs.c(0)),
                fsub(self.c(1), rhs.c(1)),
                fsub(self.c(2), rhs.c(2)),
                fsub(self.c(3), rhs.c(3)),
            ),
    {
        QuarticCrandallField(
            [
                self.0[0].sub(&rhs.0[0]),
                self.0[1].sub(&rhs.0[1]),
                self.0[2].sub(&rhs.0[2]),
                self.0[3].sub(&rhs.0[3]),
            ],
        )
    }

    pub fn mul(&self, rhs: &QuarticCrandallField) -> (r: QuarticCrandallField)
        requires
            self.wf(),
            rhs.wf(),
        ensures
            r.wf(),
            r == quartic_mul(*self, *rhs),
    {
        let (a0, a1, a2, a3) = (self.0[0], self.0[1], self.0[2], self.0[3]);
        let (b0, b1, b2, b3) = (rhs.0[0], rhs.0[1], rhs.0[2], rhs.0[3]);
        let w = CrandallField(QUARTIC_W);
        let c0 = a0.mul(&b0).add(&w.mul(&a1.mul(&b3).add(&a2.mul(&b2)).add(&a3.mul(&b1))));
        let c1 = a0.mul(&b1).add(&a1.mul(&b0)).add(&w.mul(&a2.mul(&b3).add(&a3.mul(&b2))));
        let c2 = a0.mul(&b2).add(&a1.mul(&b1)).add(&a2.mul(&b0)).add(&w.mul(&a3.mul(&b3)));
        let c3 = a0.mul(&b3).add(&a1.mul(&b2)).add(&a2.mul(&b1)).add(&a3.mul(&b0));
        QuarticCrandallField([c0, c1, c2, c3])
    }

    /// `self^power`.
    pub fn exp_usize(&self, power: usize) -> (r: QuarticCrandallField)
        requires
            self.wf(),
        ensures
            r.wf(),
            r == quartic_pow(*self, power as nat),
        decreases power,
    {
        if power == 0 {
            return QuarticCrandallField::one();
        }
        let square = self.mul(self);
        let half = square.exp_usize(power / 2);
        if power % 2 == 0 {
            half
        } else {
            self.mul(&half)
        }
    }

    /// The inverse, computed as `x^(r - 1) * (x^r)^(-1)` with `r = 1 + p + p^2 + p^3`,
    /// where `x^r` is the norm of `x` and lies in the base field. `None` for
    /// zero, and for an element whose norm is zero.
    pub fn try_inverse(&self) -> (r: Option<QuarticCrandallField>)
        requires
            self.wf(),
        ensures
            r.is_none() <==> (self.spec_is_zero() || quartic_norm(*self) == 0),
            r.is_some() ==> r.unwrap().wf() && r.unwrap() == quartic_inverse(*self),
    {
        if self.is_zero() {
            return None;
        }
        let a_pow_p = self.frobenius();
        let a_pow_p_plus_1 = a_pow_p.mul(self);
        let a_pow_p3_plus_p2 = a_pow_p_plus_1.frobenius().frobenius();
        let a_pow_r_minus_1 = a_pow_p3_plus_p2.mul(&a_pow_p);
        let a_pow_r = a_pow_r_minus_1.mul(self);
        match a_pow_r.0[0].try_inverse() {
            Some(norm_inverse) => Some(a_pow_r_minus_1.scalar_mul(norm_inverse)),
            None => None,
        }
    }
}

impl QuarticCrandallField {
    /// `self / rhs`, for an invertible `rhs`.
    pub fn div(&self, rhs: &QuarticCrandallField) -> (r: QuarticCrandallField)
        requires
            self.wf(),
            rhs.wf(),
            !rhs.spec_is_zero(),
            quartic_norm(*rhs) != 0,
        ensures
            r.wf(),
            r == quartic_mul(*self, quartic_inverse(*rhs)),
    {
        match rhs.try_inverse() {
            Some(inverse) => self.mul(&inverse),
            None => QuarticCrandallField::zero(),
        }
    }
}

impl QuarticFieldExtension for QuarticCrandallField {
    type BaseField = CrandallField;

    open spec fn well_formed(&self) -> bool {
        self.wf()
    }

    open spec fn base_well_formed(c: CrandallField) -> bool {
        c.wf()
    }

    open spec fn spec_repr(&self) -> Seq<CrandallField> {
        self.0@
    }

    open spec fn spec_is_in_basefield(&self) -> bool {
        self.c(1) == 0 && self.c(2) == 0 && self.c(3) == 0
    }

    open spec fn spec_frobenius(&self) -> QuarticCrandallField {
        let z1 = frobenius_root();
        let z2 = fmul(z1, z1);
        let z3 = fmul(z2, z1);
        quartic(self.c(0), fmul(self.c(1), z1), fmul(self.c(2), z2), fmul(self.c(3), z3))
    }

    open spec fn spec_scalar_mul(&self, c: CrandallField) -> QuarticCrandallField {
        quartic(
            fmul(self.c(0), c.val()),
            fmul(self.c(1), c.val()),
            fmul(self.c(2), c.val()),
            fmul(self.c(3), c.val()),
        )
    }

    fn to_canonical_representation(&self) -> (r: [CrandallField; 4]) {
        self.0
    }

    fn is_in_basefield(&self) -> (r: bool) {
        self.0[1].is_zero() && self.0[2].is_zero() && self.0[3].is_zero()
    }

    fn frobenius(&self) -> (r: QuarticCrandallField) {
        let (a0, a1, a2, a3) = (self.0[0], self.0[1], self.0[2], self.0[3]);
        let k = (CRANDALL_ORDER - 1) / 4;
        let z0 = CrandallField(QUARTIC_W).exp_u64(k);
        let mut z = CrandallField::one();
        let b0 = a0.mul(&z);
        z = z.mul(&z0);
        let b1 = a1.mul(&z);
        z = z.mul(&z0);
        let b2 = a2.mul(&z);
        z = z.mul(&z0);
        let b3 = a3.mul(&z);
        proof {
            vstd::arithmetic::div_mod::lemma_small_mod(a0.val(), order());
            vstd::arithmetic::div_mod::lemma_small_mod(z0.val(), order());
            assert(fmul(a0.val(), 1) == a0.val());
            assert(fmul(1, z0.val()) == z0.val());
        }
        QuarticCrandallField([b0, b1, b2, b3])
    }

    fn scalar_mul(&self, c: CrandallField) -> (r: QuarticCrandallField) {
        let (a0, a1, a2, a3) = (self.0[0], self.0[1], self.0[2], self.0[3]);
        QuarticCrandallField([a0.mul(&c), a1.mul(&c), a2.mul(&c), a3.mul(&c)])
    }
}

} // verus!
