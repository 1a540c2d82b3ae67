//! Exact rational arithmetic used as the numeric representation for
//! quantities.
//!
//! A quantity's raw value is a `Rat`: a numerator and a denominator stored
//! as machine integers. Working with exact fractions keeps every conversion
//! step (a multiply and a divide by a unit's scale factor) free of rounding,
//! so conversion laws can be stated as exact equivalences of rationals.
//!
//! Division is total: dividing by a rational whose numerator is zero yields
//! a result whose denominator is zero. Such a value denotes no number, and
//! later operations simply propagate it, much as a floating-point
//! representation would propagate an infinity. Well-formedness (a nonzero
//! denominator) is therefore tracked by contracts rather than forced on
//! every value.

use vstd::prelude::*;

verus! {

/// Mathematical model of a rational: a numerator and a denominator over the
/// unbounded integers. Spec-level arithmetic and equivalence are defined on
/// this model; the executable `Rat` mirrors it exactly.
pub struct RatV {
    pub n: int,
    pub d: int,
}

impl RatV {
    /// A model denotes a rational number exactly when its denominator is
    /// nonzero.
    pub open spec fn wf(self) -> bool {
        self.d != 0
    }
}

/// The rational one, the conventional scale factor of a base unit.
pub open spec fn ratv_one() -> RatV {
    RatV { n: 1, d: 1 }
}

/// Equivalence of rationals by cross-multiplication: `a.n/a.d == b.n/b.d`
/// exactly when `a.n * b.d == b.n * a.d`, for any nonzero denominators.
pub open spec fn ratv_eqv(a: RatV, b: RatV) -> bool {
    a.n * b.d == b.n * a.d
}

/// Product of two rationals.
pub open spec fn ratv_mul(a: RatV, b: RatV) -> RatV {
    RatV { n: a.n * b.n, d: a.d * b.d }
}

/// Quotient of two rationals: multiplication by the reciprocal of `b`.
pub open spec fn ratv_div(a: RatV, b: RatV) -> RatV {
    RatV { n: a.n * b.d, d: a.d * b.n }
}

/// Sum of two rationals over the common denominator `a.d * b.d`.
pub open spec fn ratv_add(a: RatV, b: RatV) -> RatV {
    RatV { n: a.n * b.d + b.n * a.d, d: a.d * b.d }
}

/// Difference of two rationals over the common denominator `a.d * b.d`.
pub open spec fn ratv_sub(a: RatV, b: RatV) -> RatV {
    RatV { n: a.n * b.d - b.n * a.d, d: a.d * b.d }
}

/// Whether an unbounded integer is representable in the machine integers
/// that a `Rat` stores.
pub open spec fn in_i64(x: int) -> bool {
    i64::MIN <= x && x <= i64::MAX
}

/// The components of `ratv_mul(a, b)` are representable.
pub open spec fn mul_fits(a: RatV, b: RatV) -> bool {
    in_i64(a.n * b.n) && in_i64(a.d * b.d)
}

/// The components of `ratv_div(a, b)` are representable.
pub open spec fn div_fits(a: RatV, b: RatV) -> bool {
    in_i64(a.n * b.d) && in_i64(a.d * b.n)
}

/// The components of `ratv_add(a, b)`, including the intermediate products,
/// are representable.
pub open spec fn add_fits(a: RatV, b: RatV) -> bool {
    in_i64(a.n * b.d) && in_i64(b.n * a.d) && in_i64(a.n * b.d + b.n * a.d) && in_i64(a.d * b.d)
}

/// The components of `ratv_sub(a, b)`, including the intermediate products,
/// are representable.
pub open spec fn sub_fits(a: RatV, b: RatV) -> bool {
    in_i64(a.n * b.d) && in_i64(b.n * a.d) && in_i64(a.n * b.d - b.n * a.d) && in_i64(a.d * b.d)
}

/// The product of two nonzero integers is nonzero: the fact every
/// denominator argument below rests on.
pub(crate) proof fn lemma_mul_nonzero(a: int, b: int)
    requires
        a != 0,
        b != 0,
    ensures
        a * b != 0,
{
    assert(a * b != 0) by (nonlinear_arith)
        requires
            a != 0,
            b != 0,
    ;
}

proof fn lemma_i64_product_in_i128(a: int, b: int)
    requires
        i64::MIN <= a && a <= i64::MAX,
        i64::MIN <= b && b <= i64::MAX,
    ensures
        i128::MIN <= a * b && a * b <= i128::MAX,
{
    assert(i128::MIN <= a * b && a * b <= i128::MAX) by (nonlinear_arith)
        requires
            i64::MIN <= a && a <= i64::MAX,
            i64::MIN <= b && b <= i64::MAX,
    ;
}

/// An exact rational number: the numeric representation a quantity stores.
#[derive(Clone, Copy, Debug)]
pub struct Rat {
    pub num: i64,
    pub den: i64,
}

impl View for Rat {
    type V = RatV;

    open spec fn view(&self) -> RatV {
        RatV { n: self.num as int, d: self.den as int }
    }
}

impl Rat {
    /// Builds the rational `num / den`. Total: a zero denominator is
    /// representable, denotes no number, and is propagated by the
    /// arithmetic below rather than rejected here.
    pub fn new(num: i64, den: i64) -> (r: Rat)
        ensures
            r@ == (RatV { n: num as int, d: den as int }),
            den != 0 ==> r@.wf(),
    {
        Rat { num, den }
    }

    /// Builds the rational `n / 1`.
    pub fn from_i64(n: i64) -> (r: Rat)
        ensures
            r@ == (RatV { n: n as int, d: 1 }),
            r@.wf(),
    {
        Rat { num: n, den: 1 }
    }

    /// The stored numerator.
    pub fn num(&self) -> (r: i64)
        ensures
            r as int == self@.n,
    {
        self.num
    }

    /// The stored denominator.
    pub fn den(&self) -> (r: i64)
        ensures
            r as int == self@.d,
    {
        self.den
    }

    /// Whether `self` and `other` denote the same rational number, decided
    /// by cross-multiplication in a wider integer type so that no pair of
    /// stored components can overflow the comparison.
    pub fn eqv(&self, other: &Rat) -> (r: bool)
        ensures
            r == ratv_eqv(self@, other@),
    {
        proof {
            lemma_i64_product_in_i128(self@.n, other@.d);
            lemma_i64_product_in_i128(other@.n, self@.d);
        }
        (self.num as i128) * (other.den as i128) == (other.num as i128) * (self.den as i128)
    }

    /// Exact product.
    pub fn mul(self, rhs: Rat) -> (r: Rat)
        requires
            mul_fits(self@, rhs@),
        ensures
            r@ == ratv_mul(self@, rhs@),
            self@.wf() && rhs@.wf() ==> r@.wf(),
    {
        proof {
            if self@.wf() && rhs@.wf() {
                lemma_mul_nonzero(self@.d, rhs@.d);
            }
        }
        Rat { num: self.num * rhs.num, den: self.den * rhs.den }
    }

    /// Exact quotient. Dividing by a rational with a zero numerator yields
    /// a result with a zero denominator, which denotes no number.
    pub fn div(self, rhs: Rat) -> (r: Rat)
        requires
            div_fits(self@, rhs@),
        ensures
            r@ == ratv_div(self@, rhs@),
            self@.wf() && rhs@.n != 0 ==> r@.wf(),
    {
        proof {
            if self@.wf() && rhs@.n != 0 {
                lemma_mul_nonzero(self@.d, rhs@.n);
            }
        }
        Rat { num: self.num * rhs.den, den: self.den * rhs.num }
    }

    /// Exact sum over the common denominator.
    pub fn add(self, rhs: Rat) -> (r: Rat)
        requires
            add_fits(self@, rhs@),
        ensures
            r@ == ratv_add(self@, rhs@),
            self@.wf() && rhs@.wf() ==> r@.wf(),
    {
        proof {
            if self@.wf() && rhs@.wf() {
                lemma_mul_nonzero(self@.d, rhs@.d);
            }
        }
        Rat { num: self.num * rhs.den + rhs.num * self.den, den: self.den * rhs.den }
    }

    /// Exact difference over the common denominator.
    pub fn sub(self, rhs: Rat) -> (r: Rat)
        requires
            sub_fits(self@, rhs@),
        ensures
            r@ == ratv_sub(self@, rhs@),
            self@.wf() && rhs@.wf() ==> r@.wf(),
    {
        proof {
            if self@.wf() && rhs@.wf() {
                lemma_mul_nonzero(self@.d, rhs@.d);
            }
        }
        Rat { num: self.num * rhs.den - rhs.num * self.den, den: self.den * rhs.den }
    }
}

} // verus!
