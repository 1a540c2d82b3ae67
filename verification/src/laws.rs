//! The conversion laws, proved once for every unit.
//!
//! Each law is stated over the same models and spec functions that the
//! conversion operations' contracts use, so it applies directly to what
//! `to`, `to_base` and `from_base` return. Equality of results is
//! `ratv_eqv`: the two rationals denote the same number. Because values
//! are exact fractions, no tolerance enters any statement.

use vstd::prelude::*;

use crate::rational::RatV;
use crate::rational::ratv_div;
use crate::rational::ratv_eqv;
use crate::rational::ratv_one;
use crate::unit::Unit;
use crate::unit::convert_model;

verus! {

/// Round trip through the base unit: lowering a quantity into its base
/// with `to_base` and converting the base quantity back yields the value
/// it started with, whenever the base unit's own declared factor is
/// equivalent to one — the conventional declaration for a base unit. (A
/// base declared with a factor such as two would scale every such round
/// trip by a half; the declared factor of a base is a placeholder, and
/// one is the consistent choice.)
pub proof fn lemma_round_trip<U: Unit>(q: U) where U::Base: Unit<Base = U::Base>
    requires
        ratv_eqv(<U::Base as Unit>::spec_factor(), ratv_one()),
    ensures
        ratv_eqv(
            convert_model(
                ratv_div(q.spec_value(), U::spec_factor()),
                <U::Base as Unit>::spec_factor(),
                U::spec_factor(),
            ),
            q.spec_value(),
        ),
{
    let a: int = q.spec_value().n;
    let b: int = q.spec_value().d;
    let p: int = U::spec_factor().n;
    let f: int = U::spec_factor().d;
    let x: int = <U::Base as Unit>::spec_factor().n;
    let y: int = <U::Base as Unit>::spec_factor().d;
    assert((((a * f) * y) * p) * b == a * (((b * p) * x) * f)) by (nonlinear_arith)
        requires
            x == y,
    ;
}

/// Composing conversions loses nothing: converting through any
/// intermediate unit of the same family gives the same value as
/// converting directly.
pub proof fn lemma_conversion_composition<
    U: Unit,
    V: Unit<Base = U::Base>,
    W: Unit<Base = U::Base>,
>(q: U)
    ensures
        ratv_eqv(
            convert_model(
                convert_model(q.spec_value(), U::spec_factor(), V::spec_factor()),
                V::spec_factor(),
                W::spec_factor(),
            ),
            convert_model(q.spec_value(), U::spec_factor(), W::spec_factor()),
        ),
{
    let a: int = q.spec_value().n;
    let b: int = q.spec_value().d;
    let pu: int = U::spec_factor().n;
    let qu: int = U::spec_factor().d;
    let pv: int = V::spec_factor().n;
    let qv: int = V::spec_factor().d;
    let pw: int = W::spec_factor().n;
    let qw: int = W::spec_factor().d;
    assert(((((a * qu) * pv) * qv) * pw) * ((b * pu) * qw) == ((a * qu) * pw) * ((((b * pu)
        * qv) * pv) * qw)) by (nonlinear_arith);
}

/// Converting a quantity to its own unit leaves the value it denotes
/// unchanged: the scale factor divides in and multiplies right back out.
pub proof fn lemma_identity_conversion<U: Unit>(q: U)
    ensures
        ratv_eqv(
            convert_model(q.spec_value(), U::spec_factor(), U::spec_factor()),
            q.spec_value(),
        ),
{
    let a: int = q.spec_value().n;
    let b: int = q.spec_value().d;
    let p: int = U::spec_factor().n;
    let f: int = U::spec_factor().d;
    assert(((a * f) * p) * b == a * ((b * p) * f)) by (nonlinear_arith);
}

} // verus!
