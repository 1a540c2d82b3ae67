//! The conversion protocol: what it means to be a unit of measure.
//!
//! A unit tag declares exactly one base unit and one scale factor such that
//! `value_in_this_unit == value_in_base_unit * factor`. Converting between
//! two units sharing a base therefore takes one divide (into the base) and
//! one multiply (out of it); adding a new unit costs one factor declaration,
//! never a pairwise table. Units with different bases satisfy no bound that
//! would let a conversion or a mixed-unit operation be written, so an
//! illegal combination is rejected when the program is type-checked, not at
//! run time.

use vstd::prelude::*;

use crate::rational::Rat;
use crate::rational::RatV;
use crate::rational::add_fits;
use crate::rational::div_fits;
use crate::rational::lemma_mul_nonzero;
use crate::rational::mul_fits;
use crate::rational::ratv_add;
use crate::rational::ratv_div;
use crate::rational::ratv_mul;
use crate::rational::ratv_sub;
use crate::rational::sub_fits;

verus! {

/// The value a conversion yields: divide by the source unit's factor to
/// reach the shared base, then multiply by the target unit's factor.
pub open spec fn convert_model(v: RatV, from_factor: RatV, to_factor: RatV) -> RatV {
    ratv_mul(ratv_div(v, from_factor), to_factor)
}

/// Both steps of a conversion stay within the machine integers.
pub open spec fn convert_fits(v: RatV, from_factor: RatV, to_factor: RatV) -> bool {
    div_fits(v, from_factor) && mul_fits(ratv_div(v, from_factor), to_factor)
}

/// The conversion step shared by every unit: wraps `q`'s value, divided by
/// `U`'s factor, as a quantity of `U`'s base unit.
pub fn quantity_to_base<U: Unit>(q: U) -> (r: U::Base)
    requires
        div_fits(q.spec_value(), U::spec_factor()),
    ensures
        r.spec_value() == ratv_div(q.spec_value(), U::spec_factor()),
        q.spec_value().wf() ==> r.spec_value().wf(),
{
    proof {
        U::factor_nonzero();
        if q.spec_value().wf() {
            lemma_mul_nonzero(q.spec_value().d, U::spec_factor().n);
        }
    }
    <U::Base as Quantity>::new(q.value().div(U::factor()))
}

/// The reverse step: multiplies a base-unit value by `U`'s factor and wraps
/// the result as a quantity of `T`.
pub fn quantity_from_base<U: Unit, T: Unit<Base = U::Base>>(base: U::Base) -> (r: T)
    requires
        mul_fits(base.spec_value(), U::spec_factor()),
    ensures
        r.spec_value() == ratv_mul(base.spec_value(), U::spec_factor()),
        base.spec_value().wf() ==> r.spec_value().wf(),
{
    proof {
        U::factor_nonzero();
        if base.spec_value().wf() {
            lemma_mul_nonzero(base.spec_value().d, U::spec_factor().d);
        }
    }
    T::new(base.value().mul(U::factor()))
}

/// A full conversion: route `q` through the shared base into unit `T`.
pub fn convert<U: Unit, T: Unit<Base = U::Base>>(q: U) -> (r: T)
    requires
        convert_fits(q.spec_value(), U::spec_factor(), T::spec_factor()),
    ensures
        r.spec_value() == convert_model(q.spec_value(), U::spec_factor(), T::spec_factor()),
        q.spec_value().wf() ==> r.spec_value().wf(),
{
    proof {
        U::factor_nonzero();
        T::factor_nonzero();
        if q.spec_value().wf() {
            lemma_mul_nonzero(q.spec_value().d, U::spec_factor().n);
            lemma_mul_nonzero(q.spec_value().d * U::spec_factor().n, T::spec_factor().d);
        }
    }
    quantity_from_base::<T, T>(quantity_to_base(q))
}

/// A wrapper around one raw rational value.
///
/// This is the capability a unit type needs before any scaling enters the
/// picture: read the raw payload back out, and build a fresh wrapper from a
/// raw value. It stands on its own so that a unit's base can be named as a
/// quantity without the trait of units referring to itself.
pub trait Quantity: Sized {
    /// The raw value this quantity wraps.
    spec fn spec_value(self) -> RatV;

    /// Reads the raw numeric payload back out of a quantity.
    fn value(&self) -> (r: Rat)
        ensures
            r@ == self.spec_value(),
    ;

    /// Wraps a raw value as a quantity of this unit. Total: every
    /// representable value is accepted.
    fn new(data: Rat) -> (q: Self)
        ensures
            q.spec_value() == data@,
    ;
}

/// A unit of measure.
///
/// An implementing type is a quantity tagged with the unit's identity.
/// `Base` names the one unit this unit is scaled against; a base unit
/// names itself. Two units are interconvertible exactly when they name the
/// identical base, and only then do the generic conversion and arithmetic
/// methods apply.
pub trait Unit: Quantity {
    /// The base unit this unit is declared against. A base unit names
    /// itself here, and every declared unit's base does the same.
    type Base: Quantity;

    /// The declared scale factor: one base unit equals `spec_factor()` of
    /// this unit.
    spec fn spec_factor() -> RatV;

    /// Every declared factor has a nonzero numerator and denominator: a
    /// zero scale would relate the unit to its base by no invertible step.
    proof fn factor_nonzero()
        ensures
            Self::spec_factor().n != 0,
            Self::spec_factor().d != 0,
    ;

    /// The scale factor, as a value.
    fn factor() -> (r: Rat)
        ensures
            r@ == Self::spec_factor(),
    ;
}

/// The operations every unit derives from the protocol's primitives: the
/// conversions routed through the shared base, and the arithmetic that
/// normalizes a right operand before combining raw values. A single
/// blanket implementation equips every declared unit with all of them.
pub trait UnitExt: Unit {
    /// Converts this quantity into any unit sharing its base: one divide
    /// into the base, one multiply out of it.
    fn to<T: Unit<Base = Self::Base>>(self) -> (r: T)
        requires
            convert_fits(self.spec_value(), Self::spec_factor(), T::spec_factor()),
        ensures
            r.spec_value() == convert_model(
                self.spec_value(),
                Self::spec_factor(),
                T::spec_factor(),
            ),
            self.spec_value().wf() ==> r.spec_value().wf(),
    {
        convert(self)
    }

    /// Converts this quantity into its base unit's representation.
    fn to_base(self) -> (r: Self::Base)
        requires
            div_fits(self.spec_value(), Self::spec_factor()),
        ensures
            r.spec_value() == ratv_div(self.spec_value(), Self::spec_factor()),
            self.spec_value().wf() ==> r.spec_value().wf(),
    {
        quantity_to_base(self)
    }

    /// Rebuilds a quantity from a value already expressed in the base unit,
    /// reversing the step `to_base` took.
    fn from_base<T: Unit<Base = Self::Base>>(base: Self::Base) -> (r: T)
        requires
            mul_fits(base.spec_value(), Self::spec_factor()),
        ensures
            r.spec_value() == ratv_mul(base.spec_value(), Self::spec_factor()),
            base.spec_value().wf() ==> r.spec_value().wf(),
    {
        quantity_from_base::<Self, T>(base)
    }

    /// Conversion constructor: builds a quantity of this unit from any
    /// quantity of a unit sharing its base.
    fn from_unit<T: Unit<Base = Self::Base>>(other: T) -> (r: Self)
        requires
            convert_fits(other.spec_value(), T::spec_factor(), Self::spec_factor()),
        ensures
            r.spec_value() == convert_model(
                other.spec_value(),
                T::spec_factor(),
                Self::spec_factor(),
            ),
            other.spec_value().wf() ==> r.spec_value().wf(),
    {
        convert(other)
    }

    /// Adds a quantity of any interconvertible unit, normalizing it into
    /// this unit first; the sum carries this unit's tag.
    fn add<T: Unit<Base = Self::Base>>(self, rhs: T) -> (r: Self)
        requires
            convert_fits(rhs.spec_value(), T::spec_factor(), Self::spec_factor()),
            add_fits(
                self.spec_value(),
                convert_model(rhs.spec_value(), T::spec_factor(), Self::spec_factor()),
            ),
        ensures
            r.spec_value() == ratv_add(
                self.spec_value(),
                convert_model(rhs.spec_value(), T::spec_factor(), Self::spec_factor()),
            ),
    {
        let converted: Self = convert(rhs);
        Self::new(self.value().add(converted.value()))
    }

    /// Subtracts a quantity of any interconvertible unit, normalizing it
    /// into this unit first.
    fn sub<T: Unit<Base = Self::Base>>(self, rhs: T) -> (r: Self)
        requires
            convert_fits(rhs.spec_value(), T::spec_factor(), Self::spec_factor()),
            sub_fits(
                self.spec_value(),
                convert_model(rhs.spec_value(), T::spec_factor(), Self::spec_factor()),
            ),
        ensures
            r.spec_value() == ratv_sub(
                self.spec_value(),
                convert_model(rhs.spec_value(), T::spec_factor(), Self::spec_factor()),
            ),
    {
        let converted: Self = convert(rhs);
        Self::new(self.value().sub(converted.value()))
    }

    /// Multiplies the raw values after normalizing the right operand into
    /// this unit.
    fn mul<T: Unit<Base = Self::Base>>(self, rhs: T) -> (r: Self)
        requires
            convert_fits(rhs.spec_value(), T::spec_factor(), Self::spec_factor()),
            mul_fits(
                self.spec_value(),
                convert_model(rhs.spec_value(), T::spec_factor(), Self::spec_factor()),
            ),
        ensures
            r.spec_value() == ratv_mul(
                self.spec_value(),
                convert_model(rhs.spec_value(), T::spec_factor(), Self::spec_factor()),
            ),
    {
        let converted: Self = convert(rhs);
        Self::new(self.value().mul(converted.value()))
    }

    /// Divides the raw values after normalizing the right operand into
    /// this unit.
    fn div<T: Unit<Base = Self::Base>>(self, rhs: T) -> (r: Self)
        requires
            convert_fits(rhs.spec_value(), T::spec_factor(), Self::spec_factor()),
            div_fits(
                self.spec_value(),
                convert_model(rhs.spec_value(), T::spec_factor(), Self::spec_factor()),
            ),
        ensures
            r.spec_value() == ratv_div(
                self.spec_value(),
                convert_model(rhs.spec_value(), T::spec_factor(), Self::spec_factor()),
            ),
    {
        let converted: Self = convert(rhs);
        Self::new(self.value().div(converted.value()))
    }

    /// Adds a bare raw value to this quantity's raw value.
    fn add_value(self, rhs: Rat) -> (r: Self)
        requires
            add_fits(self.spec_value(), rhs@),
        ensures
            r.spec_value() == ratv_add(self.spec_value(), rhs@),
    {
        Self::new(self.value().add(rhs))
    }

    /// Subtracts a bare raw value from this quantity's raw value.
    fn sub_value(self, rhs: Rat) -> (r: Self)
        requires
            sub_fits(self.spec_value(), rhs@),
        ensures
            r.spec_value() == ratv_sub(self.spec_value(), rhs@),
    {
        Self::new(self.value().sub(rhs))
    }

    /// Multiplies this quantity's raw value by a bare raw value.
    fn mul_value(self, rhs: Rat) -> (r: Self)
        requires
            mul_fits(self.spec_value(), rhs@),
        ensures
            r.spec_value() == ratv_mul(self.spec_value(), rhs@),
    {
        Self::new(self.value().mul(rhs))
    }

    /// Divides this quantity's raw value by a bare raw value.
    fn div_value(self, rhs: Rat) -> (r: Self)
        requires
            div_fits(self.spec_value(), rhs@),
        ensures
            r.spec_value() == ratv_div(self.spec_value(), rhs@),
    {
        Self::new(self.value().div(rhs))
    }
}

impl<U: Unit> UnitExt for U {
}

} // verus!
