//! The declared units of length.
//!
//! Two families share nothing: Meters is the base of Centimeters and
//! Yards, while Feet is the base of Inches. A conversion or a mixed-unit
//! operation across the two families names no shared base, satisfies no
//! bound, and is rejected when the program is type-checked.
//!
//! Each declaration is the same hand-expanded shape: a wrapper struct, its
//! `Quantity` impl (read a value out, wrap a value up), and its `Unit` impl
//! (the base unit, the scale factor, and the proof that the factor is
//! nonzero). Everything else — conversion and arithmetic — comes from the
//! blanket `UnitExt` implementation.

use vstd::prelude::*;

use crate::rational::Rat;
use crate::rational::RatV;
use crate::unit::Quantity;
use crate::unit::Unit;

verus! {

/// The base unit of the metric family. Its own base, with the
/// conventional identity factor; nothing depends on that factor's value
/// beyond it being nonzero.
#[derive(Clone, Copy, Debug)]
pub struct Meters(pub Rat);

impl Quantity for Meters {
    open spec fn spec_value(self) -> RatV {
        self.0@
    }

    fn value(&self) -> (r: Rat) {
        self.0
    }

    fn new(data: Rat) -> (q: Self) {
        Meters(data)
    }
}

impl Unit for Meters {
    type Base = Meters;

    open spec fn spec_factor() -> RatV {
        RatV { n: 1, d: 1 }
    }

    proof fn factor_nonzero() {
    }

    fn factor() -> (r: Rat) {
        Rat::new(1, 1)
    }
}

/// One hundredth of a meter: one meter is 100 centimeters.
#[derive(Clone, Copy, Debug)]
pub struct Centimeters(pub Rat);

impl Quantity for Centimeters {
    open spec fn spec_value(self) -> RatV {
        self.0@
    }

    fn value(&self) -> (r: Rat) {
        self.0
    }

    fn new(data: Rat) -> (q: Self) {
        Centimeters(data)
    }
}

impl Unit for Centimeters {
    type Base = Meters;

    open spec fn spec_factor() -> RatV {
        RatV { n: 100, d: 1 }
    }

    proof fn factor_nonzero() {
    }

    fn factor() -> (r: Rat) {
        Rat::new(100, 1)
    }
}

/// The imperial yard against the metric base: one meter is 1.09361 yards,
/// declared exactly as the fraction 109361 / 100000.
#[derive(Clone, Copy, Debug)]
pub struct Yards(pub Rat);

impl Quantity for Yards {
    open spec fn spec_value(self) -> RatV {
        self.0@
    }

    fn value(&self) -> (r: Rat) {
        self.0
    }

    fn new(data: Rat) -> (q: Self) {
        Yards(data)
    }
}

impl Unit for Yards {
    type Base = Meters;

    open spec fn spec_factor() -> RatV {
        RatV { n: 109361, d: 100000 }
    }

    proof fn factor_nonzero() {
    }

    fn factor() -> (r: Rat) {
        Rat::new(109361, 100000)
    }
}

/// The base unit of the imperial family. Its own base, with the
/// conventional identity factor.
#[derive(Clone, Copy, Debug)]
pub struct Feet(pub Rat);

impl Quantity for Feet {
    open spec fn spec_value(self) -> RatV {
        self.0@
    }

    fn value(&self) -> (r: Rat) {
        self.0
    }

    fn new(data: Rat) -> (q: Self) {
        Feet(data)
    }
}

impl Unit for Feet {
    type Base = Feet;

    open spec fn spec_factor() -> RatV {
        RatV { n: 1, d: 1 }
    }

    proof fn factor_nonzero() {
    }

    fn factor() -> (r: Rat) {
        Rat::new(1, 1)
    }
}

/// One twelfth of a foot: one foot is 12 inches.
#[derive(Clone, Copy, Debug)]
pub struct Inches(pub Rat);

impl Quantity for Inches {
    open spec fn spec_value(self) -> RatV {
        self.0@
    }

    fn value(&self) -> (r: Rat) {
        self.0
    }

    fn new(data: Rat) -> (q: Self) {
        Inches(data)
    }
}

impl Unit for Inches {
    type Base = Feet;

    open spec fn spec_factor() -> RatV {
        RatV { n: 12, d: 1 }
    }

    proof fn factor_nonzero() {
    }

    fn factor() -> (r: Rat) {
        Rat::new(12, 1)
    }
}

} // verus!
