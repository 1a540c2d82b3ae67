//! Unit-of-measure conversion through a shared base unit.
//!
//! A quantity is a raw rational value wrapped in a unit tag; every unit
//! declares one base unit and one scale factor relating it to that base.
//! Any two units sharing a base convert into one another in a single step:
//! divide by the source factor to reach the base, multiply by the target
//! factor to leave it. Units with different bases cannot be converted or
//! combined at all — the trait bounds make such an expression fail to
//! type-check rather than fail at run time.

mod laws;
mod rational;
mod unit;
mod units;

pub use laws::lemma_conversion_composition;
pub use laws::lemma_identity_conversion;
pub use laws::lemma_round_trip;

pub use unit::Quantity;
pub use unit::Unit;
pub use unit::UnitExt;
pub use unit::convert;
pub use unit::quantity_from_base;
pub use unit::quantity_to_base;

pub use unit::convert_fits;
pub use unit::convert_model;

pub use units::Centimeters;
pub use units::Feet;
pub use units::Inches;
pub use units::Meters;
pub use units::Yards;

pub use rational::Rat;
pub use rational::RatV;
pub use rational::add_fits;
pub use rational::div_fits;
pub use rational::in_i64;
pub use rational::mul_fits;
pub use rational::ratv_add;
pub use rational::ratv_div;
pub use rational::ratv_eqv;
pub use rational::ratv_mul;
pub use rational::ratv_one;
pub use rational::ratv_sub;
pub use rational::sub_fits;
