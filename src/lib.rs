//! CSS angle values: units, parsing decisions, canonical serialization and
//! the symbolic arithmetic of `calc()` expressions.
//!
//! Magnitudes are IEEE-754 binary32 numbers held as their bit patterns, so
//! that every decision this library takes about them is stated and proved
//! over plain integers.

pub mod angle;
pub mod calc;
pub mod magnitude;
pub mod serialize;
pub mod unit;

pub use angle::{lemma_dimension_form_round_trip, Angle};
pub use calc::Calc;
pub use magnitude::{float_eq, float_partial_cmp, is_negative_bits, is_zero_bits};
pub use serialize::compact_leading_zero;
pub use unit::{is_calc_function, lemma_unit_name_round_trip, AngleUnit};
