//! A model of a single semiconductor diode: its four physical parameters,
//! checked against the rules that make them physically meaningful.
//!
//! Each parameter is an IEEE-754 binary64 number, held as its bit pattern so
//! that every check on it is exact integer logic.
pub mod binary64;
pub mod diode;

pub use binary64::Binary64;
pub use diode::{Diode, DiodeValueError};
