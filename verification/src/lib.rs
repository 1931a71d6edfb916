//! Typed CSS values: parsing from CSS text, canonical serialization, and
//! resolution of specified values into computed values.
//!
//! Numbers are exact: a [`number::CSSFloat`] counts billionths and an
//! [`geometry::Au`] counts sixtieths of a pixel, so every conversion in this
//! crate is integer arithmetic with a stated rounding direction.

pub mod computed;
pub mod decimal;
pub mod geometry;
pub mod keywords;
pub mod number;
pub mod parser;
pub mod specified;
pub mod tokens;

pub use crate::number::CSSFloat;
pub use crate::tokens::RGBA;
