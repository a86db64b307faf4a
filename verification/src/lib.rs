//! Geometric primitives: a one-dimensional closed interval `Range` and a
//! two-dimensional axis-aligned rectangle `Range2D`, over any of the built-in
//! integer types, with verified overlap tests and decimal text rendering.

pub mod decimal;
pub mod numeric;
pub mod range;
pub mod range2d;

pub use numeric::Numeric;
pub use range::Range;
pub use range::RangeImpl;
pub use range2d::Range2D;
pub use range2d::Range2DImpl;
