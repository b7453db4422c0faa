//! The closed enumerations the styling operations draw from.

pub mod colors;
pub mod style;
pub mod symbols;

pub use colors::Color;
pub use style::Style;
pub use symbols::Symbol;
