//! A dollar value held as a whole number of cents, with its arithmetic,
//! its canonical rendering and a parser for hand-written amounts.

pub mod error;
pub mod format;
pub mod laws;
pub mod money;
pub mod parse;
pub mod text;

pub use error::ParseError;
pub use money::Dollars;
