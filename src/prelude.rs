//! The items most callers need, in one place.
use vstd::prelude::*;

pub use crate::error::ParseError;
pub use crate::price::{decode, parse_quote, Price};
pub use crate::style::{QuoteStyle, Style};
pub use crate::table::FractionTable;

verus! {

/// A wrapper of one value, for giving a foreign type a local name.
pub struct W<T>(pub T);

} // verus!
