//! The errors that decoding a quote can end in.
use vstd::prelude::*;

verus! {

/// Why a quote could not be decoded.
#[derive(Debug, Clone, Copy, PartialEq, Eq, Structural)]
pub enum ParseError {
    /// The input does not start with a recognizable number.
    InvalidQuote,
    /// The whole-number part is not a valid non-negative integer, or the
    /// quote carries no tick digits.
    InvalidNumber,
    /// The tick fraction is present but is not a valid integer.
    InvalidFraction,
    /// The sub-tick code is not defined for the notation in use.
    InvalidFraction32,
    /// The notation has no reconstruction rule.
    InvalidStyle,
}

} // verus!
