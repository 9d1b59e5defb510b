//! Decoding of treasury bond and note quotes written in thirty-seconds.
//!
//! A quote such as `104-04+` is split into its parts, its notation is
//! inferred from its punctuation unless the caller names one, and the price
//! is rebuilt exactly from the whole number, the ticks (32nds) and the
//! sub-tick code of that notation's table.
pub mod digits;
pub mod error;
pub mod prelude;
pub mod price;
pub mod style;
pub mod table;
pub mod tokens;

pub use error::ParseError;
pub use price::{
    decode, parse_bond_future_price, parse_note_future_price, parse_quote,
    parse_short_term_note_future_price, parse_treasury_price, Price,
};
pub use style::{QuoteStyle, Style};
pub use table::FractionTable;
pub use tokens::{tokenize, Tokens};
