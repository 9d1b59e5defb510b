//! Reconstructing a price from the parts of a quote.
use crate::digits::{digits_value, is_u64_numeral, parse_digits};
use crate::error::ParseError;
use crate::style::{detect_spec, lemma_detect_total, Style};
use crate::table::{style_table, subtick_value, FractionTable};
use crate::tokens::{is_tokenizable, token_view, tokenize};
use vstd::prelude::*;

verus! {

/// A price, exactly, in 256ths of a unit: one 256th is an eighth of a tick,
/// the finest step any notation can write.
#[derive(Debug, Clone, Copy, PartialEq, Eq, Structural)]
pub struct Price {
    pub units: u128,
}

/// The price written by a whole number, a tick fraction and a sub-tick code,
/// in 256ths: `number + (fraction + sub-tick) / 32`, where the sub-tick is
/// looked up in `t` (in eighths of a tick) and an empty tick fraction counts
/// as zero.
pub open spec fn quote_units(number: Seq<char>, fraction: Seq<char>, fraction32: Seq<char>, t: FractionTable) -> Result<int, ParseError> {
    if !is_u64_numeral(number) {
        Err(ParseError::InvalidNumber)
    } else if fraction.len() > 0 && !is_u64_numeral(fraction) {
        Err(ParseError::InvalidFraction)
    } else {
        match subtick_value(t, fraction32) {
            None => Err(ParseError::InvalidFraction32),
            Some(e) => Ok(digits_value(number) * 256 + digits_value(fraction) * 8 + e),
        }
    }
}

/// Whether `r` is the outcome `m`: the same error, or a price of `m` 256ths.
pub open spec fn is_price_of(r: Result<Price, ParseError>, m: Result<int, ParseError>) -> bool {
    match m {
        Ok(u) => r matches Ok(p) && p.units as int == u,
        Err(e) => r == Err::<Price, ParseError>(e),
    }
}

/// The notation in which the quote `s` is read when `style` is asked for.
pub open spec fn resolved_style(s: Seq<char>, style: Style) -> Style {
    if style == Style::Detect {
        let t = token_view(s);
        detect_spec(t.fraction32, t.delimiter_frac, t.delimiter32)
    } else {
        style
    }
}

/// The outcome of decoding the quote `s` in notation `style`, in 256ths.
/// A quote that reaches this point carries its two tick digits: without them
/// its number is not valid in any tick notation.
pub open spec fn decode_units(s: Seq<char>, style: Style) -> Result<int, ParseError> {
    if !is_tokenizable(s) {
        Err(ParseError::InvalidQuote)
    } else {
        let t = token_view(s);
        match style_table(resolved_style(s, style)) {
            None => Err(ParseError::InvalidStyle),
            Some(table) => if t.fraction.len() == 0 {
                Err(ParseError::InvalidNumber)
            } else {
                quote_units(t.number, t.fraction, t.fraction32, table)
            },
        }
    }
}

/// Reconstructs a price from its whole number, its tick fraction and its
/// sub-tick code, looking the code up in `table`.
pub fn parse_quote(number: &str, fraction: &str, fraction32: &str, table: FractionTable) -> (r: Result<Price, ParseError>)
    ensures
        is_price_of(r, quote_units(number@, fraction@, fraction32@, table)),
{
    let n = match parse_digits(number) {
        Some(v) => v,
        None => return Err(ParseError::InvalidNumber),
    };
    let f: u64 = if fraction.unicode_len() == 0 {
        0
    } else {
        match parse_digits(fraction) {
            Some(v) => v,
            None => return Err(ParseError::InvalidFraction),
        }
    };
    let code_len = fraction32.unicode_len();
    let e: u8 = if table == FractionTable::BondFuture || code_len == 0 {
        0
    } else if code_len == 1 {
        match table.lookup(fraction32.get_char(0)) {
            Some(v) => v,
            None => return Err(ParseError::InvalidFraction32),
        }
    } else {
        return Err(ParseError::InvalidFraction32);
    };
    Ok(Price { units: n as u128 * 256 + f as u128 * 8 + e as u128 })
}

/// Reconstructs a cash bond or note price.
pub fn parse_treasury_price(number: &str, fraction: &str, fraction32: &str) -> (r: Result<Price, ParseError>)
    ensures
        is_price_of(r, quote_units(number@, fraction@, fraction32@, FractionTable::Bond)),
{
    parse_quote(number, fraction, fraction32, FractionTable::Bond)
}

/// Reconstructs a short note future price (2, 3 and 5 year notes).
pub fn parse_short_term_note_future_price(number: &str, fraction: &str, fraction32: &str) -> (r: Result<Price, ParseError>)
    ensures
        is_price_of(r, quote_units(number@, fraction@, fraction32@, FractionTable::ShortNoteFuture)),
{
    parse_quote(number, fraction, fraction32, FractionTable::ShortNoteFuture)
}

/// Reconstructs a note future price (10 year notes).
pub fn parse_note_future_price(number: &str, fraction: &str, fraction32: &str) -> (r: Result<Price, ParseError>)
    ensures
        is_price_of(r, quote_units(number@, fraction@, fraction32@, FractionTable::NoteFuture)),
{
    parse_quote(number, fraction, fraction32, FractionTable::NoteFuture)
}

/// Reconstructs a bond future price (20 and 30 year bonds); any sub-tick
/// code is ignored.
pub fn parse_bond_future_price(number: &str, fraction: &str, fraction32: &str) -> (r: Result<Price, ParseError>)
    ensures
        is_price_of(r, quote_units(number@, fraction@, fraction32@, FractionTable::BondFuture)),
{
    parse_quote(number, fraction, fraction32, FractionTable::BondFuture)
}

/// Decodes a quote written in ticks. The quote is split into its parts;
/// under `Style::Detect` its notation is inferred from them; the price is
/// then reconstructed with that notation's table. A plain decimal number is
/// read by the caller before this, as a number.
pub fn decode(s: &str, style: Style) -> (r: Result<Price, ParseError>)
    ensures
        is_price_of(r, decode_units(s@, style)),
{
    let t = match tokenize(s) {
        Ok(t) => t,
        Err(e) => return Err(e),
    };
    let resolved = if style == Style::Detect {
        Style::detect(t.fraction32.as_str(), t.delimiter_frac.as_str(), t.delimiter32.as_str())
    } else {
        style
    };
    let table = match resolved.table() {
        Some(table) => table,
        None => return Err(ParseError::InvalidStyle),
    };
    if t.fraction.as_str().is_empty() {
        return Err(ParseError::InvalidNumber);
    }
    parse_quote(t.number.as_str(), t.fraction.as_str(), t.fraction32.as_str(), table)
}

/// Detecting the notation of a quote and then asking for that notation
/// explicitly decodes the quote to the same outcome as letting detection
/// run, for every quote the tokenizer accepts.
pub proof fn lemma_detect_then_force(s: Seq<char>)
    requires
        is_tokenizable(s),
    ensures
        ({
            let t = token_view(s);
            decode_units(s, detect_spec(t.fraction32, t.delimiter_frac, t.delimiter32))
                == decode_units(s, Style::Detect)
        }),
{
    let t = token_view(s);
    lemma_detect_total(t.fraction32, t.delimiter_frac, t.delimiter32);
}

} // verus!
