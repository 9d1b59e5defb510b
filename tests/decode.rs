use quoteparser::digits::parse_digits;
use quoteparser::{
    decode, parse_quote, tokenize, FractionTable, ParseError, Price, Style,
};

fn as_f64(p: Price) -> f64 {
    p.units as f64 / 256.0
}

#[test]
fn bond_half_tick() {
    assert_eq!(decode("104-04+", Style::Detect), Ok(Price { units: 26660 }));
    assert_eq!(as_f64(decode("104-04+", Style::Detect).unwrap()), 104.140625);
}

#[test]
fn bond_tick_only() {
    assert_eq!(as_f64(decode("103-04", Style::Detect).unwrap()), 103.125);
}

#[test]
fn forced_short_note_future() {
    assert_eq!(as_f64(decode("102'18'5", Style::ShortNoteFuture).unwrap()), 102.578125);
}

#[test]
fn undefined_subtick_for_note_future() {
    assert_eq!(decode("103'25'9", Style::NoteFuture), Err(ParseError::InvalidFraction32));
    assert_eq!(decode("103'25'1", Style::NoteFuture), Err(ParseError::InvalidFraction32));
    assert_eq!(decode("103'25'8", Style::NoteFuture), Err(ParseError::InvalidFraction32));
}

#[test]
fn comma_is_not_a_delimiter() {
    assert_eq!(decode("104,04", Style::Detect), Err(ParseError::InvalidNumber));
}

#[test]
fn detected_style_forced_gives_same_price() {
    for s in ["104-04+", "103-04", "126'25", "111'11'5", "110'11'3", "103-253", "104,04", "104.5x", "99'01'9"].iter() {
        let t = tokenize(s).unwrap();
        let detected = Style::detect(&t.fraction32, &t.delimiter_frac, &t.delimiter32);
        assert_eq!(decode(s, detected), decode(s, Style::Detect));
    }
}

#[test]
fn empty_or_non_digit_start_is_invalid_quote() {
    assert_eq!(decode("", Style::Detect), Err(ParseError::InvalidQuote));
    assert_eq!(decode("-104-04", Style::Bond), Err(ParseError::InvalidQuote));
    assert_eq!(decode("tum4", Style::Detect), Err(ParseError::InvalidQuote));
}

#[test]
fn decimal_past_the_plain_number_is_invalid_style() {
    assert_eq!(decode("104.5x", Style::Detect), Err(ParseError::InvalidStyle));
    assert_eq!(decode("103-04", Style::Decimal), Err(ParseError::InvalidStyle));
}

#[test]
fn number_too_large_is_invalid_number() {
    assert_eq!(decode("99999999999999999999-04", Style::Bond), Err(ParseError::InvalidNumber));
    assert_eq!(
        decode("18446744073709551615-04", Style::Bond),
        Ok(Price { units: 18446744073709551615u128 * 256 + 32 })
    );
}

#[test]
fn bond_future_ignores_the_subtick() {
    assert_eq!(as_f64(decode("126'25'9", Style::BondFuture).unwrap()), 126.78125);
}

#[test]
fn trailing_text_is_ignored() {
    assert_eq!(as_f64(decode("103-04abc", Style::Detect).unwrap()), 103.125);
    assert_eq!(as_f64(decode("103-2537", Style::Detect).unwrap()), 103.0 + 25.375 / 32.0);
}

#[test]
fn plus_is_half_a_tick_in_every_table() {
    for table in [FractionTable::Bond, FractionTable::ShortNoteFuture, FractionTable::NoteFuture].iter() {
        assert_eq!(table.lookup('+'), Some(4));
    }
    assert_eq!(FractionTable::BondFuture.lookup('+'), Some(0));
}

#[test]
fn table_values() {
    assert_eq!(FractionTable::Bond.lookup('7'), Some(7));
    assert_eq!(FractionTable::Bond.lookup('8'), None);
    assert_eq!(FractionTable::ShortNoteFuture.lookup('4'), None);
    assert_eq!(FractionTable::ShortNoteFuture.lookup('8'), Some(7));
    assert_eq!(FractionTable::NoteFuture.lookup('7'), Some(6));
    assert_eq!(FractionTable::NoteFuture.lookup('3'), None);
    assert_eq!(FractionTable::BondFuture.lookup('9'), Some(0));
}

#[test]
fn style_tables() {
    assert_eq!(Style::Bond.table(), Some(FractionTable::Bond));
    assert_eq!(Style::BondFuture.table(), Some(FractionTable::BondFuture));
    assert_eq!(Style::Decimal.table(), None);
    assert_eq!(Style::Detect.table(), None);
}

#[test]
fn reconstructor_errors() {
    assert_eq!(parse_quote("1x", "04", "", FractionTable::Bond), Err(ParseError::InvalidNumber));
    assert_eq!(parse_quote("", "04", "", FractionTable::Bond), Err(ParseError::InvalidNumber));
    assert_eq!(parse_quote("103", "x1", "", FractionTable::Bond), Err(ParseError::InvalidFraction));
    assert_eq!(parse_quote("103", "04", "9", FractionTable::Bond), Err(ParseError::InvalidFraction32));
    assert_eq!(parse_quote("103", "04", "12", FractionTable::Bond), Err(ParseError::InvalidFraction32));
}

#[test]
fn reconstructor_empty_fraction_is_zero() {
    assert_eq!(parse_quote("103", "", "", FractionTable::Bond), Ok(Price { units: 103 * 256 }));
}

#[test]
fn tokenize_parts() {
    let t = tokenize("102'18'5xyz").unwrap();
    assert_eq!(t.number, "102");
    assert_eq!(t.delimiter_frac, "'");
    assert_eq!(t.fraction, "18");
    assert_eq!(t.delimiter32, "'");
    assert_eq!(t.fraction32, "5");
    let t = tokenize("104,04").unwrap();
    assert_eq!(t.number, "104");
    assert_eq!(t.delimiter_frac, "");
    assert_eq!(t.fraction, "");
    assert_eq!(t.fraction32, "");
    assert!(tokenize("x1").is_err());
}

#[test]
fn digits_read_as_numbers() {
    assert_eq!(parse_digits("0042"), Some(42));
    assert_eq!(parse_digits(""), None);
    assert_eq!(parse_digits("4a"), None);
    assert_eq!(parse_digits("18446744073709551615"), Some(u64::MAX));
    assert_eq!(parse_digits("18446744073709551616"), None);
}
