//! Quote notations, and how a notation is inferred from a quote's punctuation.
use vstd::prelude::*;

verus! {

/// The notation in which a quote is written.
#[derive(Debug, Clone, Copy, PartialEq, Eq, Structural)]
pub enum Style {
    /// Infer the notation from the quote itself.
    Detect,
    /// A conventional decimal price.
    Decimal,
    /// A cash bond or note, in 32nds with an optional eighth of a tick.
    Bond,
    /// A short note future (2 to 7 years), in 32nds and eighths of a tick.
    ShortNoteFuture,
    /// A 10 year note future, in 32nds and quarters of a tick.
    NoteFuture,
    /// A 20 or 30 year bond future, in whole 32nds.
    BondFuture,
}

/// Another name for [`Style`].
pub type QuoteStyle = Style;

/// Whether `c` occurs in `s`.
pub open spec fn has_char(s: Seq<char>, c: char) -> bool {
    s.contains(c)
}

/// The notation inferred from the sub-tick code, the fraction delimiter and
/// the sub-tick delimiter of a quote; the first rule that applies decides.
pub open spec fn detect_spec(fraction32: Seq<char>, delimiter_frac: Seq<char>, delimiter32: Seq<char>) -> Style {
    if has_char(delimiter_frac, '.') {
        Style::Decimal
    } else if has_char(fraction32, '+') {
        Style::Bond
    } else if has_char(delimiter_frac, '\'') && delimiter32.len() == 0 {
        Style::BondFuture
    } else if has_char(delimiter_frac, '\'') && has_char(delimiter32, '\'') && delimiter32.len() > 0 {
        if has_char(fraction32, '2') || has_char(fraction32, '5') || has_char(fraction32, '7') {
            Style::NoteFuture
        } else if has_char(fraction32, '1') || has_char(fraction32, '3') || has_char(fraction32, '6')
            || has_char(fraction32, '8') {
            Style::ShortNoteFuture
        } else {
            Style::Bond
        }
    } else {
        Style::Bond
    }
}

/// Whether `c` occurs in `s`.
fn contains_char(s: &str, c: char) -> (r: bool)
    ensures
        r == has_char(s@, c),
{
    for x in it: s.chars()
        invariant
            it.seq() == s@,
            forall|j: int| 0 <= j < it.index() ==> s@[j] != c,
    {
        if x == c {
            return true;
        }
    }
    false
}

impl Style {
    /// Infers the notation of a quote from its sub-tick code, its fraction
    /// delimiter and its sub-tick delimiter. Never fails and never answers
    /// `Detect`: what no rule recognizes is a bond quote.
    pub fn detect(fraction32: &str, delimiter_frac: &str, delimiter32: &str) -> (r: Style)
        ensures
            r == detect_spec(fraction32@, delimiter_frac@, delimiter32@),
            r != Style::Detect,
    {
        if contains_char(delimiter_frac, '.') {
            Style::Decimal
        } else if contains_char(fraction32, '+') {
            Style::Bond
        } else if contains_char(delimiter_frac, '\'') && delimiter32.is_empty() {
            Style::BondFuture
        } else if contains_char(delimiter_frac, '\'') && contains_char(delimiter32, '\'')
            && !delimiter32.is_empty() {
            if contains_char(fraction32, '2') || contains_char(fraction32, '5') || contains_char(
                fraction32,
                '7',
            ) {
                Style::NoteFuture
            } else if contains_char(fraction32, '1') || contains_char(fraction32, '3')
                || contains_char(fraction32, '6') || contains_char(fraction32, '8') {
                Style::ShortNoteFuture
            } else {
                Style::Bond
            }
        } else {
            Style::Bond
        }
    }

    /// A human-readable label of the notation.
    pub fn label(&self) -> (r: &'static str)
        ensures
            r@ == style_label(*self),
    {
        match self {
            Style::Detect => "Detect style of the quote",
            Style::Decimal => "Parse a decimal number",
            Style::Bond => "Bond",
            Style::ShortNoteFuture => "Short Note Future (2yr, 3yr, 5yr, 7yr)",
            Style::NoteFuture => "Note Future (10yr+)",
            Style::BondFuture => "Bond Future (20yr, 30yr)",
        }
    }
}

/// The label of each notation.
pub open spec fn style_label(s: Style) -> Seq<char> {
    match s {
        Style::Detect => "Detect style of the quote"@,
        Style::Decimal => "Parse a decimal number"@,
        Style::Bond => "Bond"@,
        Style::ShortNoteFuture => "Short Note Future (2yr, 3yr, 5yr, 7yr)"@,
        Style::NoteFuture => "Note Future (10yr+)"@,
        Style::BondFuture => "Bond Future (20yr, 30yr)"@,
    }
}

impl Default for Style {
    /// Detection is the default: the quote decides its own notation.
    fn default() -> (r: Style)
        ensures
            r == Style::Detect,
    {
        Style::Detect
    }
}

/// The detector is total: whatever the delimiters and the sub-tick code, it
/// names exactly one of the five concrete notations and never `Detect`.
pub proof fn lemma_detect_total(fraction32: Seq<char>, delimiter_frac: Seq<char>, delimiter32: Seq<char>)
    ensures
        ({
            let s = detect_spec(fraction32, delimiter_frac, delimiter32);
            s == Style::Decimal || s == Style::Bond || s == Style::ShortNoteFuture
                || s == Style::NoteFuture || s == Style::BondFuture
        }),
        detect_spec(fraction32, delimiter_frac, delimiter32) != Style::Detect,
{
}

} // verus!
