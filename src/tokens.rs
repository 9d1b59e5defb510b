//! Splitting a quote into its parts.
//!
//! A quote starts with a run of digits (the whole number). Then, each part
//! optional and taken when present: one fraction delimiter (`.`, `-` or `'`),
//! two tick digits, a sub-tick delimiter `'`, and a sub-tick code (one digit
//! or `+`). What follows is not looked at.
use crate::digits::is_digit;
use crate::error::ParseError;
use vstd::prelude::*;

verus! {

/// Whether `c` may separate the whole number from the tick digits.
pub open spec fn is_fraction_delimiter(c: char) -> bool {
    c == '.' || c == '-' || c == '\''
}

/// Whether `c` may be a sub-tick code.
pub open spec fn is_subtick_code(c: char) -> bool {
    is_digit(c) || c == '+'
}

/// Where the run of digits that starts at `i` ends.
pub open spec fn digit_run_end(s: Seq<char>, i: int) -> int
    decreases s.len() - i,
{
    if 0 <= i < s.len() && is_digit(s[i]) {
        digit_run_end(s, i + 1)
    } else {
        i
    }
}

/// Where the whole number ends.
pub open spec fn number_end(s: Seq<char>) -> int {
    digit_run_end(s, 0)
}

/// Where the fraction delimiter ends.
pub open spec fn delimiter_end(s: Seq<char>) -> int {
    let p = number_end(s);
    if p < s.len() && is_fraction_delimiter(s[p]) {
        p + 1
    } else {
        p
    }
}

/// Where the two tick digits end.
pub open spec fn fraction_end(s: Seq<char>) -> int {
    let p = delimiter_end(s);
    if p + 2 <= s.len() && is_digit(s[p]) && is_digit(s[p + 1]) {
        p + 2
    } else {
        p
    }
}

/// Where the sub-tick delimiter ends.
pub open spec fn delimiter32_end(s: Seq<char>) -> int {
    let p = fraction_end(s);
    if p < s.len() && s[p] == '\'' {
        p + 1
    } else {
        p
    }
}

/// Where the sub-tick code ends.
pub open spec fn fraction32_end(s: Seq<char>) -> int {
    let p = delimiter32_end(s);
    if p < s.len() && is_subtick_code(s[p]) {
        p + 1
    } else {
        p
    }
}

/// The parts of a quote, each empty where the quote lacks it.
pub struct TokenView {
    pub number: Seq<char>,
    pub delimiter_frac: Seq<char>,
    pub fraction: Seq<char>,
    pub delimiter32: Seq<char>,
    pub fraction32: Seq<char>,
}

/// The parts of the quote `s`.
pub open spec fn token_view(s: Seq<char>) -> TokenView {
    TokenView {
        number: s.subrange(0, number_end(s)),
        delimiter_frac: s.subrange(number_end(s), delimiter_end(s)),
        fraction: s.subrange(delimiter_end(s), fraction_end(s)),
        delimiter32: s.subrange(fraction_end(s), delimiter32_end(s)),
        fraction32: s.subrange(delimiter32_end(s), fraction32_end(s)),
    }
}

/// Whether `s` starts the way a quote must: with a digit.
pub open spec fn is_tokenizable(s: Seq<char>) -> bool {
    number_end(s) > 0
}

/// The parts of a quote.
pub struct Tokens {
    /// The whole number: one digit or more.
    pub number: String,
    /// `.`, `-`, `'` or empty.
    pub delimiter_frac: String,
    /// Two tick digits, or empty.
    pub fraction: String,
    /// `'` or empty.
    pub delimiter32: String,
    /// One digit, `+`, or empty.
    pub fraction32: String,
}

impl View for Tokens {
    type V = TokenView;

    open spec fn view(&self) -> TokenView {
        TokenView {
            number: self.number@,
            delimiter_frac: self.delimiter_frac@,
            fraction: self.fraction@,
            delimiter32: self.delimiter32@,
            fraction32: self.fraction32@,
        }
    }
}

/// The characters of `s`, in order.
fn chars_of(s: &str) -> (v: Vec<char>)
    ensures
        v@ == s@,
{
    let mut v: Vec<char> = Vec::new();
    for c in it: s.chars()
        invariant
            it.seq() == s@,
            v@ == s@.subrange(0, it.index() as int),
    {
        v.push(c);
    }
    assert(s@.subrange(0, s@.len() as int) =~= s@);
    v
}

/// The end of the part that spans `[p, p + 1)` of `v` when `v[p]` is one of
/// `a`, `b` or `c`, and is empty otherwise.
fn one_of(v: &Vec<char>, p: usize, a: char, b: char, c: char) -> (r: usize)
    requires
        p <= v@.len(),
    ensures
        r == (if p < v@.len() && (v@[p as int] == a || v@[p as int] == b || v@[p as int] == c) {
            p + 1
        } else {
            p as int
        }),
{
    if p < v.len() && (v[p] == a || v[p] == b || v[p] == c) {
        p + 1
    } else {
        p
    }
}

/// Splits a quote into its parts. Fails with `InvalidQuote` exactly when
/// the quote does not start with a digit; anything after the parts that
/// were recognized is ignored.
pub fn tokenize(s: &str) -> (r: Result<Tokens, ParseError>)
    ensures
        is_tokenizable(s@) <==> r is Ok,
        r matches Ok(t) ==> t@ == token_view(s@),
        r matches Err(e) ==> e == ParseError::InvalidQuote,
{
    let v = chars_of(s);
    let n = v.len();
    let mut i: usize = 0;
    while i < n && '0' <= v[i] && v[i] <= '9'
        invariant
            v@ == s@,
            n == s@.len(),
            i <= n,
            digit_run_end(s@, 0) == digit_run_end(s@, i as int),
        decreases n - i,
    {
        i = i + 1;
    }
    if i == 0 {
        return Err(ParseError::InvalidQuote);
    }
    let number_end = i;
    let delimiter_end = one_of(&v, number_end, '.', '-', '\'');
    let mut fraction_end = delimiter_end;
    if delimiter_end < n && n - delimiter_end >= 2 {
        let c0 = v[delimiter_end];
        let c1 = v[delimiter_end + 1];
        if '0' <= c0 && c0 <= '9' && '0' <= c1 && c1 <= '9' {
            fraction_end = delimiter_end + 2;
        }
    }
    let delimiter32_end = one_of(&v, fraction_end, '\'', '\'', '\'');
    let mut fraction32_end = delimiter32_end;
    if delimiter32_end < n && (('0' <= v[delimiter32_end] && v[delimiter32_end] <= '9')
        || v[delimiter32_end] == '+') {
        fraction32_end = delimiter32_end + 1;
    }
    let t = Tokens {
        number: s.substring_char(0, number_end).to_owned(),
        delimiter_frac: s.substring_char(number_end, delimiter_end).to_owned(),
        fraction: s.substring_char(delimiter_end, fraction_end).to_owned(),
        delimiter32: s.substring_char(fraction_end, delimiter32_end).to_owned(),
        fraction32: s.substring_char(delimiter32_end, fraction32_end).to_owned(),
    };
    Ok(t)
}

} // verus!
