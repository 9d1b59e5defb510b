//! The fractional-tick tables: what a sub-tick code adds to a price, in
//! eighths of a tick, for each notation.
use crate::style::Style;
use vstd::prelude::*;

verus! {

/// The sub-tick table of one notation.
#[derive(Debug, Clone, Copy, PartialEq, Eq, Structural)]
pub enum FractionTable {
    /// Cash bonds and notes: the code is the number of eighths, `0` to `7`.
    Bond,
    /// Short note futures: eighths, coded `0 1 2 3 5 6 7 8` (`4` is skipped).
    ShortNoteFuture,
    /// Note futures: quarters, coded `0 2 5 7`.
    NoteFuture,
    /// Bond futures: quoted in whole ticks, so any code adds nothing.
    BondFuture,
}

/// The code that `+` (half a tick) stands for in table `t`.
pub open spec fn half_code(t: FractionTable) -> char {
    match t {
        FractionTable::Bond => '4',
        _ => '5',
    }
}

/// What the single code `c` adds in table `t`, in eighths of a tick, or
/// `None` where the table does not define it. A `+` reads as the table's
/// half-tick code.
pub open spec fn table_value(t: FractionTable, c: char) -> Option<u8> {
    let c = if c == '+' {
        half_code(t)
    } else {
        c
    };
    match t {
        FractionTable::Bond => match c {
            '0' => Some(0u8),
            '1' => Some(1u8),
            '2' => Some(2u8),
            '3' => Some(3u8),
            '4' => Some(4u8),
            '5' => Some(5u8),
            '6' => Some(6u8),
            '7' => Some(7u8),
            _ => None,
        },
        FractionTable::ShortNoteFuture => match c {
            '0' => Some(0u8),
            '1' => Some(1u8),
            '2' => Some(2u8),
            '3' => Some(3u8),
            '5' => Some(4u8),
            '6' => Some(5u8),
            '7' => Some(6u8),
            '8' => Some(7u8),
            _ => None,
        },
        FractionTable::NoteFuture => match c {
            '0' => Some(0u8),
            '2' => Some(2u8),
            '5' => Some(4u8),
            '7' => Some(6u8),
            _ => None,
        },
        FractionTable::BondFuture => Some(0u8),
    }
}

/// What the sub-tick part `code` adds in table `t`, in eighths of a tick: an
/// empty code adds nothing, one character is looked up, and a longer code
/// is not defined. The bond-future table ignores the code altogether.
pub open spec fn subtick_value(t: FractionTable, code: Seq<char>) -> Option<u8> {
    if t == FractionTable::BondFuture || code.len() == 0 {
        Some(0u8)
    } else if code.len() == 1 {
        table_value(t, code[0])
    } else {
        None
    }
}

/// The table that reconstructs prices in notation `s`: none for `Decimal`,
/// which only plain numbers use, nor for an unresolved `Detect`.
pub open spec fn style_table(s: Style) -> Option<FractionTable> {
    match s {
        Style::Bond => Some(FractionTable::Bond),
        Style::ShortNoteFuture => Some(FractionTable::ShortNoteFuture),
        Style::NoteFuture => Some(FractionTable::NoteFuture),
        Style::BondFuture => Some(FractionTable::BondFuture),
        _ => None,
    }
}

impl FractionTable {
    /// What the code `c` adds, in eighths of a tick, or `None` where this
    /// table does not define it.
    pub fn lookup(&self, c: char) -> (r: Option<u8>)
        ensures
            r == table_value(*self, c),
            r matches Some(v) ==> v < 8,
    {
        let c = if c == '+' {
            match self {
                FractionTable::Bond => '4',
                _ => '5',
            }
        } else {
            c
        };
        match self {
            FractionTable::Bond => match c {
                '0' => Some(0),
                '1' => Some(1),
                '2' => Some(2),
                '3' => Some(3),
                '4' => Some(4),
                '5' => Some(5),
                '6' => Some(6),
                '7' => Some(7),
                _ => None,
            },
            FractionTable::ShortNoteFuture => match c {
                '0' => Some(0),
                '1' => Some(1),
                '2' => Some(2),
                '3' => Some(3),
                '5' => Some(4),
                '6' => Some(5),
                '7' => Some(6),
                '8' => Some(7),
                _ => None,
            },
            FractionTable::NoteFuture => match c {
                '0' => Some(0),
                '2' => Some(2),
                '5' => Some(4),
                '7' => Some(6),
                _ => None,
            },
            FractionTable::BondFuture => Some(0),
        }
    }
}

impl Style {
    /// The table that reconstructs prices in this notation; `None` for
    /// `Decimal` and `Detect`.
    pub fn table(&self) -> (r: Option<FractionTable>)
        ensures
            r == style_table(*self),
    {
        match self {
            Style::Bond => Some(FractionTable::Bond),
            Style::ShortNoteFuture => Some(FractionTable::ShortNoteFuture),
            Style::NoteFuture => Some(FractionTable::NoteFuture),
            Style::BondFuture => Some(FractionTable::BondFuture),
            _ => None,
        }
    }
}

} // verus!
