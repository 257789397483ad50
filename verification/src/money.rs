//! Amounts of money as text. The functions here take an amount as a whole
//! number of hundredths; `to_hundredths` turns a number of whole units, which
//! is what a transaction holds, into that.

use crate::amount_range_map::{decimal_of, decimal_text};
use crate::text::joined;
use vstd::prelude::*;

verus! {

/// A number below one hundred written with two digits.
pub open spec fn two_digits_of(n: nat) -> Seq<char> {
    if n < 10 {
        seq!['0'] + decimal_of(n)
    } else {
        decimal_of(n)
    }
}

/// An amount written with two decimal places.
pub open spec fn money_of(hundredths: u64) -> Seq<char> {
    decimal_of((hundredths / 100) as nat) + seq!['.'] + two_digits_of((hundredths % 100) as nat)
}

/// An amount rounded to a whole number, a half going to the even neighbour.
pub open spec fn rounded(hundredths: u64) -> nat {
    let whole = hundredths / 100;
    let rest = hundredths % 100;
    if rest > 50 || (rest == 50 && whole % 2 == 1) {
        (whole + 1) as nat
    } else {
        whole as nat
    }
}

/// An amount written without decimal places.
pub open spec fn whole_money_of(hundredths: u64) -> Seq<char> {
    decimal_of(rounded(hundredths))
}

/// An amount raised by another, clamped at what a `u64` holds.
pub open spec fn raised_by(hundredths: u64, more: u64) -> u64 {
    if hundredths + more <= u64::MAX {
        (hundredths + more) as u64
    } else {
        u64::MAX
    }
}

/// An amount of whole units in hundredths, clamped at what a `u64` holds.
pub open spec fn hundredths_of(units: u64) -> u64 {
    if units * 100 <= u64::MAX {
        (units * 100) as u64
    } else {
        u64::MAX
    }
}

/// Turns an amount of whole units into hundredths.
pub fn to_hundredths(units: u64) -> (hundredths: u64)
    ensures
        hundredths == hundredths_of(units),
{
    if units <= u64::MAX / 100 {
        units * 100
    } else {
        u64::MAX
    }
}

/// Writes an amount with two decimal places.
pub fn money_text(hundredths: u64) -> (text: String)
    ensures
        text@ == money_of(hundredths),
{
    proof {
        reveal_strlit(".");
        reveal_strlit("0");
    }
    let whole = decimal_text(hundredths / 100);
    let rest = hundredths % 100;
    let head = joined(whole.as_str(), ".");
    let digits = decimal_text(rest);
    let tail = if rest < 10 {
        joined("0", digits.as_str())
    } else {
        digits
    };
    let text = joined(head.as_str(), tail.as_str());
    assert(text@ =~= money_of(hundredths));
    text
}

/// Writes an amount without decimal places.
pub fn whole_money_text(hundredths: u64) -> (text: String)
    ensures
        text@ == whole_money_of(hundredths),
{
    let whole = hundredths / 100;
    let rest = hundredths % 100;
    let shown = if rest > 50 || (rest == 50 && whole % 2 == 1) {
        whole + 1
    } else {
        whole
    };
    decimal_text(shown)
}

/// Raises an amount by another.
pub fn raise(hundredths: u64, more: u64) -> (sum: u64)
    ensures
        sum == raised_by(hundredths, more),
{
    hundredths.saturating_add(more)
}

} // verus!
