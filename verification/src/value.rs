//! Scalar option values and the text each one is stored as.

use vstd::prelude::*;

verus! {

/// A value that can be stored under a key: text, a truth value or a whole
/// number.
#[derive(Debug, PartialEq, Eq)]
pub enum SettingValue {
    Text(String),
    Flag(bool),
    Number(i64),
}

/// The decimal digit for `d`, which is below ten.
pub open spec fn digit_char(d: nat) -> char {
    if d == 0 {
        '0'
    } else if d == 1 {
        '1'
    } else if d == 2 {
        '2'
    } else if d == 3 {
        '3'
    } else if d == 4 {
        '4'
    } else if d == 5 {
        '5'
    } else if d == 6 {
        '6'
    } else if d == 7 {
        '7'
    } else if d == 8 {
        '8'
    } else {
        '9'
    }
}

/// The decimal numeral of `n`, without leading zeros.
pub open spec fn nat_text(n: nat) -> Seq<char>
    decreases n,
{
    if n < 10 {
        seq![digit_char(n)]
    } else {
        nat_text(n / 10).push(digit_char(n % 10))
    }
}

/// The decimal numeral of `i`, with a leading `-` where it is negative.
pub open spec fn int_text(i: int) -> Seq<char> {
    if i < 0 {
        seq!['-'] + nat_text((-i) as nat)
    } else {
        nat_text(i as nat)
    }
}

/// What a truth value reads as.
pub open spec fn flag_text(b: bool) -> Seq<char> {
    if b {
        "true"@
    } else {
        "false"@
    }
}

impl SettingValue {
    /// The text under which the value is read back from the table.
    pub open spec fn text(self) -> Seq<char> {
        match self {
            SettingValue::Text(s) => s@,
            SettingValue::Flag(b) => flag_text(b),
            SettingValue::Number(n) => int_text(n as int),
        }
    }
}

} // verus!
