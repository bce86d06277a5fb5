//! Decimal text of integers: the debug form of an integer primary key.

use crate::text::DebugText;
use vstd::prelude::*;

verus! {

/// The character of a decimal digit.
pub open spec fn digit(d: int) -> char
    recommends
        0 <= d < 10,
{
    if d == 0 {
        '0'
    } else if d == 1 {
        '1'
    } else if d == 2 {
        '2'
    } else if d == 3 {
        '3'
    } else if d == 4 {
        '4'
    } else if d == 5 {
        '5'
    } else if d == 6 {
        '6'
    } else if d == 7 {
        '7'
    } else if d == 8 {
        '8'
    } else {
        '9'
    }
}

/// The decimal digits of a natural number, the most significant first and
/// without leading zeros.
pub open spec fn decimal_digits(n: nat) -> Seq<char>
    decreases n,
{
    if n < 10 {
        seq![digit(n as int)]
    } else {
        decimal_digits(n / 10).push(digit((n % 10) as int))
    }
}

/// The decimal text of an integer: a minus sign before the digits of a
/// negative number.
pub open spec fn decimal_text(n: int) -> Seq<char> {
    if n < 0 {
        seq!['-'] + decimal_digits((-n) as nat)
    } else {
        decimal_digits(n as nat)
    }
}

fn digit_str(d: u8) -> (text: &'static str)
    requires
        d < 10,
    ensures
        text@ == seq![digit(d as int)],
{
    proof {
        reveal_strlit("0");
        reveal_strlit("1");
        reveal_strlit("2");
        reveal_strlit("3");
        reveal_strlit("4");
        reveal_strlit("5");
        reveal_strlit("6");
        reveal_strlit("7");
        reveal_strlit("8");
        reveal_strlit("9");
    }
    let text: &'static str = if d == 0 {
        "0"
    } else if d == 1 {
        "1"
    } else if d == 2 {
        "2"
    } else if d == 3 {
        "3"
    } else if d == 4 {
        "4"
    } else if d == 5 {
        "5"
    } else if d == 6 {
        "6"
    } else if d == 7 {
        "7"
    } else if d == 8 {
        "8"
    } else {
        "9"
    };
    assert(text@ =~= seq![digit(d as int)]);
    text
}

/// Writes a natural number in decimal.
pub fn unsigned_decimal(n: u128) -> (text: String)
    ensures
        text@ == decimal_digits(n as nat),
    decreases n,
{
    if n < 10 {
        digit_str(n as u8).to_owned()
    } else {
        let mut text = unsigned_decimal(n / 10);
        let last: &'static str = digit_str((n % 10) as u8);
        text.append(last);
        assert(text@ =~= decimal_digits((n / 10) as nat).push(digit((n % 10) as int)));
        text
    }
}

/// Writes an integer in decimal.
pub fn signed_decimal(n: i128) -> (text: String)
    ensures
        text@ == decimal_text(n as int),
{
    if n < 0 {
        let magnitude: u128 = (-(n + 1)) as u128 + 1;
        let digits = unsigned_decimal(magnitude);
        let mut text = "-".to_owned();
        proof {
            reveal_strlit("-");
            assert("-"@ =~= seq!['-']);
        }
        text.append(digits.as_str());
        text
    } else {
        unsigned_decimal(n as u128)
    }
}

impl DebugText for i8 {
    open spec fn debug_text(&self) -> Seq<char> {
        decimal_text(*self as int)
    }

    fn to_debug_text(&self) -> (text: String) {
        signed_decimal(*self as i128)
    }
}

impl DebugText for i16 {
    open spec fn debug_text(&self) -> Seq<char> {
        decimal_text(*self as int)
    }

    fn to_debug_text(&self) -> (text: String) {
        signed_decimal(*self as i128)
    }
}

impl DebugText for i32 {
    open spec fn debug_text(&self) -> Seq<char> {
        decimal_text(*self as int)
    }

    fn to_debug_text(&self) -> (text: String) {
        signed_decimal(*self as i128)
    }
}

impl DebugText for i64 {
    open spec fn debug_text(&self) -> Seq<char> {
        decimal_text(*self as int)
    }

    fn to_debug_text(&self) -> (text: String) {
        signed_decimal(*self as i128)
    }
}

impl DebugText for isize {
    open spec fn debug_text(&self) -> Seq<char> {
        decimal_text(*self as int)
    }

    fn to_debug_text(&self) -> (text: String) {
        signed_decimal(*self as i128)
    }
}

impl DebugText for u8 {
    open spec fn debug_text(&self) -> Seq<char> {
        decimal_text(*self as int)
    }

    fn to_debug_text(&self) -> (text: String) {
        unsigned_decimal(*self as u128)
    }
}

impl DebugText for u16 {
    open spec fn debug_text(&self) -> Seq<char> {
        decimal_text(*self as int)
    }

    fn to_debug_text(&self) -> (text: String) {
        unsigned_decimal(*self as u128)
    }
}

impl DebugText for u32 {
    open spec fn debug_text(&self) -> Seq<char> {
        decimal_text(*self as int)
    }

    fn to_debug_text(&self) -> (text: String) {
        unsigned_decimal(*self as u128)
    }
}

impl DebugText for u64 {
    open spec fn debug_text(&self) -> Seq<char> {
        decimal_text(*self as int)
    }

    fn to_debug_text(&self) -> (text: String) {
        unsigned_decimal(*self as u128)
    }
}

impl DebugText for usize {
    open spec fn debug_text(&self) -> Seq<char> {
        decimal_text(*self as int)
    }

    fn to_debug_text(&self) -> (text: String) {
        unsigned_decimal(*self as u128)
    }
}

} // verus!
