//! Writing numbers as text.

use vstd::prelude::*;
use vstd::string::StringExecFns;

verus! {

/// The character of the decimal digit `digit`.
pub open spec fn spec_digit(digit: int) -> char {
    if digit == 0 {
        '0'
    } else if digit == 1 {
        '1'
    } else if digit == 2 {
        '2'
    } else if digit == 3 {
        '3'
    } else if digit == 4 {
        '4'
    } else if digit == 5 {
        '5'
    } else if digit == 6 {
        '6'
    } else if digit == 7 {
        '7'
    } else if digit == 8 {
        '8'
    } else {
        '9'
    }
}

/// The decimal digits of the natural number `number`, most significant
/// first, without leading zeros.
pub open spec fn spec_digits(number: nat) -> Seq<char>
    decreases number,
{
    if number < 10 {
        seq![spec_digit(number as int)]
    } else {
        spec_digits(number / 10).push(spec_digit((number % 10) as int))
    }
}

/// The integer `number` written in decimal, with a minus sign if negative.
pub open spec fn spec_decimal(number: int) -> Seq<char> {
    if number < 0 {
        seq!['-'] + spec_digits((-number) as nat)
    } else {
        spec_digits(number as nat)
    }
}

fn digit(value: u64) -> (text: &'static str)
    requires
        value < 10,
    ensures
        text@ == seq![spec_digit(value as int)],
{
    proof {
        reveal_strlit("0");
        reveal_strlit("1");
        reveal_strlit("2");
        reveal_strlit("3");
        reveal_strlit("4");
        reveal_strlit("5");
        reveal_strlit("6");
        reveal_strlit("7");
        reveal_strlit("8");
        reveal_strlit("9");
    }
    let text: &'static str = if value == 0 {
        "0"
    } else if value == 1 {
        "1"
    } else if value == 2 {
        "2"
    } else if value == 3 {
        "3"
    } else if value == 4 {
        "4"
    } else if value == 5 {
        "5"
    } else if value == 6 {
        "6"
    } else if value == 7 {
        "7"
    } else if value == 8 {
        "8"
    } else {
        "9"
    };
    assert(text@ =~= seq![spec_digit(value as int)]);
    text
}

/// The decimal digits of `number`, most significant first.
pub fn digits(number: u64) -> (text: String)
    ensures
        text@ == spec_digits(number as nat),
    decreases number,
{
    if number < 10 {
        digit(number).to_owned()
    } else {
        let mut text: String = digits(number / 10);
        text.append(digit(number % 10));
        assert(text@ =~= spec_digits(number as nat));
        text
    }
}

/// The integer `number` written in decimal.
pub fn decimal(number: i32) -> (text: String)
    ensures
        text@ == spec_decimal(number as int),
{
    if number < 0 {
        proof {
            reveal_strlit("-");
        }
        let magnitude: u64 = (-(number as i64)) as u64;
        let rest: String = digits(magnitude);
        let mut text: String = "-".to_owned();
        text.append(rest.as_str());
        assert(text@ =~= spec_decimal(number as int));
        text
    } else {
        digits(number as u64)
    }
}

} // verus!
