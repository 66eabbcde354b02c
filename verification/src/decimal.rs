//! Numbers in decimal notation.

use vstd::prelude::*;

verus! {

/// The digits of a number, the most significant first.
pub open spec fn decimal_digits(number: nat) -> Seq<char>
    decreases number,
{
    if number < 10 {
        seq![digit(number)]
    } else {
        decimal_digits(number / 10).push(digit(number % 10))
    }
}

/// The character for a number below ten.
pub open spec fn digit(number: nat) -> char {
    (48 + number) as char
}

/// Writes a number in decimal notation.
pub fn to_decimal(number: usize) -> (text: String)
    ensures
        text@ == decimal_digits(number as nat),
    decreases number,
{
    let last: &str = match number % 10 {
        0 => "0",
        1 => "1",
        2 => "2",
        3 => "3",
        4 => "4",
        5 => "5",
        6 => "6",
        7 => "7",
        8 => "8",
        _ => "9",
    };
    proof {
        reveal_strlit("0");
        reveal_strlit("1");
        reveal_strlit("2");
        reveal_strlit("3");
        reveal_strlit("4");
        reveal_strlit("5");
        reveal_strlit("6");
        reveal_strlit("7");
        reveal_strlit("8");
        reveal_strlit("9");
        assert(last@ =~= seq![digit((number % 10) as nat)]);
    }
    if number < 10 {
        last.to_string()
    } else {
        let mut text = to_decimal(number / 10);
        text.append(last);
        assert(text@ =~= decimal_digits(number as nat));
        text
    }
}

} // verus!
