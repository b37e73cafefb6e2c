//! Text that the library puts together itself.

use vstd::prelude::*;

verus! {

/// The character of a decimal digit.
pub open spec fn digit_char(digit: nat) -> char {
    if digit == 0 {
        '0'
    } else if digit == 1 {
        '1'
    } else if digit == 2 {
        '2'
    } else if digit == 3 {
        '3'
    } else if digit == 4 {
        '4'
    } else if digit == 5 {
        '5'
    } else if digit == 6 {
        '6'
    } else if digit == 7 {
        '7'
    } else if digit == 8 {
        '8'
    } else {
        '9'
    }
}

/// A number in decimal digits, the most significant first, without leading
/// zeros.
pub open spec fn decimal(n: nat) -> Seq<char>
    decreases n,
{
    if n < 10 {
        seq![digit_char(n)]
    } else {
        decimal(n / 10).push(digit_char(n % 10))
    }
}

/// The text of one decimal digit.
fn digit_text(digit: usize) -> (text: &'static str)
    requires
        digit < 10,
    ensures
        text@ == seq![digit_char(digit as nat)],
{
    proof {
        reveal_strlit("0");
        reveal_strlit("1");
        reveal_strlit("2");
        reveal_strlit("3");
        reveal_strlit("4");
        reveal_strlit("5");
        reveal_strlit("6");
        reveal_strlit("7");
        reveal_strlit("8");
        reveal_strlit("9");
    }
    let text = if digit == 0 {
        "0"
    } else if digit == 1 {
        "1"
    } else if digit == 2 {
        "2"
    } else if digit == 3 {
        "3"
    } else if digit == 4 {
        "4"
    } else if digit == 5 {
        "5"
    } else if digit == 6 {
        "6"
    } else if digit == 7 {
        "7"
    } else if digit == 8 {
        "8"
    } else {
        "9"
    };
    assert(text@ =~= seq![digit_char(digit as nat)]);
    text
}

/// Writes a number in decimal digits.
pub fn decimal_text(n: usize) -> (text: String)
    ensures
        text@ == decimal(n as nat),
    decreases n,
{
    if n < 10 {
        String::from_str(digit_text(n))
    } else {
        let mut text = decimal_text(n / 10);
        text.append(digit_text(n % 10));
        assert(text@ =~= decimal((n / 10) as nat).push(digit_char((n % 10) as nat)));
        text
    }
}

} // verus!
