//! Decimal text of small integers.

use vstd::prelude::*;

verus! {

/// The decimal digit of a value below ten.
pub open spec fn digit_char(digit: int) -> char {
    if digit == 0 {
        '0'
    } else if digit == 1 {
        '1'
    } else if digit == 2 {
        '2'
    } else if digit == 3 {
        '3'
    } else if digit == 4 {
        '4'
    } else if digit == 5 {
        '5'
    } else if digit == 6 {
        '6'
    } else if digit == 7 {
        '7'
    } else if digit == 8 {
        '8'
    } else {
        '9'
    }
}

/// The decimal digits of a natural number, without leading zeros.
pub open spec fn nat_text(value: nat) -> Seq<char>
    decreases value,
{
    if value < 10 {
        seq![digit_char(value as int)]
    } else {
        nat_text(value / 10).push(digit_char(value as int % 10))
    }
}

/// The decimal text of an integer: a minus sign before a negative one.
pub open spec fn int_text(value: int) -> Seq<char> {
    if value < 0 {
        seq!['-'] + nat_text((-value) as nat)
    } else {
        nat_text(value as nat)
    }
}

/// The one-character text of a decimal digit.
fn digit_str(digit: u8) -> (text: &'static str)
    requires
        digit < 10,
    ensures
        text@ == seq![digit_char(digit as int)],
{
    proof {
        reveal_strlit("0");
        reveal_strlit("1");
        reveal_strlit("2");
        reveal_strlit("3");
        reveal_strlit("4");
        reveal_strlit("5");
        reveal_strlit("6");
        reveal_strlit("7");
        reveal_strlit("8");
        reveal_strlit("9");
    }
    let text = if digit == 0 {
        "0"
    } else if digit == 1 {
        "1"
    } else if digit == 2 {
        "2"
    } else if digit == 3 {
        "3"
    } else if digit == 4 {
        "4"
    } else if digit == 5 {
        "5"
    } else if digit == 6 {
        "6"
    } else if digit == 7 {
        "7"
    } else if digit == 8 {
        "8"
    } else {
        "9"
    };
    assert(text@ =~= seq![digit_char(digit as int)]);
    text
}

/// The decimal text of a signed byte, such as `-128`, `0` or `65`.
pub fn i8_text(value: i8) -> (text: String)
    ensures
        text@ == int_text(value as int),
{
    let magnitude: u8 = if value < 0 {
        (-(value as i16)) as u8
    } else {
        value as u8
    };
    let mut text = String::new();
    if value < 0 {
        proof {
            reveal_strlit("-");
        }
        text.append("-");
    }
    let ghost sign = text@;
    assert(sign =~= if value < 0 {
        seq!['-']
    } else {
        Seq::<char>::empty()
    });
    if magnitude >= 100 {
        text.append(digit_str(magnitude / 100));
        text.append(digit_str((magnitude / 10) % 10));
        text.append(digit_str(magnitude % 10));
        assert(nat_text(magnitude as nat) =~= seq![
            digit_char(magnitude as int / 100),
            digit_char((magnitude as int / 10) % 10),
            digit_char(magnitude as int % 10),
        ]) by {
            reveal_with_fuel(nat_text, 3);
        }
    } else if magnitude >= 10 {
        text.append(digit_str(magnitude / 10));
        text.append(digit_str(magnitude % 10));
        assert(nat_text(magnitude as nat) =~= seq![
            digit_char(magnitude as int / 10),
            digit_char(magnitude as int % 10),
        ]) by {
            reveal_with_fuel(nat_text, 2);
        }
    } else {
        text.append(digit_str(magnitude));
    }
    assert(text@ =~= sign + nat_text(magnitude as nat));
    text
}

} // verus!
