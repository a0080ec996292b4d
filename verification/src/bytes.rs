//! Short texts for amounts of bytes.

use vstd::prelude::*;
use vstd::string::*;

verus! {

/// By what an amount of bytes is divided before it is shown: by nothing below one kibibyte,
/// by 1024 below one mebibyte, by 1048576 (1024 times 1024) from there on.
pub open spec fn divisor_of(bytes: u32) -> u32 {
    if bytes < 1024 {
        1
    } else if bytes < 1048576 {
        1024
    } else {
        1048576
    }
}

/// The unit that follows the number, with the blank before it.
pub open spec fn unit_text(bytes: u32) -> Seq<char> {
    if bytes < 1024 {
        " B"@
    } else if bytes < 1048576 {
        " kB"@
    } else {
        " MB"@
    }
}

/// The character for one decimal digit.
pub open spec fn digit_char(digit: nat) -> char {
    if digit == 0 {
        '0'
    } else if digit == 1 {
        '1'
    } else if digit == 2 {
        '2'
    } else if digit == 3 {
        '3'
    } else if digit == 4 {
        '4'
    } else if digit == 5 {
        '5'
    } else if digit == 6 {
        '6'
    } else if digit == 7 {
        '7'
    } else if digit == 8 {
        '8'
    } else {
        '9'
    }
}

/// A number written in decimal digits, without sign and without leading zeros.
pub open spec fn decimal_text(number: nat) -> Seq<char>
    decreases number,
{
    if number < 10 {
        seq![digit_char(number)]
    } else {
        decimal_text(number / 10).push(digit_char(number % 10))
    }
}

/// The number that is shown for an amount of `bytes`. Below one kibibyte it is the amount
/// itself, in decimal digits. From there on it is `scaled`, the text that the caller made of
/// the amount divided by `divisor_of(bytes)`.
pub open spec fn number_text(bytes: u32, scaled: Seq<char>) -> Seq<char> {
    if bytes < 1024 {
        decimal_text(bytes as nat)
    } else {
        scaled
    }
}

/// A number's text cut down for display. A text of at most `digits` characters stays as it
/// is. A longer one keeps its first four characters, or its first three if the fourth is
/// the decimal point, so that no text ends in the point.
pub open spec fn shortened(number: Seq<char>, digits: u32) -> Seq<char> {
    if number.len() <= digits {
        number
    } else if number[3] == '.' {
        number.take(3)
    } else {
        number.take(4)
    }
}

/// Computes `divisor_of`.
pub fn divisor(bytes: u32) -> (by: u32)
    ensures
        by == divisor_of(bytes),
{
    if bytes < 1024 {
        1
    } else if bytes < 1048576 {
        1024
    } else {
        1048576
    }
}

fn digit(value: u32) -> (text: &'static str)
    requires
        value < 10,
    ensures
        text@ == seq![digit_char(value as nat)],
{
    proof {
        reveal_strlit("0");
        reveal_strlit("1");
        reveal_strlit("2");
        reveal_strlit("3");
        reveal_strlit("4");
        reveal_strlit("5");
        reveal_strlit("6");
        reveal_strlit("7");
        reveal_strlit("8");
        reveal_strlit("9");
    }
    let text = if value == 0 {
        "0"
    } else if value == 1 {
        "1"
    } else if value == 2 {
        "2"
    } else if value == 3 {
        "3"
    } else if value == 4 {
        "4"
    } else if value == 5 {
        "5"
    } else if value == 6 {
        "6"
    } else if value == 7 {
        "7"
    } else if value == 8 {
        "8"
    } else {
        "9"
    };
    proof {
        assert(text@ =~= seq![digit_char(value as nat)]);
    }
    text
}

/// Writes `number` in decimal digits.
pub fn decimal(number: u32) -> (text: String)
    ensures
        text@ == decimal_text(number as nat),
    decreases number,
{
    if number < 10 {
        digit(number).to_owned()
    } else {
        let front = decimal(number / 10);
        let last = digit(number % 10);
        proof {
            assert(front@ + last@ =~= decimal_text((number / 10) as nat).push(
                digit_char((number % 10) as nat),
            ));
        }
        front.concat(last)
    }
}

/// The text for an amount of `bytes`: the number, cut down as `shortened` says, and the unit.
///
/// Below one kibibyte the number is the amount itself and `scaled` is not read. From there
/// on `scaled` is the text of `bytes` divided by `divisor(bytes)`, which the caller computes
/// in floating point. A number that is longer than `digits` has to have four characters at
/// least, since it is cut behind the third or the fourth.
pub fn format_bytes(bytes: u32, digits: u32, scaled: &str) -> (text: String)
    requires
        number_text(bytes, scaled@).len() > digits ==> number_text(bytes, scaled@).len() >= 4,
    ensures
        text@ == shortened(number_text(bytes, scaled@), digits) + unit_text(bytes),
{
    let unit = if bytes < 1024 {
        " B"
    } else if bytes < 1048576 {
        " kB"
    } else {
        " MB"
    };
    let whole = if bytes < 1024 {
        decimal(bytes)
    } else {
        String::new()
    };
    let number = if bytes < 1024 {
        whole.as_str()
    } else {
        scaled
    };
    let length = number.unicode_len();
    let cut = if length <= digits as usize {
        number
    } else if number.get_char(3) == '.' {
        number.substring_char(0, 3)
    } else {
        number.substring_char(0, 4)
    };
    cut.to_owned().concat(unit)
}

} // verus!
