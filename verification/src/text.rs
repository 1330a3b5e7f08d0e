//! Decimal and hexadecimal renderings of numbers.

use vstd::prelude::*;

verus! {

/// The digit for a value below sixteen.
pub open spec fn digit_char(value: int) -> char {
    if value == 0 {
        '0'
    } else if value == 1 {
        '1'
    } else if value == 2 {
        '2'
    } else if value == 3 {
        '3'
    } else if value == 4 {
        '4'
    } else if value == 5 {
        '5'
    } else if value == 6 {
        '6'
    } else if value == 7 {
        '7'
    } else if value == 8 {
        '8'
    } else if value == 9 {
        '9'
    } else if value == 10 {
        'a'
    } else if value == 11 {
        'b'
    } else if value == 12 {
        'c'
    } else if value == 13 {
        'd'
    } else if value == 14 {
        'e'
    } else {
        'f'
    }
}

/// Decimal digits of a number, most significant first, without leading zeros.
pub open spec fn decimal(number: nat) -> Seq<char>
    decreases number,
{
    if number < 10 {
        seq![digit_char(number as int)]
    } else {
        decimal(number / 10).push(digit_char((number % 10) as int))
    }
}

/// The low `width` hexadecimal digits of a number, most significant first.
pub open spec fn hexadecimal(number: nat, width: nat) -> Seq<char>
    decreases width,
{
    if width == 0 {
        Seq::empty()
    } else {
        hexadecimal(number / 16, (width - 1) as nat).push(digit_char((number % 16) as int))
    }
}

/// A decimal rendering identifies its number.
pub proof fn decimal_is_lossless(a: nat, b: nat)
    requires
        decimal(a) == decimal(b),
    ensures
        a == b,
    decreases a,
{
    lemma_decimal_length(a);
    lemma_decimal_length(b);
    assert(decimal(a).last() == digit_char((a % 10) as int));
    assert(decimal(b).last() == digit_char((b % 10) as int));
    assert(a % 10 == b % 10);
    if a >= 10 {
        assert(decimal(a).len() > 1);
        assert(b >= 10);
        assert(decimal(a).drop_last() =~= decimal(a / 10));
        assert(decimal(b).drop_last() =~= decimal(b / 10));
        decimal_is_lossless(a / 10, b / 10);
    } else {
        assert(decimal(b).len() == 1);
        if b >= 10 {
            lemma_decimal_length(b / 10);
        }
    }
}

proof fn lemma_decimal_length(number: nat)
    ensures
        decimal(number).len() >= 1,
        number >= 10 ==> decimal(number).len() >= 2,
    decreases number,
{
    if number >= 10 {
        lemma_decimal_length(number / 10);
    }
}

/// The text of one digit.
fn digit(value: u32) -> (text: &'static str)
    requires
        value < 16,
    ensures
        text@ == seq![digit_char(value as int)],
{
    proof {
        reveal_strlit("0");
        reveal_strlit("1");
        reveal_strlit("2");
        reveal_strlit("3");
        reveal_strlit("4");
        reveal_strlit("5");
        reveal_strlit("6");
        reveal_strlit("7");
        reveal_strlit("8");
        reveal_strlit("9");
        reveal_strlit("a");
        reveal_strlit("b");
        reveal_strlit("c");
        reveal_strlit("d");
        reveal_strlit("e");
        reveal_strlit("f");
    }
    let text = match value {
        0 => "0",
        1 => "1",
        2 => "2",
        3 => "3",
        4 => "4",
        5 => "5",
        6 => "6",
        7 => "7",
        8 => "8",
        9 => "9",
        10 => "a",
        11 => "b",
        12 => "c",
        13 => "d",
        14 => "e",
        _ => "f",
    };
    assert(text@ =~= seq![digit_char(value as int)]);
    text
}

/// Append the decimal digits of `number`.
pub fn append_decimal(output: &mut String, number: u32)
    ensures
        final(output)@ == old(output)@ + decimal(number as nat),
    decreases number,
{
    if number >= 10 {
        append_decimal(output, number / 10);
    }
    output.append(digit(number % 10));
    assert(output@ =~= old(output)@ + decimal(number as nat));
}

/// Append the low `width` hexadecimal digits of `number`.
pub fn append_hexadecimal(output: &mut String, number: u32, width: u32)
    ensures
        final(output)@ == old(output)@ + hexadecimal(number as nat, width as nat),
    decreases width,
{
    if width > 0 {
        append_hexadecimal(output, number / 16, width - 1);
        output.append(digit(number % 16));
    }
    assert(output@ =~= old(output)@ + hexadecimal(number as nat, width as nat));
}

/// A hexadecimal rendering has the width asked for, and its digits are those of the
/// number from the least significant on.
pub proof fn hexadecimal_has_its_width_and_digits(number: nat, width: nat)
    ensures
        hexadecimal(number, width).len() == width,
        width > 0 ==> hexadecimal(number, width).last() == digit_char((number % 16) as int),
        width > 0 ==> hexadecimal(number, width).drop_last() == hexadecimal(
            number / 16,
            (width - 1) as nat,
        ),
    decreases width,
{
    if width > 0 {
        hexadecimal_has_its_width_and_digits(number / 16, (width - 1) as nat);
        assert(hexadecimal(number, width).drop_last() =~= hexadecimal(
            number / 16,
            (width - 1) as nat,
        ));
    }
}

/// The digits follow the character code: `0` to `9`, then `a` to `f`.
pub proof fn digits_follow_the_character_code(value: int)
    requires
        0 <= value < 16,
    ensures
        value < 10 ==> digit_char(value) as int == 0x30 + value,
        value >= 10 ==> digit_char(value) as int == 0x61 + value - 10,
{
}

/// A hexadecimal rendering identifies its number among those that fit its width.
pub proof fn hexadecimal_is_lossless(a: nat, b: nat, width: nat)
    requires
        hexadecimal(a, width) == hexadecimal(b, width),
        a < vstd::arithmetic::power::pow(16, width),
        b < vstd::arithmetic::power::pow(16, width),
    ensures
        a == b,
    decreases width,
{
    if width == 0 {
        reveal(vstd::arithmetic::power::pow);
    } else {
        let shorter = (width - 1) as nat;
        hexadecimal_has_its_width_and_digits(a, width);
        hexadecimal_has_its_width_and_digits(b, width);
        digits_follow_the_character_code((a % 16) as int);
        digits_follow_the_character_code((b % 16) as int);
        assert(vstd::arithmetic::power::pow(16, width) == 16 * vstd::arithmetic::power::pow(
            16,
            shorter,
        )) by {
            reveal(vstd::arithmetic::power::pow);
        }
        hexadecimal_is_lossless(a / 16, b / 16, shorter);
    }
}

} // verus!
