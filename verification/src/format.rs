//! The texts of axis labels and of the hover label.

use vstd::prelude::*;
use crate::geometry::Value;
use crate::hover::{HoverConfig, HoverLine};

verus! {

/// The character of a decimal digit.
pub open spec fn digit_char(d: int) -> char {
    if d == 0 {
        '0'
    } else if d == 1 {
        '1'
    } else if d == 2 {
        '2'
    } else if d == 3 {
        '3'
    } else if d == 4 {
        '4'
    } else if d == 5 {
        '5'
    } else if d == 6 {
        '6'
    } else if d == 7 {
        '7'
    } else if d == 8 {
        '8'
    } else {
        '9'
    }
}

/// The decimal digits of a natural number, without leading zeros.
pub open spec fn digits(n: nat) -> Seq<char>
    decreases n,
{
    if n < 10 {
        seq![digit_char(n as int)]
    } else {
        digits(n / 10).push(digit_char((n % 10) as int))
    }
}

/// An integer in decimal notation, with a minus sign in front of a negative
/// one.
pub open spec fn decimal_text(v: int) -> Seq<char> {
    if v < 0 {
        seq!['-'] + digits((-v) as nat)
    } else {
        digits(v as nat)
    }
}

/// The name and a line break, or nothing for an item without a name.
pub open spec fn name_prefix(name: Seq<char>) -> Seq<char> {
    if name.len() > 0 {
        name.push('\n')
    } else {
        name
    }
}

/// The text of the default hover label: the name of the item on a line of
/// its own, if it has one, and the coordinates for which rulers are drawn;
/// no text at all without rulers.
pub open spec fn spec_default_hover_text(config: HoverConfig, name: Seq<char>, value: Value) -> Seq<char> {
    match config.hover_line {
        HoverLine::Off => Seq::empty(),
        HoverLine::X => name_prefix(name) + seq!['x', ' ', '=', ' '] + decimal_text(value.x as int),
        HoverLine::Y => name_prefix(name) + seq!['y', ' ', '=', ' '] + decimal_text(value.y as int),
        HoverLine::XY => name_prefix(name) + seq!['x', ' ', '=', ' '] + decimal_text(
            value.x as int,
        ) + seq!['\n', 'y', ' ', '=', ' '] + decimal_text(value.y as int),
    }
}

fn digit_text(d: u64) -> (r: &'static str)
    requires
        d < 10,
    ensures
        r@ == seq![digit_char(d as int)],
{
    proof {
        reveal_strlit("0");
        reveal_strlit("1");
        reveal_strlit("2");
        reveal_strlit("3");
        reveal_strlit("4");
        reveal_strlit("5");
        reveal_strlit("6");
        reveal_strlit("7");
        reveal_strlit("8");
        reveal_strlit("9");
    }
    let r: &'static str = if d == 0 {
        "0"
    } else if d == 1 {
        "1"
    } else if d == 2 {
        "2"
    } else if d == 3 {
        "3"
    } else if d == 4 {
        "4"
    } else if d == 5 {
        "5"
    } else if d == 6 {
        "6"
    } else if d == 7 {
        "7"
    } else if d == 8 {
        "8"
    } else {
        "9"
    };
    assert(r@ =~= seq![digit_char(d as int)]);
    r
}

fn push_digits(text: &mut String, n: u64)
    ensures
        final(text)@ == old(text)@ + digits(n as nat),
    decreases n,
{
    if n >= 10 {
        push_digits(text, n / 10);
    }
    text.append(digit_text(n % 10));
    assert(final(text)@ =~= old(text)@ + digits(n as nat));
}

/// Appends an integer in decimal notation.
pub fn push_decimal(text: &mut String, v: i64)
    ensures
        final(text)@ == old(text)@ + decimal_text(v as int),
{
    if v < 0 {
        proof {
            reveal_strlit("-");
        }
        text.append("-");
        let n: u64 = (-(v as i128)) as u64;
        push_digits(text, n);
        assert(final(text)@ =~= old(text)@ + decimal_text(v as int));
    } else {
        push_digits(text, v as u64);
    }
}

/// The default label of a grid line: its value in decimal notation.
pub fn default_axis_label(value: i64) -> (r: String)
    ensures
        r@ == decimal_text(value as int),
{
    let mut text: String = String::new();
    push_decimal(&mut text, value);
    assert(text@ =~= decimal_text(value as int));
    text
}

/// The text of the default hover label for the element at `value` of the
/// item called `name`.
pub fn default_hover_text(config: &HoverConfig, name: &str, value: &Value) -> (r: String)
    ensures
        r@ == spec_default_hover_text(*config, name@, *value),
{
    let mut text: String = String::new();
    proof {
        reveal_strlit("\n");
        reveal_strlit("x = ");
        reveal_strlit("y = ");
        reveal_strlit("\ny = ");
    }
    match config.hover_line {
        HoverLine::Off => {
            return text;
        },
        _ => {},
    }
    if !name.is_empty() {
        text.append(name);
        text.append("\n");
    }
    assert(text@ =~= name_prefix(name@));
    match config.hover_line {
        HoverLine::Off => {},
        HoverLine::X => {
            text.append("x = ");
            push_decimal(&mut text, value.x);
        },
        HoverLine::Y => {
            text.append("y = ");
            push_decimal(&mut text, value.y);
        },
        HoverLine::XY => {
            text.append("x = ");
            push_decimal(&mut text, value.x);
            text.append("\ny = ");
            push_decimal(&mut text, value.y);
        },
    }
    assert(text@ =~= spec_default_hover_text(*config, name@, *value));
    text
}

} // verus!
