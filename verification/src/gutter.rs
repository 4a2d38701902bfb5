//! The line-number gutter at the left edge of the screen.
//!
//! Each listed line starts with its number, counted from one and written in
//! decimal, right-aligned in three columns between a leading blank and a bar
//! with a blank behind it. Up to line 999 that takes exactly
//! [`GUTTER_WIDTH`] columns, which is where the text of every line starts.

use vstd::prelude::*;
use crate::text::{char_count, push_char};

verus! {

/// The screen column at which the text of a line starts.
pub const GUTTER_WIDTH: usize = 6;

/// The character for the decimal digit `d`.
pub open spec fn digit(d: nat) -> char {
    if d == 0 {
        '0'
    } else if d == 1 {
        '1'
    } else if d == 2 {
        '2'
    } else if d == 3 {
        '3'
    } else if d == 4 {
        '4'
    } else if d == 5 {
        '5'
    } else if d == 6 {
        '6'
    } else if d == 7 {
        '7'
    } else if d == 8 {
        '8'
    } else {
        '9'
    }
}

/// `n` written in decimal, without leading zeros.
pub open spec fn decimal(n: nat) -> Seq<char>
    decreases n,
{
    if n < 10 {
        seq![digit(n)]
    } else {
        decimal(n / 10).push(digit(n % 10))
    }
}

/// `text` with blanks in front to make it `width` characters long; `text`
/// itself where it is that long already.
pub open spec fn right_aligned(text: Seq<char>, width: nat) -> Seq<char> {
    if text.len() >= width {
        text
    } else {
        Seq::new((width - text.len()) as nat, |i: int| ' ') + text
    }
}

/// The gutter in front of the line with the given number.
pub open spec fn gutter(number: nat) -> Seq<char> {
    seq![' '] + right_aligned(decimal(number), 3) + seq!['|', ' ']
}

/// Up to line 999 the gutter is exactly `GUTTER_WIDTH` columns wide.
pub proof fn law_gutter_width(number: nat)
    requires
        number < 1000,
    ensures
        gutter(number).len() == GUTTER_WIDTH,
{
    reveal_with_fuel(decimal, 3);
}

/// The character for the decimal digit `d`.
fn digit_char(d: usize) -> (c: char)
    requires
        d < 10,
    ensures
        c == digit(d as nat),
{
    match d {
        0 => '0',
        1 => '1',
        2 => '2',
        3 => '3',
        4 => '4',
        5 => '5',
        6 => '6',
        7 => '7',
        8 => '8',
        _ => '9',
    }
}

/// Writes `n` in decimal behind what `out` holds.
fn push_decimal(out: &mut String, n: usize)
    ensures
        final(out)@ == old(out)@ + decimal(n as nat),
    decreases n,
{
    if n >= 10 {
        push_decimal(out, n / 10);
    }
    push_char(out, digit_char(n % 10));
}

/// The text of the gutter in front of the line with the given number.
pub fn gutter_text(number: usize) -> (text: String)
    ensures
        text@ == gutter(number as nat),
{
    let mut digits = String::new();
    push_decimal(&mut digits, number);
    let width = char_count(&digits);
    let mut text = String::new();
    push_char(&mut text, ' ');
    let mut filled: usize = width;
    while filled < 3
        invariant
            width <= filled,
            filled <= 3 || filled == width,
            text@ == seq![' '] + Seq::new((filled - width) as nat, |i: int| ' '),
        decreases 3 - filled,
    {
        push_char(&mut text, ' ');
        filled = filled + 1;
    }
    text.append(digits.as_str());
    push_char(&mut text, '|');
    push_char(&mut text, ' ');
    text
}

} // verus!
