//! Numbers as text: decimal for whole numbers, hexadecimal for the bytes
//! of a color and of an identifier.

use vstd::prelude::*;

verus! {

/// The character of a decimal digit.
pub open spec fn decimal_digit(d: int) -> char {
    if d == 0 {
        '0'
    } else if d == 1 {
        '1'
    } else if d == 2 {
        '2'
    } else if d == 3 {
        '3'
    } else if d == 4 {
        '4'
    } else if d == 5 {
        '5'
    } else if d == 6 {
        '6'
    } else if d == 7 {
        '7'
    } else if d == 8 {
        '8'
    } else {
        '9'
    }
}

/// The decimal digits of a natural number, without leading zeros; `0`
/// reads "0".
pub open spec fn decimal_digits(n: nat) -> Seq<char>
    decreases n,
{
    if n < 10 {
        seq![decimal_digit(n as int)]
    } else {
        decimal_digits(n / 10).push(decimal_digit((n % 10) as int))
    }
}

/// A whole number in decimal, with `-` before a negative one.
pub open spec fn decimal(n: int) -> Seq<char> {
    if n < 0 {
        seq!['-'] + decimal_digits((-n) as nat)
    } else {
        decimal_digits(n as nat)
    }
}

/// The character of a hexadecimal digit, with capital or small letters.
pub open spec fn hex_digit(d: int, capital: bool) -> char {
    if d < 10 {
        decimal_digit(d)
    } else if d == 10 {
        if capital { 'A' } else { 'a' }
    } else if d == 11 {
        if capital { 'B' } else { 'b' }
    } else if d == 12 {
        if capital { 'C' } else { 'c' }
    } else if d == 13 {
        if capital { 'D' } else { 'd' }
    } else if d == 14 {
        if capital { 'E' } else { 'e' }
    } else {
        if capital { 'F' } else { 'f' }
    }
}

/// The `count` lowest hexadecimal digits of `n`, the highest of them first.
pub open spec fn hex_digits(n: nat, count: nat, capital: bool) -> Seq<char>
    decreases count,
{
    if count == 0 {
        Seq::empty()
    } else {
        hex_digits(n / 16, (count - 1) as nat, capital).push(
            hex_digit((n % 16) as int, capital),
        )
    }
}

fn digit_char(d: u8) -> (c: char)
    requires
        d < 10,
    ensures
        c == decimal_digit(d as int),
{
    match d {
        0 => '0',
        1 => '1',
        2 => '2',
        3 => '3',
        4 => '4',
        5 => '5',
        6 => '6',
        7 => '7',
        8 => '8',
        _ => '9',
    }
}

/// Writes a whole number in decimal.
pub fn decimal_text(n: i64) -> (text: String)
    ensures
        text@ == decimal(n as int),
{
    let wide: i128 = n as i128;
    let magnitude: i128 = if wide < 0 {
        -wide
    } else {
        wide
    };
    // The digits from the lowest to the highest.
    let mut low_first: Vec<char> = Vec::new();
    low_first.push(digit_char((magnitude % 10) as u8));
    let mut rest: i128 = magnitude / 10;
    while rest > 0
        invariant
            0 <= rest <= magnitude,
            low_first.len() >= 1,
            decimal_digits(magnitude as nat) == if rest > 0 {
                decimal_digits(rest as nat) + low_first@.reverse()
            } else {
                low_first@.reverse()
            },
        decreases rest,
    {
        let ghost before = low_first@;
        low_first.push(digit_char((rest % 10) as u8));
        proof {
            let d = decimal_digit((rest % 10) as int);
            assert(low_first@.reverse() == seq![d] + before.reverse());
            assert(decimal_digits(rest as nat) == if rest / 10 > 0 {
                decimal_digits((rest / 10) as nat).push(d)
            } else {
                seq![d]
            });
            assert(decimal_digits((rest / 10) as nat).push(d) + before.reverse()
                == decimal_digits((rest / 10) as nat) + (seq![d] + before.reverse()));
        }
        rest = rest / 10;
    }
    let mut text = String::new();
    if wide < 0 {
        text.push('-');
    }
    let ghost sign = text@;
    let mut i: usize = low_first.len();
    while i > 0
        invariant
            i <= low_first.len(),
            text@ == sign + low_first@.reverse().take(low_first.len() - i),
        decreases i,
    {
        i -= 1;
        text.push(low_first[i]);
        assert(low_first@.reverse().take(low_first.len() - i) == low_first@.reverse().take(
            low_first.len() - i - 1,
        ).push(low_first@[i as int]));
    }
    assert(low_first@.reverse().take(low_first.len() as int) == low_first@.reverse());
    text
}

} // verus!
