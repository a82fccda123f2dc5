//! Numbers written out in decimal digits.

use vstd::prelude::*;

verus! {

/// The character of the decimal digit `d`.
pub open spec fn digit(d: int) -> char {
    if d == 0 {
        '0'
    } else if d == 1 {
        '1'
    } else if d == 2 {
        '2'
    } else if d == 3 {
        '3'
    } else if d == 4 {
        '4'
    } else if d == 5 {
        '5'
    } else if d == 6 {
        '6'
    } else if d == 7 {
        '7'
    } else if d == 8 {
        '8'
    } else {
        '9'
    }
}

/// `n` in decimal digits, without leading zeros.
pub open spec fn decimal(n: nat) -> Seq<char>
    decreases n,
{
    if n < 10 {
        seq![digit(n as int)]
    } else {
        decimal(n / 10).push(digit((n % 10) as int))
    }
}

/// A number of hundredths written as a decimal fraction with two places.
pub open spec fn two_places(hundredths: nat) -> Seq<char> {
    decimal(hundredths / 100) + seq![
        '.',
        digit(((hundredths % 100) / 10) as int),
        digit((hundredths % 10) as int),
    ]
}

/// `bytes / 1024` in hundredths, rounded to the nearest hundredth; a value
/// that lies halfway between two hundredths goes to the even one.
pub open spec fn kibibyte_hundredths(bytes: nat) -> nat {
    let scaled = bytes * 100;
    let whole = scaled / 1024;
    let rest = scaled % 1024;
    if rest > 512 || (rest == 512 && whole % 2 == 1) {
        whole + 1
    } else {
        whole
    }
}

/// The character of the decimal digit `d`.
pub fn digit_char(d: u8) -> (c: char)
    requires
        d < 10,
    ensures
        c == digit(d as int),
{
    if d == 0 {
        '0'
    } else if d == 1 {
        '1'
    } else if d == 2 {
        '2'
    } else if d == 3 {
        '3'
    } else if d == 4 {
        '4'
    } else if d == 5 {
        '5'
    } else if d == 6 {
        '6'
    } else if d == 7 {
        '7'
    } else if d == 8 {
        '8'
    } else {
        '9'
    }
}

/// `n` in decimal digits, without leading zeros.
pub fn decimal_chars(n: u128) -> (v: Vec<char>)
    ensures
        v@ == decimal(n as nat),
    decreases n,
{
    if n < 10 {
        let mut v: Vec<char> = Vec::new();
        v.push(digit_char(n as u8));
        v
    } else {
        let mut v = decimal_chars(n / 10);
        v.push(digit_char((n % 10) as u8));
        v
    }
}

/// A size in bytes written in kibibytes with two decimal places.
pub fn kibibytes_chars(bytes: u64) -> (v: Vec<char>)
    ensures
        v@ == two_places(kibibyte_hundredths(bytes as nat)),
{
    let scaled: u128 = (bytes as u128) * 100;
    let whole: u128 = scaled / 1024;
    let rest: u128 = scaled % 1024;
    let hundredths: u128 = if rest > 512 || (rest == 512 && whole % 2 == 1) {
        whole + 1
    } else {
        whole
    };
    let mut v = decimal_chars(hundredths / 100);
    v.push('.');
    v.push(digit_char(((hundredths % 100) / 10) as u8));
    v.push(digit_char((hundredths % 10) as u8));
    v
}

} // verus!
