//! Rendering of numbers and bytes as text: decimal numbers, two-digit clock
//! fields and hexadecimal digests.

use vstd::prelude::*;

verus! {

/// The texts of a list of strings, in order.
pub open spec fn texts(items: Seq<String>) -> Seq<Seq<char>> {
    Seq::new(items.len(), |i: int| items[i]@)
}

/// The texts of a list of string slices, in order.
pub open spec fn texts_of(items: Seq<&'static str>) -> Seq<Seq<char>> {
    Seq::new(items.len(), |i: int| items[i]@)
}

/// The text of an optional string.
pub open spec fn optional_text(item: Option<String>) -> Option<Seq<char>> {
    match item {
        Some(text) => Some(text@),
        None => None,
    }
}

/// The character of a hexadecimal digit; digits above nine are letters, in
/// upper or lower case.
pub open spec fn hex_char(digit: int, upper: bool) -> char {
    if digit == 0 {
        '0'
    } else if digit == 1 {
        '1'
    } else if digit == 2 {
        '2'
    } else if digit == 3 {
        '3'
    } else if digit == 4 {
        '4'
    } else if digit == 5 {
        '5'
    } else if digit == 6 {
        '6'
    } else if digit == 7 {
        '7'
    } else if digit == 8 {
        '8'
    } else if digit == 9 {
        '9'
    } else if digit == 10 {
        if upper { 'A' } else { 'a' }
    } else if digit == 11 {
        if upper { 'B' } else { 'b' }
    } else if digit == 12 {
        if upper { 'C' } else { 'c' }
    } else if digit == 13 {
        if upper { 'D' } else { 'd' }
    } else if digit == 14 {
        if upper { 'E' } else { 'e' }
    } else {
        if upper { 'F' } else { 'f' }
    }
}

/// The character of a decimal digit.
pub open spec fn digit_char(digit: int) -> char {
    hex_char(digit, false)
}

/// A natural number in decimal, without leading zeros.
pub open spec fn decimal_text(n: nat) -> Seq<char>
    decreases n,
{
    if n < 10 {
        seq![digit_char(n as int)]
    } else {
        decimal_text(n / 10).push(digit_char((n % 10) as int))
    }
}

/// An integer in decimal, with a minus sign in front of a negative one.
pub open spec fn signed_decimal_text(i: int) -> Seq<char> {
    if i < 0 {
        seq!['-'] + decimal_text((-i) as nat)
    } else {
        decimal_text(i as nat)
    }
}

/// A natural number in decimal, with a leading zero where it has one digit.
pub open spec fn two_digit_text(n: nat) -> Seq<char> {
    if n < 10 {
        seq!['0', digit_char(n as int)]
    } else {
        decimal_text(n)
    }
}

/// Bytes in hexadecimal: two digits for each byte, the high half first.
pub open spec fn hex_text(bytes: Seq<u8>, upper: bool) -> Seq<char> {
    Seq::new(
        2 * bytes.len(),
        |i: int|
            if i % 2 == 0 {
                hex_char(bytes[i / 2] as int / 16, upper)
            } else {
                hex_char(bytes[i / 2] as int % 16, upper)
            },
    )
}

/// The four bytes of a 32-bit number, the most significant first.
pub open spec fn big_endian_bytes(value: u32) -> Seq<u8> {
    seq![
        (value as int / 0x100_0000) as u8,
        (value as int / 0x1_0000 % 0x100) as u8,
        (value as int / 0x100 % 0x100) as u8,
        (value as int % 0x100) as u8,
    ]
}

/// A 32-bit number as eight hexadecimal digits in upper case.
pub open spec fn upper_hex_u32_text(value: u32) -> Seq<char> {
    hex_text(big_endian_bytes(value), true)
}

/// Whether two texts are the same.
pub fn same_text(first: &str, second: &str) -> (same: bool)
    ensures
        same == (first@ == second@),
{
    let a = String::from_str(first);
    let b = String::from_str(second);
    a.eq(&b)
}

/// The one-character text of a hexadecimal digit.
pub fn hex_digit(digit: u8, upper: bool) -> (text: &'static str)
    requires
        digit < 16,
    ensures
        text@ == seq![hex_char(digit as int, upper)],
{
    proof {
        reveal_strlit("0");
        reveal_strlit("1");
        reveal_strlit("2");
        reveal_strlit("3");
        reveal_strlit("4");
        reveal_strlit("5");
        reveal_strlit("6");
        reveal_strlit("7");
        reveal_strlit("8");
        reveal_strlit("9");
        reveal_strlit("a");
        reveal_strlit("b");
        reveal_strlit("c");
        reveal_strlit("d");
        reveal_strlit("e");
        reveal_strlit("f");
        reveal_strlit("A");
        reveal_strlit("B");
        reveal_strlit("C");
        reveal_strlit("D");
        reveal_strlit("E");
        reveal_strlit("F");
    }
    let text = match digit {
        0 => "0",
        1 => "1",
        2 => "2",
        3 => "3",
        4 => "4",
        5 => "5",
        6 => "6",
        7 => "7",
        8 => "8",
        9 => "9",
        10 => if upper { "A" } else { "a" },
        11 => if upper { "B" } else { "b" },
        12 => if upper { "C" } else { "c" },
        13 => if upper { "D" } else { "d" },
        14 => if upper { "E" } else { "e" },
        _ => if upper { "F" } else { "f" },
    };
    text
}

/// Renders a number in decimal.
pub fn decimal(n: u64) -> (text: String)
    ensures
        text@ == decimal_text(n as nat),
    decreases n,
{
    if n < 10 {
        let digit: u8 = n as u8;
        String::from_str(hex_digit(digit, false))
    } else {
        let mut text = decimal(n / 10);
        let digit: u8 = (n % 10) as u8;
        text.append(hex_digit(digit, false));
        text
    }
}

/// Renders an exit code in decimal, with its sign.
pub fn signed_decimal(i: i32) -> (text: String)
    ensures
        text@ == signed_decimal_text(i as int),
{
    if i < 0 {
        let magnitude: u64 = (-(i as i64)) as u64;
        let mut text = String::from_str("-");
        let digits = decimal(magnitude);
        text.append(digits.as_str());
        proof {
            reveal_strlit("-");
        }
        text
    } else {
        decimal(i as u64)
    }
}

/// Renders a clock field: at least two digits.
pub fn two_digits(n: u64) -> (text: String)
    ensures
        text@ == two_digit_text(n as nat),
{
    if n < 10 {
        let mut text = String::from_str("0");
        text.append(hex_digit(n as u8, false));
        proof {
            reveal_strlit("0");
        }
        text
    } else {
        decimal(n)
    }
}

/// Renders bytes in hexadecimal, two digits for each byte.
pub fn hex(bytes: &[u8], upper: bool) -> (text: String)
    ensures
        text@ == hex_text(bytes@, upper),
{
    let mut text = String::new();
    let mut i: usize = 0;
    while i < bytes.len()
        invariant
            i <= bytes.len(),
            text@ == hex_text(bytes@.take(i as int), upper),
        decreases bytes.len() - i,
    {
        let byte = bytes[i];
        text.append(hex_digit(byte / 16, upper));
        text.append(hex_digit(byte % 16, upper));
        i += 1;
        assert(text@ =~= hex_text(bytes@.take(i as int), upper));
    }
    text
}

/// Renders a 32-bit number as eight hexadecimal digits in upper case.
pub fn upper_hex_u32(value: u32) -> (text: String)
    ensures
        text@ == upper_hex_u32_text(value),
{
    let bytes: [u8; 4] = [
        (value / 0x100_0000) as u8,
        (value / 0x1_0000 % 0x100) as u8,
        (value / 0x100 % 0x100) as u8,
        (value % 0x100) as u8,
    ];
    hex(bytes.as_slice(), true)
}

/// The texts of a list joined into one, with the separator between
/// neighbours.
pub open spec fn joined_text(items: Seq<Seq<char>>, separator: Seq<char>) -> Seq<char>
    decreases items.len(),
{
    if items.len() == 0 {
        Seq::empty()
    } else if items.len() == 1 {
        items[0]
    } else {
        joined_text(items.drop_last(), separator) + separator + items.last()
    }
}

/// The clock reading of a number of seconds: hours, minutes and seconds,
/// each with two digits at least.
pub open spec fn elapsed_text(seconds: nat) -> Seq<char> {
    two_digit_text(seconds / 3600) + seq![':'] + two_digit_text(seconds % 3600 / 60) + seq![':']
        + two_digit_text(seconds % 60)
}

/// Joins texts into one, with the separator between neighbours.
pub fn join(items: &Vec<String>, separator: &str) -> (text: String)
    ensures
        text@ == joined_text(texts(items@), separator@),
{
    let ghost all = texts(items@);
    let mut text = String::new();
    let mut i: usize = 0;
    while i < items.len()
        invariant
            i <= items.len(),
            all == texts(items@),
            text@ == joined_text(all.take(i as int), separator@),
        decreases items.len() - i,
    {
        if i > 0 {
            text.append(separator);
        }
        text.append(items[i].as_str());
        i += 1;
        assert(all.take(i as int).drop_last() =~= all.take(i - 1));
    }
    assert(all.take(items.len() as int) =~= all);
    text
}

/// Renders a number of seconds as a clock reading.
pub fn elapsed_label(seconds: u64) -> (text: String)
    ensures
        text@ == elapsed_text(seconds as nat),
{
    let mut text = two_digits(seconds / 3600);
    let minutes = two_digits(seconds % 3600 / 60);
    let rest = two_digits(seconds % 60);
    proof {
        reveal_strlit(":");
    }
    text.append(":");
    text.append(minutes.as_str());
    text.append(":");
    text.append(rest.as_str());
    text
}

} // verus!
