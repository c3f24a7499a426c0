//! The 62-symbol alphabet: digits, then upper case, then lower case.

use vstd::prelude::*;

verus! {

/// Number of symbols in the alphabet.
pub const BASE: u64 = 62;

/// The symbols in digit order, as ASCII bytes.
pub const ALPHABET: [u8; 62] = [
    48, 49, 50, 51, 52, 53, 54, 55, 56, 57,
    65, 66, 67, 68, 69, 70, 71, 72, 73, 74, 75, 76, 77,
    78, 79, 80, 81, 82, 83, 84, 85, 86, 87, 88, 89, 90,
    97, 98, 99, 100, 101, 102, 103, 104, 105, 106, 107, 108, 109,
    110, 111, 112, 113, 114, 115, 116, 117, 118, 119, 120, 121, 122,
];

/// The symbol that stands for digit value `d`.
pub open spec fn symbol(d: int) -> char
    recommends
        0 <= d < 62,
{
    if d < 10 {
        ('0' as int + d) as char
    } else if d < 36 {
        ('A' as int + (d - 10)) as char
    } else {
        ('a' as int + (d - 36)) as char
    }
}

/// Whether `c` is one of the 62 symbols.
pub open spec fn is_symbol(c: char) -> bool {
    ||| '0' as int <= c as int <= '9' as int
    ||| 'A' as int <= c as int <= 'Z' as int
    ||| 'a' as int <= c as int <= 'z' as int
}

/// The digit value that the symbol `c` stands for.
pub open spec fn digit_of(c: char) -> int
    recommends
        is_symbol(c),
{
    if c as int <= '9' as int {
        c as int - '0' as int
    } else if c as int <= 'Z' as int {
        c as int - 'A' as int + 10
    } else {
        c as int - 'a' as int + 36
    }
}

/// Whether the byte `b` is an ASCII letter or digit.
pub open spec fn is_alphanumeric(b: u8) -> bool {
    is_symbol(b as char)
}

/// The characters that a sequence of bytes stands for, one per byte.
pub open spec fn as_text(bytes: Seq<u8>) -> Seq<char> {
    Seq::new(bytes.len(), |i: int| bytes[i] as char)
}

/// Every digit value has a symbol, and the symbol gives the value back.
pub proof fn lemma_symbol_of_digit(d: int)
    requires
        0 <= d < 62,
    ensures
        is_symbol(symbol(d)),
        digit_of(symbol(d)) == d,
{
}

/// Every symbol has a digit value below 62, and the value gives the symbol back.
pub proof fn lemma_digit_of_symbol(c: char)
    requires
        is_symbol(c),
    ensures
        0 <= digit_of(c) < 62,
        symbol(digit_of(c)) == c,
{
}

/// The byte of the alphabet at position `d`.
pub fn symbol_byte(d: u64) -> (b: u8)
    requires
        d < BASE,
    ensures
        b as char == symbol(d as int),
        is_alphanumeric(b),
{
    ALPHABET[d as usize]
}

} // verus!
