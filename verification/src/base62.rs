//! Fixed-width base-62 numerals, most significant digit first.

use vstd::prelude::*;
use crate::alphabet::{as_text, digit_of, is_symbol, lemma_symbol_of_digit, symbol, symbol_byte, BASE};

verus! {

/// Number of digits in an encoded sequence value.
pub const SEQ_LEN: usize = 10;

/// Number of values that `SEQ_LEN` digits tell apart: 62 to the power of 10.
pub const MAX_SEQ: u64 = 839_299_365_868_340_224;

/// 62 to the power of `width`: how many values `width` digits tell apart.
pub open spec fn capacity(width: nat) -> nat
    decreases width,
{
    if width == 0 {
        1
    } else {
        62 * capacity((width - 1) as nat)
    }
}

/// The numeral of `value` in `width` digits, padded with the zero symbol on
/// the left. Digits above the width are dropped.
pub open spec fn digits(value: nat, width: nat) -> Seq<char>
    decreases width,
{
    if width == 0 {
        Seq::empty()
    } else {
        digits(value / 62, (width - 1) as nat).push(symbol((value % 62) as int))
    }
}

/// The number that a numeral stands for.
pub open spec fn value(text: Seq<char>) -> nat
    decreases text.len(),
{
    if text.len() == 0 {
        0
    } else {
        (value(text.drop_last()) * 62 + digit_of(text.last())) as nat
    }
}

/// A numeral has exactly as many characters as its width.
pub proof fn lemma_digits_len(v: nat, width: nat)
    ensures
        digits(v, width).len() == width,
    decreases width,
{
    if width > 0 {
        lemma_digits_len(v / 62, (width - 1) as nat);
    }
}

/// Every character of a numeral is a symbol of the alphabet.
pub proof fn lemma_digits_are_symbols(v: nat, width: nat)
    ensures
        forall|i: int| 0 <= i < width ==> is_symbol(#[trigger] digits(v, width)[i]),
    decreases width,
{
    if width > 0 {
        lemma_digits_len(v / 62, (width - 1) as nat);
        lemma_digits_are_symbols(v / 62, (width - 1) as nat);
        lemma_symbol_of_digit((v % 62) as int);
    }
}

/// Reading a numeral gives back the number it was written from, as long as
/// the number fits the width.
pub proof fn lemma_value_of_digits(v: nat, width: nat)
    requires
        v < capacity(width),
    ensures
        value(digits(v, width)) == v,
    decreases width,
{
    if width > 0 {
        let shorter = digits(v / 62, (width - 1) as nat);
        let last = symbol((v % 62) as int);
        lemma_value_of_digits(v / 62, (width - 1) as nat);
        lemma_symbol_of_digit((v % 62) as int);
        assert(digits(v, width).drop_last() =~= shorter);
        assert(digits(v, width).last() == last);
    }
}

/// Ten digits tell apart exactly `MAX_SEQ` values.
pub proof fn lemma_capacity_of_sequence()
    ensures
        capacity(SEQ_LEN as nat) == MAX_SEQ,
{
    assert(capacity(0) == 1);
    assert(capacity(1) == 62);
    assert(capacity(2) == 3_844);
    assert(capacity(3) == 238_328);
    assert(capacity(4) == 14_776_336);
    assert(capacity(5) == 916_132_832);
    assert(capacity(6) == 56_800_235_584);
    assert(capacity(7) == 3_521_614_606_208);
    assert(capacity(8) == 218_340_105_584_896);
    assert(capacity(9) == 13_537_086_546_263_552);
    assert(capacity(10) == 839_299_365_868_340_224);
}

/// Writes `value` as ten base-62 digits, least significant digit first into
/// the last place, by repeated division.
pub fn encode(value: u64) -> (out: [u8; 10])
    ensures
        as_text(out@) == digits(value as nat, SEQ_LEN as nat),
{
    let mut out: [u8; 10] = [0; 10];
    let mut rest: u64 = value;
    let mut i: usize = SEQ_LEN;
    assert(as_text(out@.subrange(10, 10)) =~= Seq::<char>::empty());
    while i > 0
        invariant
            i <= 10,
            digits(value as nat, 10) == digits(rest as nat, i as nat) + as_text(
                out@.subrange(i as int, 10),
            ),
        decreases i,
    {
        let ghost written = as_text(out@.subrange(i as int, 10));
        let ghost digit = symbol((rest % 62) as int);
        i = i - 1;
        out[i] = symbol_byte(rest % BASE);
        proof {
            assert(as_text(out@.subrange(i as int, 10)) =~= seq![digit] + written);
            assert(digits(rest as nat, (i + 1) as nat) == digits((rest / 62) as nat, i as nat).push(
                digit,
            ));
            assert(digits((rest / 62) as nat, i as nat).push(digit) + written =~= digits(
                (rest / 62) as nat,
                i as nat,
            ) + (seq![digit] + written));
        }
        rest = rest / BASE;
    }
    assert(out@.subrange(0, 10) =~= out@);
    out
}

} // verus!
