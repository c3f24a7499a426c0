//! From bytes to a `String`, one character per byte.

use vstd::prelude::*;
use crate::alphabet::as_text;

verus! {

/// `String::push`.
///
/// Trusted: the string afterwards is the string before with `c` appended.
#[verifier::external_body]
fn push_char(text: &mut String, c: char)
    ensures
        final(text)@ == old(text)@.push(c),
{
    text.push(c)
}

/// The string whose characters are the given bytes, in order.
pub fn string_of(bytes: &[u8]) -> (text: String)
    ensures
        text@ == as_text(bytes@),
{
    let mut text = String::new();
    let mut i: usize = 0;
    while i < bytes.len()
        invariant
            i <= bytes.len(),
            text@ == as_text(bytes@.subrange(0, i as int)),
        decreases bytes.len() - i,
    {
        push_char(&mut text, bytes[i] as char);
        i = i + 1;
        assert(as_text(bytes@.subrange(0, i as int)) =~= as_text(
            bytes@.subrange(0, i - 1),
        ).push(bytes@[i - 1] as char));
    }
    assert(bytes@.subrange(0, i as int) =~= bytes@);
    text
}

} // verus!
