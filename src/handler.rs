//! The reference request handler: it reverses the order of the characters.

use vstd::prelude::*;
use vstd::std_specs::iter::IteratorSpec;

verus! {

broadcast use {vstd::string::axiom_spec_iter, vstd::string::next_postcondition};

/// Relies on `FromIterator<&char> for String`: the string holds the given
/// characters in the given order.
#[verifier::external_body]
fn text_from_chars(chars: &[char]) -> (r: String)
    ensures
        r@ == chars@,
{
    chars.iter().collect()
}

/// The characters of `text` in reverse order.
pub fn reverse(text: &str) -> (r: String)
    ensures
        r@ == text@.reverse(),
{
    let mut it = text.chars();
    let mut seen: Vec<char> = Vec::new();
    loop
        invariant
            seen@ + it.remaining() == text@,
            it.decrease() is Some,
        ensures
            seen@ == text@,
        decreases it.decrease()->0,
    {
        let ghost before = it.remaining();
        match it.next() {
            Some(c) => {
                assert(seen@.push(c) + it.remaining() =~= seen@ + before);
                seen.push(c);
            },
            None => {
                assert(seen@ =~= text@);
                break;
            },
        }
    }
    let mut out: Vec<char> = Vec::new();
    let mut i: usize = seen.len();
    while i > 0
        invariant
            i <= seen.len(),
            out@ =~= seen@.subrange(i as int, seen@.len() as int).reverse(),
        decreases i,
    {
        i = i - 1;
        out.push(seen[i]);
    }
    assert(seen@.subrange(0, seen@.len() as int) =~= seen@);
    text_from_chars(out.as_slice())
}

} // verus!
