//! Lengths of names, symbols, URIs and usernames, which are limited in
//! bytes.

use vstd::prelude::*;

verus! {

/// The length of a text in bytes: that of its UTF-8 encoding.
pub open spec fn byte_length(text: Seq<char>) -> nat {
    vstd::utf8::encode_utf8(text).len()
}

/// The length of a text in bytes.
pub fn text_length(text: &String) -> (n: usize)
    ensures
        n == byte_length(text@),
{
    text.as_str().as_bytes().len()
}

} // verus!
