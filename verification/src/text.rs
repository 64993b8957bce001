//! What the library relies on from the standard library's `String`, and the
//! byte length of a text.

use vstd::prelude::*;
use vstd::utf8::encode_utf8;

verus! {

/// The number of bytes that `text` takes in UTF-8.
pub open spec fn byte_len(text: Seq<char>) -> nat {
    encode_utf8(text).len()
}

/// `String::from` on a string slice: the new string holds the characters of
/// the slice. Taken from the standard library's documentation, not proved.
pub assume_specification<'a, 'b>[ <String as From<&'a str>>::from ](s: &'b str) -> (res: String)
    ensures
        res@ == s@,
;

/// `String::len`: the length of the string in bytes of UTF-8, not in
/// characters. Taken from the standard library's documentation, not proved.
pub assume_specification[ String::len ](s: &String) -> (len: usize)
    ensures
        len == byte_len(s@),
;

/// `String::push_str`: the string afterwards is the string before followed
/// by the characters of `string`. Taken from the standard library's
/// documentation, not proved.
pub assume_specification[ String::push_str ](s: &mut String, string: &str)
    ensures
        final(s)@ == old(s)@ + string@,
;

/// The bytes of a concatenation are the bytes of its parts, one after the
/// other.
pub proof fn lemma_encode_concat(a: Seq<char>, b: Seq<char>)
    ensures
        encode_utf8(a + b) == encode_utf8(a) + encode_utf8(b),
    decreases a.len(),
{
    if a.len() == 0 {
        assert(a + b =~= b);
    } else {
        assert((a + b).drop_first() =~= a.drop_first() + b);
        lemma_encode_concat(a.drop_first(), b);
        assert(encode_utf8(a + b) =~= encode_utf8(a) + encode_utf8(b));
    }
}

/// Appending adds byte lengths.
pub proof fn lemma_byte_len_concat(a: Seq<char>, b: Seq<char>)
    ensures
        byte_len(a + b) == byte_len(a) + byte_len(b),
{
    lemma_encode_concat(a, b);
}

} // verus!
