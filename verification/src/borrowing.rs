//! References borrow: a function that gets a shared reference can read the
//! string, one that gets an exclusive reference can change it in place, and
//! either way the caller keeps the string.

use vstd::prelude::*;
use vstd::utf8::{is_ascii_chars, is_ascii_chars_encode_utf8};
use crate::console::Console;
use crate::decimal::{decimal_digits, unsigned_decimal};
use crate::text::{byte_len, lemma_byte_len_concat};

verus! {

/// The text that `append_with_borrowing` adds to its argument.
pub open spec fn borrowed_suffix() -> Seq<char> {
    " fra!"@
}

/// The suffix takes five bytes, so a string that went through
/// `append_with_borrowing` is five bytes longer than it was.
pub proof fn lemma_borrowed_suffix_bytes(s: Seq<char>)
    ensures
        byte_len(s + borrowed_suffix()) == byte_len(s) + 5,
{
    reveal_strlit(" fra!");
    assert(is_ascii_chars(borrowed_suffix()));
    is_ascii_chars_encode_utf8(borrowed_suffix());
    lemma_byte_len_concat(s, borrowed_suffix());
}

/// The line that `print_len_with_borrowing` writes for `s`.
pub open spec fn len_with_borrowing_line(s: Seq<char>) -> Seq<char> {
    "print_len_with_borrowing:the string "@ + s + " has length "@ + decimal_digits(byte_len(s))
}

/// Reads the string through a shared reference and writes it with its length
/// in bytes. The caller's string is neither taken nor changed.
pub fn print_len_with_borrowing(console: &mut Console, s: &String)
    ensures
        final(console)@ == old(console)@.push(len_with_borrowing_line(s@)),
{
    let len: usize = s.len();
    let mut line = String::from("print_len_with_borrowing:the string ");
    line.push_str(s.as_str());
    line.push_str(" has length ");
    line.push_str(unsigned_decimal(len as u64).as_str());
    console.println(line);
}

/// Appends `" fra!"` in place, through an exclusive reference: the caller
/// keeps the string and finds it grown by the suffix.
pub fn append_with_borrowing(s: &mut String)
    ensures
        final(s)@ == old(s)@ + borrowed_suffix(),
{
    s.push_str(" fra!");
}

/// The lines that `pass_by_reference` writes: the heading, what
/// `print_len_with_borrowing` writes of the first string, and the second
/// string as `append_with_borrowing` left it.
pub open spec fn pass_by_reference_lines(read: Seq<char>, grown: Seq<char>) -> Seq<Seq<char>> {
    seq![
        "\n\nSCOPE 4"@,
        len_with_borrowing_line(read),
        "another_str after calling append_with_borrowing on it: "@ + (grown + borrowed_suffix()),
    ]
}

/// Lends a string holding `read` to `print_len_with_borrowing`, and a string
/// holding `grown` to `append_with_borrowing`. Returns both, still owned
/// here: the first as it was, the second with the suffix.
pub fn pass_by_reference(console: &mut Console, read: &str, grown: &str) -> (bindings: (
    String,
    String,
))
    ensures
        bindings.0@ == read@,
        bindings.1@ == grown@ + borrowed_suffix(),
        final(console)@ == old(console)@ + pass_by_reference_lines(read@, grown@),
{
    console.println(String::from("\n\nSCOPE 4"));
    let mystr = String::from(read);
    print_len_with_borrowing(console, &mystr);

    let mut another_str = String::from(grown);
    append_with_borrowing(&mut another_str);
    let mut line = String::from("another_str after calling append_with_borrowing on it: ");
    line.push_str(another_str.as_str());
    console.println(line);

    assert(final(console)@ =~= old(console)@ + pass_by_reference_lines(read@, grown@));
    (mystr, another_str)
}

} // verus!
