//! Owned strings are moved: a second binding, or a function's parameter,
//! takes the string over, and the first binding can no longer be used. A
//! function that hands the string back lets its caller bind it again.

use vstd::prelude::*;
use vstd::utf8::{is_ascii_chars, is_ascii_chars_encode_utf8};
use crate::console::Console;
use crate::copying::{incremented_int_line, print_incremented_int};
use crate::decimal::{decimal_digits, decimal_text, signed_decimal, unsigned_decimal};
use crate::text::{byte_len, lemma_byte_len_concat};

verus! {

/// The text that `take_and_return_ownership_with_mut` adds to its argument.
pub open spec fn moved_suffix() -> Seq<char> {
    "world!"@
}

/// The suffix takes six bytes, so a string that went through
/// `take_and_return_ownership_with_mut` is six bytes longer than it was.
pub proof fn lemma_moved_suffix_bytes(arg: Seq<char>)
    ensures
        byte_len(arg + moved_suffix()) == byte_len(arg) + 6,
{
    reveal_strlit("world!");
    assert(is_ascii_chars(moved_suffix()));
    is_ascii_chars_encode_utf8(moved_suffix());
    lemma_byte_len_concat(arg, moved_suffix());
}

/// The line that `print_len_with_ownership` writes for `arg`.
pub open spec fn len_with_ownership_line(arg: Seq<char>) -> Seq<char> {
    "print_len_with_ownership:length of string "@ + arg + ": "@ + decimal_digits(byte_len(arg))
}

/// Takes the string over and writes it with its length in bytes. Nothing is
/// handed back: the string ends with the call.
pub fn print_len_with_ownership(console: &mut Console, arg: String)
    ensures
        final(console)@ == old(console)@.push(len_with_ownership_line(arg@)),
{
    let len: usize = arg.len();
    let mut line = String::from("print_len_with_ownership:length of string ");
    line.push_str(arg.as_str());
    line.push_str(": ");
    line.push_str(unsigned_decimal(len as u64).as_str());
    console.println(line);
}

/// The two lines that `take_and_return_ownership_with_mut` writes for `arg`:
/// the string and its length in bytes as it came, and both again after the
/// suffix was added.
pub open spec fn take_and_return_lines(arg: Seq<char>) -> Seq<Seq<char>> {
    seq![
        "take_and_return_ownership_with_mut:length of string "@ + arg + ": "@ + decimal_digits(
            byte_len(arg),
        ),
        "take_and_return_ownership_with_mut:length of "@ + (arg + moved_suffix())
            + " after adding 'world!' to it: "@ + decimal_digits(byte_len(arg + moved_suffix())),
    ]
}

/// Takes the string over, appends `"world!"` to it and hands it back, writing
/// the string and its length before and after. The parameter is the
/// function's own and may be changed, whether or not the caller's binding
/// was mutable.
pub fn take_and_return_ownership_with_mut(console: &mut Console, mut arg: String) -> (ret: String)
    ensures
        ret@ == arg@ + moved_suffix(),
        final(console)@ == old(console)@ + take_and_return_lines(arg@),
{
    let ghost given = arg@;
    let mut len: usize = arg.len();
    let mut line = String::from("take_and_return_ownership_with_mut:length of string ");
    line.push_str(arg.as_str());
    line.push_str(": ");
    line.push_str(unsigned_decimal(len as u64).as_str());
    console.println(line);

    arg.push_str("world!");
    len = arg.len();
    let mut line = String::from("take_and_return_ownership_with_mut:length of ");
    line.push_str(arg.as_str());
    line.push_str(" after adding 'world!' to it: ");
    line.push_str(unsigned_decimal(len as u64).as_str());
    console.println(line);

    assert(final(console)@ =~= old(console)@ + take_and_return_lines(given));
    arg
}

/// The lines that `move_string` writes: the heading, the string under its
/// first binding and the same string under its second.
pub open spec fn move_string_lines(text: Seq<char>) -> Seq<Seq<char>> {
    seq!["\n\nSCOPE 2"@, "s is "@ + text, "t is "@ + text]
}

/// Binds a new string holding `text` to `s`, then moves it to `t`, writing
/// each. Returns `t`, the one binding that is left, with the text unchanged.
pub fn move_string(console: &mut Console, text: &str) -> (t: String)
    ensures
        t@ == text@,
        final(console)@ == old(console)@ + move_string_lines(text@),
{
    console.println(String::from("\n\nSCOPE 2"));
    let s = String::from(text);
    let mut line = String::from("s is ");
    line.push_str(s.as_str());
    console.println(line);

    let t = s;
    let mut line = String::from("t is ");
    line.push_str(t.as_str());
    console.println(line);

    assert(final(console)@ =~= old(console)@ + move_string_lines(text@));
    t
}

/// The lines that `pass_by_value` writes: the heading; the integer before,
/// inside and after `print_incremented_int`; the string and what
/// `print_len_with_ownership` writes of it; the lines of
/// `take_and_return_ownership_with_mut`, once for the call whose result is
/// dropped and once for the call whose result is bound; and that result.
pub open spec fn pass_by_value_lines(x: int, text: Seq<char>) -> Seq<Seq<char>> {
    seq![
        "\n\nSCOPE 3"@,
        "x before calling print_incremented_int is "@ + decimal_text(x),
        incremented_int_line(x),
        "x after calling print_icremented_int is "@ + decimal_text(x),
        "s is "@ + text,
        len_with_ownership_line(text),
    ] + take_and_return_lines(text) + take_and_return_lines(text)
        + seq!["This is the value of new_s: "@ + (text + moved_suffix())]
}

/// Passes an integer and strings holding `text` to functions by value. The
/// integer is copied and stays as it was. A string passed to a function is
/// gone, unless the function returns it and the caller binds the result: the
/// last string is bound again in that way, under the name it had. Returns the
/// integer and that string.
pub fn pass_by_value(console: &mut Console, x: i32, text: &str) -> (bindings: (i32, String))
    requires
        x < i32::MAX,
    ensures
        bindings.0 == x,
        bindings.1@ == text@ + moved_suffix(),
        final(console)@ == old(console)@ + pass_by_value_lines(x as int, text@),
{
    console.println(String::from("\n\nSCOPE 3"));
    let mut line = String::from("x before calling print_incremented_int is ");
    line.push_str(signed_decimal(x as i64).as_str());
    console.println(line);
    print_incremented_int(console, x);
    let mut line = String::from("x after calling print_icremented_int is ");
    line.push_str(signed_decimal(x as i64).as_str());
    console.println(line);

    let s = String::from(text);
    let mut line = String::from("s is ");
    line.push_str(s.as_str());
    console.println(line);
    print_len_with_ownership(console, s);

    let new_s = String::from(text);
    take_and_return_ownership_with_mut(console, new_s);

    let new_s = String::from(text);
    let new_s = take_and_return_ownership_with_mut(console, new_s);
    let mut line = String::from("This is the value of new_s: ");
    line.push_str(new_s.as_str());
    console.println(line);

    assert(final(console)@ =~= old(console)@ + pass_by_value_lines(x as int, text@));
    (x, new_s)
}

} // verus!
