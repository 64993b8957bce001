//! Scalars are copied: a second binding, or a function's parameter, gets a
//! value of its own, and the first binding stays usable and unchanged.

use vstd::prelude::*;
use crate::console::Console;
use crate::decimal::{decimal_text, signed_decimal};

verus! {

/// The line that `print_incremented_int` writes for `arg`.
pub open spec fn incremented_int_line(arg: int) -> Seq<char> {
    "print_incremented_int:argument incremented by one is: "@ + decimal_text(arg + 1)
}

/// Takes a copy of the caller's integer, adds one to the copy and writes the
/// sum. The caller's own binding is not touched: it passed a value, not a
/// place.
pub fn print_incremented_int(console: &mut Console, arg: i32)
    requires
        arg < i32::MAX,
    ensures
        final(console)@ == old(console)@.push(incremented_int_line(arg as int)),
{
    let res: i32 = arg + 1;
    let mut line = String::from("print_incremented_int:argument incremented by one is: ");
    line.push_str(signed_decimal(res as i64).as_str());
    console.println(line);
}

/// The lines that `copy_scalar` writes: the heading, the first binding, its
/// copy, the first binding again, and both after the first was bound anew.
pub open spec fn copy_scalar_lines(start: int, rebound: int) -> Seq<Seq<char>> {
    seq![
        "\n\nSCOPE 1"@,
        "x is "@ + decimal_text(start),
        "y is "@ + decimal_text(start),
        "I can still use x: in fact, x is "@ + decimal_text(start),
        "Now I have bound x to "@ + decimal_text(rebound) + ". y is "@ + decimal_text(start)
            + ", so the copy I made with let y = x is 'deep'"@,
    ]
}

/// Binds `x` to `start`, copies it into `y`, then binds `x` to `rebound`,
/// writing the bindings as it goes. Returns `(x, y)` as they stand at the
/// end: the copy still holds `start`, whatever `x` was bound to afterwards.
pub fn copy_scalar(console: &mut Console, start: i8, rebound: i8) -> (bindings: (i8, i8))
    ensures
        bindings.0 == rebound,
        bindings.1 == start,
        final(console)@ == old(console)@ + copy_scalar_lines(start as int, rebound as int),
{
    console.println(String::from("\n\nSCOPE 1"));
    let mut x: i8 = start;
    let mut line = String::from("x is ");
    line.push_str(signed_decimal(x as i64).as_str());
    console.println(line);

    let y: i8 = x;
    let mut line = String::from("y is ");
    line.push_str(signed_decimal(y as i64).as_str());
    console.println(line);

    let mut line = String::from("I can still use x: in fact, x is ");
    line.push_str(signed_decimal(x as i64).as_str());
    console.println(line);

    x = rebound;
    let mut line = String::from("Now I have bound x to ");
    line.push_str(signed_decimal(x as i64).as_str());
    line.push_str(". y is ");
    line.push_str(signed_decimal(y as i64).as_str());
    line.push_str(", so the copy I made with let y = x is 'deep'");
    console.println(line);

    assert(final(console)@ =~= old(console)@ + copy_scalar_lines(start as int, rebound as int));
    (x, y)
}

} // verus!
