//! The whole demonstration, on its own inputs.

use vstd::prelude::*;
use crate::borrowing::{pass_by_reference, pass_by_reference_lines};
use crate::console::Console;
use crate::copying::{copy_scalar, copy_scalar_lines};
use crate::moving::{move_string, move_string_lines, pass_by_value, pass_by_value_lines};

verus! {

/// Everything that `run` writes: the lines of the four scopes, in order, for
/// the values that `run` gives them.
pub open spec fn tour_lines() -> Seq<Seq<char>> {
    copy_scalar_lines(2, 3) + move_string_lines("hello "@) + pass_by_value_lines(2, "hello "@)
        + pass_by_reference_lines("Ziopera"@, "ziopera"@)
}

/// Runs the four scopes one after the other: a scalar copied and bound anew,
/// a string moved, values passed to functions, and strings lent to
/// functions. It cannot fail, and writes the same lines every time.
pub fn run(console: &mut Console)
    ensures
        final(console)@ == old(console)@ + tour_lines(),
{
    copy_scalar(console, 2, 3);
    move_string(console, "hello ");
    pass_by_value(console, 2, "hello ");
    pass_by_reference(console, "Ziopera", "ziopera");
    assert(final(console)@ =~= old(console)@ + tour_lines());
}

} // verus!
