//! The narration: the lines that a demonstration has written so far.

use vstd::prelude::*;

verus! {

/// The lines written so far, oldest first. A demonstration writes to it
/// where a program would write to standard output; whoever owns it decides
/// what to do with the lines afterwards.
pub struct Console {
    lines: Vec<String>,
}

impl View for Console {
    type V = Seq<Seq<char>>;

    closed spec fn view(&self) -> Seq<Seq<char>> {
        self.lines.deep_view()
    }
}

impl Console {
    /// A console on which nothing has been written.
    pub fn new() -> (console: Console)
        ensures
            console@ == Seq::<Seq<char>>::empty(),
    {
        let console = Console { lines: Vec::new() };
        assert(console@ =~= Seq::<Seq<char>>::empty());
        console
    }

    /// Writes `line` below the lines already there.
    pub fn println(&mut self, line: String)
        ensures
            final(self)@ == old(self)@.push(line@),
    {
        self.lines.push(line);
        assert(final(self)@ =~= old(self)@.push(line@));
    }

    /// How many lines have been written.
    pub fn len(&self) -> (len: usize)
        ensures
            len == self@.len(),
    {
        self.lines.len()
    }

    /// The line at `index`, counted from the oldest.
    pub fn line(&self, index: usize) -> (line: &String)
        requires
            index < self@.len(),
        ensures
            line@ == self@[index as int],
    {
        &self.lines[index]
    }

    /// Hands the lines out, oldest first.
    pub fn into_lines(self) -> (lines: Vec<String>)
        ensures
            lines.deep_view() == self@,
    {
        self.lines
    }
}

} // verus!
