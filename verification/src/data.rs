//! The kingdom's data: villages, crafts, and how each is written out.

use vstd::prelude::*;

pub mod craft;
pub mod kingdom;
pub mod saves;
pub mod text;
pub mod village;

verus! {

/// Data that can be written as a line of the terminal's main pane.
pub trait TerminalDisplay {
    /// The line, as the characters it is made of.
    spec fn display_text(&self) -> Seq<char>;

    /// Writes the value as one line, ended by a line break.
    fn display(&self) -> (line: String)
        ensures
            line@ == self.display_text(),
    ;
}

} // verus!
