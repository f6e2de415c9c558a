//! Villages.

use vstd::prelude::*;
use vstd::string::StringExecFns;
use crate::data::text::{integer_text, signed_decimal};
use crate::data::TerminalDisplay;

verus! {

/// A village of the kingdom.
#[derive(Debug, Clone, PartialEq, Eq)]
pub struct Village {
    /// The village's name.
    pub name: String,
    /// How many citizens live in it.
    pub num_citizen: i32,
}

/// A village as a mathematical value.
pub struct VillageView {
    /// The name, as its characters.
    pub name: Seq<char>,
    /// The number of citizens.
    pub num_citizen: int,
}

impl View for Village {
    type V = VillageView;

    open spec fn view(&self) -> VillageView {
        VillageView { name: self.name@, num_citizen: self.num_citizen as int }
    }
}

impl VillageView {
    /// The village's line: its name, a colon, the number of citizens in
    /// decimal, the word `Citizen` and a line break.
    pub open spec fn display_text(self) -> Seq<char> {
        self.name + ": "@ + signed_decimal(self.num_citizen) + " Citizen\n"@
    }

    /// The village with `citizen` more citizens.
    pub open spec fn grown(self, citizen: int) -> VillageView {
        VillageView { name: self.name, num_citizen: self.num_citizen + citizen }
    }
}

impl TerminalDisplay for Village {
    open spec fn display_text(&self) -> Seq<char> {
        self@.display_text()
    }

    fn display(&self) -> (line: String) {
        let mut line = self.name.clone();
        line.append(": ");
        line.append(integer_text(self.num_citizen).as_str());
        line.append(" Citizen\n");
        line
    }
}

} // verus!
