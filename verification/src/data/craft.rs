//! Crafts and their categories.

use vstd::prelude::*;
use vstd::string::StringExecFns;
use crate::data::text::{integer_text, signed_decimal};
use crate::data::TerminalDisplay;

verus! {

/// The categories of craft that a kingdom can practise.
#[derive(Debug, Copy, Clone, PartialEq, Eq, Structural, Hash)]
pub enum CraftType {
    /// Work in wood.
    Woodworker,
    /// Work in stone.
    Stonemason,
}

/// The error of reading a craft category from a text that names none.
#[derive(Debug, Copy, Clone, PartialEq, Eq, Structural)]
pub struct ParseError;

impl CraftType {
    /// The category's name.
    pub open spec fn name_text(self) -> Seq<char> {
        match self {
            CraftType::Woodworker => "Woodworker"@,
            CraftType::Stonemason => "Stonemason"@,
        }
    }

    /// The category that a text names, if it names one.
    pub open spec fn parse_text(text: Seq<char>) -> Result<CraftType, ParseError> {
        if text == "Woodworker"@ {
            Ok(CraftType::Woodworker)
        } else if text == "Stonemason"@ {
            Ok(CraftType::Stonemason)
        } else {
            Err(ParseError)
        }
    }

    /// The category's name, as it stands in a save file.
    pub fn to_string(&self) -> (name: String)
        ensures
            name@ == self.name_text(),
    {
        match self {
            CraftType::Woodworker => String::from_str("Woodworker"),
            CraftType::Stonemason => String::from_str("Stonemason"),
        }
    }

    /// Reads a category from its name. Any other text is a `ParseError`.
    pub fn from_str(s: &str) -> (result: Result<CraftType, ParseError>)
        ensures
            result == Self::parse_text(s@),
    {
        let text = String::from_str(s);
        if text == String::from_str("Woodworker") {
            Ok(CraftType::Woodworker)
        } else if text == String::from_str("Stonemason") {
            Ok(CraftType::Stonemason)
        } else {
            Err(ParseError)
        }
    }

    /// A category's name reads back as that category.
    pub proof fn lemma_name_reads_back(self)
        ensures
            Self::parse_text(self.name_text()) == Ok::<CraftType, ParseError>(self),
    {
        reveal_strlit("Woodworker");
        reveal_strlit("Stonemason");
        assert("Woodworker"@[0] != "Stonemason"@[0]);
    }
}

impl std::str::FromStr for CraftType {
    type Err = ParseError;

    fn from_str(s: &str) -> (result: Result<Self, Self::Err>)
        ensures
            result == CraftType::parse_text(s@),
    {
        CraftType::from_str(s)
    }
}

/// One craft that the kingdom practises, with the level it has reached.
#[derive(Debug, Copy, Clone, PartialEq, Eq, Structural, Hash)]
pub struct Craft {
    /// The craft's category.
    pub craft_type: CraftType,
    /// The level reached.
    pub lvl: i32,
}

impl TerminalDisplay for Craft {
    /// The category's name, a colon, the word `Level`, the level in
    /// decimal, a blank and a line break.
    open spec fn display_text(&self) -> Seq<char> {
        self.craft_type.name_text() + ": Level "@ + signed_decimal(self.lvl as int) + " \n"@
    }

    fn display(&self) -> (line: String) {
        let mut line = self.craft_type.to_string();
        line.append(": Level ");
        line.append(integer_text(self.lvl).as_str());
        line.append(" \n");
        line
    }
}

} // verus!
