//! The text files that the terminal shows, and where they lie.

use vstd::prelude::*;
use vstd::string::StringExecFns;

verus! {

/// The directory that holds the text files.
pub const ASSET_PATH: &'static str = "./assets";

/// The text files that the terminal shows.
#[derive(Debug, Copy, Clone, PartialEq, Eq, Structural, Hash)]
pub enum Asset {
    /// The welcome message.
    Welcome,
    /// The farewell message.
    Exit,
    /// The text of the main menu's pane.
    Main,
    /// The menu's items, one on each line.
    Menu,
}

impl Asset {
    /// The name of the asset's file.
    pub open spec fn file_name_text(self) -> Seq<char> {
        match self {
            Asset::Welcome => "welcome.txt"@,
            Asset::Exit => "exit.txt"@,
            Asset::Main => "main.txt"@,
            Asset::Menu => "menu.txt"@,
        }
    }

    /// The name of the asset's file.
    pub fn file_name(&self) -> (name: &'static str)
        ensures
            name@ == self.file_name_text(),
    {
        match self {
            Asset::Welcome => "welcome.txt",
            Asset::Exit => "exit.txt",
            Asset::Main => "main.txt",
            Asset::Menu => "menu.txt",
        }
    }
}

/// The path of the asset named `asset_name`: the asset directory, a slash
/// and the name.
pub open spec fn asset_path_text(asset_name: Seq<char>) -> Seq<char> {
    "./assets"@ + "/"@ + asset_name
}

/// The path of the file that holds the asset named `asset_name`.
pub fn asset_path(asset_name: &str) -> (path: String)
    ensures
        path@ == asset_path_text(asset_name@),
{
    let mut path = String::from_str(ASSET_PATH);
    path.append("/");
    path.append(asset_name);
    path
}

} // verus!
