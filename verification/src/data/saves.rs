//! Where the save files lie.

use vstd::prelude::*;
use vstd::string::StringExecFns;

verus! {

/// The directory that holds the save files.
pub const SAVES_PATH: &'static str = "./saves";

/// The path of the save file named `file_name`: the directory of the save
/// files, a slash and the name.
pub open spec fn save_file_path_text(file_name: Seq<char>) -> Seq<char> {
    "./saves"@ + "/"@ + file_name
}

/// The path of the save file named `file_name`.
pub fn save_file_path(file_name: &str) -> (path: String)
    ensures
        path@ == save_file_path_text(file_name@),
{
    let mut path = String::from_str(SAVES_PATH);
    path.append("/");
    path.append(file_name);
    path
}

} // verus!
