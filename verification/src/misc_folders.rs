use crate::army_setups_folder::PathKind;
use crate::ca_game::no_home_message;
use crate::paths::{home_dir, join_path, joined_path};
use vstd::prelude::*;
use vstd::string::StringExecFns;

verus! {

/// The words in which a folder that is asked for and is missing is told.
pub open spec fn missing_dir_message(path: Seq<char>) -> Seq<char> {
    "Does Not Exist: "@ + path + " "@
}

/// A folder that was asked for, given what stands at its path: the path,
/// unless the folder must exist and nothing stands there.
pub fn existing_dir(path: String, kind: PathKind, must_exist: bool) -> (r: Result<String, String>)
    ensures
        match r {
            Ok(p) => p@ == path@ && !(kind == PathKind::Missing && must_exist),
            Err(e) => e@ == missing_dir_message(path@) && kind == PathKind::Missing && must_exist,
        },
{
    if kind == PathKind::Missing && must_exist {
        let mut e = String::from_str("Does Not Exist: ");
        e.append(path.as_str());
        e.append(" ");
        return Err(e);
    }
    Ok(path)
}

/// The path of a folder below the home folder that the environment names;
/// an error where it names none.
pub fn get_user_dir(subdir_str: &str) -> (r: Result<String, String>)
    ensures
        match r {
            Ok(p) => exists|home: Seq<char>| p@ == #[trigger] joined_path(home, subdir_str@),
            Err(e) => e@ == no_home_message(),
        },
{
    match home_dir() {
        Some(home) => {
            let p = join_path(home.as_str(), subdir_str);
            assert(p@ == joined_path(home@, subdir_str@));
            Ok(p)
        },
        None => Err(String::from_str("dirs::home_dir() None")),
    }
}

} // verus!
