use crate::loader::{Loader, SherlockError};
use vstd::prelude::*;

verus! {

/// `path` with each `~` replaced by `home`.
pub open spec fn expand_home(path: Seq<char>, home: Seq<char>) -> Seq<char>
    decreases path.len(),
{
    if path.len() == 0 {
        Seq::empty()
    } else if path.last() == '~' {
        expand_home(path.drop_last(), home) + home
    } else {
        expand_home(path.drop_last(), home).push(path.last())
    }
}

/// The name of the error for a home directory that is not known.
pub open spec fn home_error_name() -> Seq<char> {
    "Env Var Not Found Error"@
}

/// The message of the error for a home directory that is not known.
pub open spec fn home_error_message() -> Seq<char> {
    "Cannot unpack home directory for user."@
}

/// Writes `path` with each `~` replaced by `home`.
pub fn expand_path(path: &String, home: &String) -> (expanded: String)
    ensures
        expanded@ == expand_home(path@, home@),
{
    let text = path.as_str();
    let n = text.unicode_len();
    let mut expanded = String::new();
    let mut i: usize = 0;
    while i < n
        invariant
            i <= n,
            n == text@.len(),
            text@ == path@,
            expanded@ == expand_home(text@.take(i as int), home@),
        decreases n - i,
    {
        proof {
            assert(text@.take(i + 1).drop_last() == text@.take(i as int));
        }
        if text.get_char(i) == '~' {
            expanded.append(home.as_str());
        } else {
            let piece = text.substring_char(i, i + 1);
            expanded.append(piece);
        }
        i = i + 1;
    }
    proof {
        assert(text@.take(n as int) == text@);
    }
    expanded
}

impl Loader {
    /// Works out the directories in which icons are looked for: each of
    /// `icon_paths` with `~` replaced by the home directory.
    ///
    /// `home` is the home directory or, where it is not known, the words
    /// that say why. Without a home directory there are no directories to
    /// look in, and the error carries those words.
    pub fn load_icon_theme(icon_paths: &Vec<String>, home: Result<String, String>) -> (loaded: Result<
        Vec<String>,
        SherlockError,
    >)
        ensures
            match home {
                Ok(dir) => match loaded {
                    Ok(paths) => {
                        &&& paths.len() == icon_paths.len()
                        &&& forall|i: int|
                            0 <= i < paths.len() ==> (#[trigger] paths[i])@ == expand_home(icon_paths[i]@, dir@)
                    },
                    Err(_) => false,
                },
                Err(why) => match loaded {
                    Ok(_) => false,
                    Err(e) => {
                        &&& e.name@ == home_error_name()
                        &&& e.message@ == home_error_message()
                        &&& e.traceback@ == why@
                    },
                },
            },
    {
        let dir = match home {
            Ok(dir) => dir,
            Err(why) => {
                return Err(
                    SherlockError {
                        name: String::from_str("Env Var Not Found Error"),
                        message: String::from_str("Cannot unpack home directory for user."),
                        traceback: why,
                    },
                );
            },
        };
        let mut paths: Vec<String> = Vec::new();
        let mut i: usize = 0;
        while i < icon_paths.len()
            invariant
                i <= icon_paths.len(),
                paths.len() == i,
                forall|j: int| 0 <= j < i ==> (#[trigger] paths[j])@ == expand_home(icon_paths[j]@, dir@),
            decreases icon_paths.len() - i,
        {
            paths.push(expand_path(&icon_paths[i], &dir));
            i = i + 1;
        }
        Ok(paths)
    }
}

} // verus!
