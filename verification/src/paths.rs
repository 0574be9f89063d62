//! Where things live: the base directory and the paths derived from it.
//!
//! Paths are texts with `/` between their parts. Every path of a set is a
//! function of the base directory and the name of the set's directory, so a
//! store that has been moved is found again from its new base alone.

use vstd::prelude::*;

verus! {

/// The directory, relative to its parent, in which a store keeps its sets
/// unless it is told otherwise.
pub const DEFAULT_STORE_DIR: &'static str = "pdfs";

/// The name of the copied original document inside a set's directory.
pub const ORIGINAL_FILE: &'static str = "original.pdf";

/// The name of the copied translated document inside a set's directory.
pub const TRANSLATED_FILE: &'static str = "translated.pdf";

/// The name of the metadata record inside a set's directory.
pub const METADATA_FILE: &'static str = "metadata.json";

/// The path of the entry `name` inside `dir`: the two joined by exactly one
/// `/`, or `name` alone where `dir` is empty.
pub open spec fn child_path_text(dir: Seq<char>, name: Seq<char>) -> Seq<char> {
    if dir.len() == 0 {
        name
    } else if dir.last() == '/' {
        dir + name
    } else {
        dir + seq!['/'] + name
    }
}

/// The directory of the set named `id` under `base`.
pub open spec fn set_dir_text(base: Seq<char>, id: Seq<char>) -> Seq<char> {
    child_path_text(base, id)
}

/// The path of the original document of the set named `id` under `base`.
pub open spec fn original_path_text(base: Seq<char>, id: Seq<char>) -> Seq<char> {
    child_path_text(set_dir_text(base, id), ORIGINAL_FILE@)
}

/// The path of the translated document of the set named `id` under `base`.
pub open spec fn translated_path_text(base: Seq<char>, id: Seq<char>) -> Seq<char> {
    child_path_text(set_dir_text(base, id), TRANSLATED_FILE@)
}

/// The path of the metadata record of the set named `id` under `base`.
pub open spec fn metadata_path_text(base: Seq<char>, id: Seq<char>) -> Seq<char> {
    child_path_text(set_dir_text(base, id), METADATA_FILE@)
}

/// How the base directory of a store is found.
#[derive(Debug, Clone, PartialEq, Eq)]
pub enum BasePolicy {
    /// The store lives at `path`, whatever the environment.
    Fixed { path: String },
    /// The store lives at `suffix` below the home directory of the user.
    UnderHome { suffix: String },
}

/// What a [`BasePolicy`] holds, with its texts as sequences of characters.
pub enum PolicyView {
    Fixed { path: Seq<char> },
    UnderHome { suffix: Seq<char> },
}

impl View for BasePolicy {
    type V = PolicyView;

    open spec fn view(&self) -> PolicyView {
        match *self {
            BasePolicy::Fixed { path } => PolicyView::Fixed { path: path@ },
            BasePolicy::UnderHome { suffix } => PolicyView::UnderHome { suffix: suffix@ },
        }
    }
}

/// The base directory could not be found from the environment.
#[derive(Debug, PartialEq, Eq)]
pub struct ConfigurationError {
    pub message: String,
}

/// The base directory that `policy` gives where the home directory is `home`,
/// or the message of the error where the policy needs a home directory and
/// there is none.
pub open spec fn resolved_base_text(policy: PolicyView, home: Option<Seq<char>>) -> Result<
    Seq<char>,
    Seq<char>,
> {
    match policy {
        PolicyView::Fixed { path } => Ok(path),
        PolicyView::UnderHome { suffix } => match home {
            Some(home) => Ok(child_path_text(home, suffix)),
            None => Err("Home directory is not available"@),
        },
    }
}

/// Finds the base directory of a store. `home` is the home directory of the
/// user as the environment gives it, absent where it gives none.
pub fn resolve_base_dir(policy: &BasePolicy, home: Option<&str>) -> (result: Result<
    String,
    ConfigurationError,
>)
    ensures
        match resolved_base_text(
            policy@,
            match home {
                Some(home) => Some(home@),
                None => None,
            },
        ) {
            Ok(base) => result is Ok && result->Ok_0@ == base,
            Err(message) => result is Err && result->Err_0.message@ == message,
        },
{
    match policy {
        BasePolicy::Fixed { path } => Ok(path.clone()),
        BasePolicy::UnderHome { suffix } => match home {
            Some(home) => Ok(child_path(home, suffix.as_str())),
            None => Err(
                ConfigurationError {
                    message: String::from_str("Home directory is not available"),
                },
            ),
        },
    }
}

/// Joins `name` to `dir`.
pub fn child_path(dir: &str, name: &str) -> (path: String)
    ensures
        path@ == child_path_text(dir@, name@),
{
    let len: usize = dir.unicode_len();
    if len == 0 {
        String::from_str(name)
    } else if dir.get_char(len - 1) == '/' {
        String::from_str(dir).concat(name)
    } else {
        proof {
            reveal_strlit("/");
            assert("/"@ =~= seq!['/']);
        }
        String::from_str(dir).concat("/").concat(name)
    }
}

/// The directory of the set named `id` under `base`.
pub fn set_dir(base: &str, id: &str) -> (path: String)
    ensures
        path@ == set_dir_text(base@, id@),
{
    child_path(base, id)
}

/// The path of the original document of the set named `id` under `base`.
pub fn original_path(base: &str, id: &str) -> (path: String)
    ensures
        path@ == original_path_text(base@, id@),
{
    let dir = set_dir(base, id);
    child_path(dir.as_str(), ORIGINAL_FILE)
}

/// The path of the translated document of the set named `id` under `base`.
pub fn translated_path(base: &str, id: &str) -> (path: String)
    ensures
        path@ == translated_path_text(base@, id@),
{
    let dir = set_dir(base, id);
    child_path(dir.as_str(), TRANSLATED_FILE)
}

/// The path of the metadata record of the set named `id` under `base`.
pub fn metadata_path(base: &str, id: &str) -> (path: String)
    ensures
        path@ == metadata_path_text(base@, id@),
{
    let dir = set_dir(base, id);
    child_path(dir.as_str(), METADATA_FILE)
}

} // verus!
