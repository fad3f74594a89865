//! Where the records are kept: the directory of this program below the
//! user's configuration directory, the catalog file in it, and one directory
//! with a history file for each benchmark.
//!
//! Locations are texts in which `/` parts the directories.

use vstd::prelude::*;
use vstd::string::StrSliceExecFns;
use vstd::string::StringExecFns;

verus! {

/// A location below another: `part` itself where it starts at the root, else
/// `part` behind `base`, with a `/` between them unless `base` is empty or
/// ends in one.
pub open spec fn joined(base: Seq<char>, part: Seq<char>) -> Seq<char> {
    if part.len() > 0 && part[0] == '/' {
        part
    } else if base.len() == 0 || base.last() == '/' {
        base + part
    } else {
        base + seq!['/'] + part
    }
}

/// The directory of this program below a configuration directory.
pub open spec fn config_root_below(base: Seq<char>) -> Seq<char> {
    joined(base, "bb/"@)
}

/// The history file of a benchmark below the directory of this program.
pub open spec fn individual_config_below(root: Seq<char>, name: Seq<char>) -> Seq<char> {
    joined(joined(root, name), "info.json"@)
}

/// The catalog file below the directory of this program.
pub open spec fn top_level_config_below(root: Seq<char>) -> Seq<char> {
    joined(root, "top.json"@)
}

/// Puts a location below another.
pub fn join_path(base: &str, part: &str) -> (path: String)
    ensures
        path@ == joined(base@, part@),
{
    let part_len = part.unicode_len();
    if part_len > 0 && part.get_char(0) == '/' {
        return part.to_owned();
    }
    let base_len = base.unicode_len();
    let mut path = base.to_owned();
    if base_len > 0 && base.get_char(base_len - 1) != '/' {
        proof {
            reveal_strlit("/");
        }
        path.append("/");
    }
    path.append(part);
    path
}

/// Asks `dirs::config_dir` for the user's configuration directory and hands
/// it out as text. The answer depends on the platform and on the environment
/// of the process, so nothing is claimed of it.
#[verifier::external_body]
fn user_config_dir() -> (dir: Option<String>) {
    match dirs::config_dir() {
        Some(dir) => Some(dir.to_string_lossy().into_owned()),
        None => None,
    }
}

/// The directory of this program below the given configuration directory.
pub fn config_root_dir_in(base: &str) -> (root: String)
    ensures
        root@ == config_root_below(base@),
{
    join_path(base, "bb/")
}

/// The history file of a benchmark, for the given directory of this program.
pub fn individual_config_file_in(root: &str, name: &str) -> (path: String)
    ensures
        path@ == individual_config_below(root@, name@),
{
    let dir = join_path(root, name);
    join_path(dir.as_str(), "info.json")
}

/// The catalog file, for the given directory of this program.
pub fn top_level_config_file_in(root: &str) -> (path: String)
    ensures
        path@ == top_level_config_below(root@),
{
    join_path(root, "top.json")
}

/// The directory of this program below the user's configuration directory, or
/// `None` where the platform names no such directory.
pub fn get_config_root_dir() -> (root: Option<String>)
    ensures
        root matches Some(dir) ==> exists|base: Seq<char>| dir@ == config_root_below(base),
{
    let base = user_config_dir();
    config_root_dir_from(base)
}

/// The history file of a benchmark below the user's configuration directory,
/// or `None` where the platform names no such directory. Which directory
/// that is, the platform and the environment of the process decide;
/// [`individual_config_file_from`] says what is made of either answer.
pub fn get_individual_config_file(name: &str) -> (path: Option<String>)
    ensures
        path matches Some(file) ==> exists|base: Seq<char>|
            file@ == individual_config_below(config_root_below(base), name@),
{
    let base = user_config_dir();
    individual_config_file_from(base, name)
}

/// The catalog file below the user's configuration directory, or `None` where
/// the platform names no such directory. Which directory that is, the
/// platform and the environment of the process decide;
/// [`top_level_config_file_from`] says what is made of either answer.
pub fn get_top_level_config_file() -> (path: Option<String>)
    ensures
        path matches Some(file) ==> exists|base: Seq<char>|
            file@ == top_level_config_below(config_root_below(base)),
{
    let base = user_config_dir();
    top_level_config_file_from(base)
}

/// The directory of this program for what the platform answered when it was
/// asked for the user's configuration directory: below that directory, or
/// `None` where the platform named none.
pub fn config_root_dir_from(base: Option<String>) -> (root: Option<String>)
    ensures
        match base {
            Some(dir) => root matches Some(found) && found@ == config_root_below(dir@),
            None => root is None,
        },
{
    match base {
        Some(dir) => Some(config_root_dir_in(dir.as_str())),
        None => None,
    }
}

/// The history file of a benchmark for what the platform answered when it
/// was asked for the user's configuration directory: in the directory of this
/// program below that directory, or `None` where the platform named none.
pub fn individual_config_file_from(base: Option<String>, name: &str) -> (path: Option<String>)
    ensures
        match base {
            Some(dir) => path matches Some(file) && file@ == individual_config_below(
                config_root_below(dir@),
                name@,
            ),
            None => path is None,
        },
{
    match config_root_dir_from(base) {
        Some(root) => Some(individual_config_file_in(root.as_str(), name)),
        None => None,
    }
}

/// The catalog file for what the platform answered when it was asked for the
/// user's configuration directory: in the directory of this program below
/// that directory, or `None` where the platform named none.
pub fn top_level_config_file_from(base: Option<String>) -> (path: Option<String>)
    ensures
        match base {
            Some(dir) => path matches Some(file) && file@ == top_level_config_below(
                config_root_below(dir@),
            ),
            None => path is None,
        },
{
    match config_root_dir_from(base) {
        Some(root) => Some(top_level_config_file_in(root.as_str())),
        None => None,
    }
}

} // verus!
