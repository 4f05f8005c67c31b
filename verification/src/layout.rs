//! Where things live: the release repository, and the names of the
//! directories and files a resolution creates under the working directory.
//!
//! Each release is unpacked into a directory of its own, named after the
//! release tag, which holds the executable directly. Relative paths are
//! written with `/`.
use vstd::prelude::*;
use vstd::string::*;
use crate::platform::{executable_name, get_executable_name, Os};
use crate::text::append;

verus! {

/// The repository whose releases are installed, as `<owner>/<name>`.
pub open spec fn repository() -> Seq<char> {
    "qwadrox"@ + "/"@ + "netcoredbg"@
}

/// The directory that holds the release with the given tag.
pub open spec fn version_dir(tag: Seq<char>) -> Seq<char> {
    "netcoredbg_v"@ + tag
}

/// The prefix of the temporary directory that a download of the given tag
/// is unpacked into. The host completes it to a name that is not in use.
pub open spec fn temp_dir_prefix(tag: Seq<char>) -> Seq<char> {
    "netcoredbg_v"@ + tag + "_"@
}

/// The executable's path inside the version directory, relative to the
/// working directory.
pub open spec fn binary_path(tag: Seq<char>, os: Os) -> Seq<char> {
    version_dir(tag) + "/"@ + executable_name(os)
}

pub fn repository_name() -> (r: String)
    ensures
        r@ == repository(),
{
    let mut r = String::from_str("qwadrox");
    r.append("/");
    r.append("netcoredbg");
    r
}

pub fn version_dir_name(tag: &str) -> (r: String)
    ensures
        r@ == version_dir(tag@),
{
    append("netcoredbg_v", tag)
}

pub fn temp_dir_prefix_for(tag: &str) -> (r: String)
    ensures
        r@ == temp_dir_prefix(tag@),
{
    let mut r = append("netcoredbg_v", tag);
    r.append("_");
    r
}

pub fn binary_path_for(tag: &str, os: Os) -> (r: String)
    ensures
        r@ == binary_path(tag@, os),
{
    let mut r = version_dir_name(tag);
    r.append("/");
    r.append(get_executable_name(os));
    r
}

/// The executable lies directly inside its version directory: its path is
/// the directory's, one separator, and the executable's file name.
pub proof fn binary_path_is_inside_version_dir(tag: Seq<char>, os: Os)
    ensures
        version_dir(tag).is_prefix_of(binary_path(tag, os)),
        executable_name(os).is_suffix_of(binary_path(tag, os)),
        binary_path(tag, os).len() == version_dir(tag).len() + 1 + executable_name(os).len(),
        binary_path(tag, os)[version_dir(tag).len() as int] == '/',
{
    reveal_strlit("/");
    let dir = version_dir(tag);
    let path = binary_path(tag, os);
    assert(path.subrange(0, dir.len() as int) =~= dir);
    assert(path.subrange(path.len() - executable_name(os).len(), path.len() as int)
        =~= executable_name(os));
}

} // verus!
