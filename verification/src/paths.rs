//! File-name handling on paths held as UTF-8 strings, through `std::path`.

use vstd::prelude::*;

verus! {

/// What `std::path::Path::file_name` gives for the path, as text.
pub uninterp spec fn path_file_name_of(path: Seq<char>) -> Option<Seq<char>>;

/// `i` is the position of the last `.` in the file name.
pub open spec fn is_last_dot(name: Seq<char>, i: int) -> bool {
    &&& 0 <= i < name.len()
    &&& name[i] == '.'
    &&& forall|j: int| i < j < name.len() ==> name[j] != '.'
}

/// The position of the last `.` in the file name, if it holds one.
pub open spec fn last_dot(name: Seq<char>) -> Option<int> {
    if exists|i: int| is_last_dot(name, i) {
        Some(choose|i: int| is_last_dot(name, i))
    } else {
        None
    }
}

/// A file name's stem as std documents it: the whole name when it holds no
/// `.` or its only `.` is the first character, else the part before the
/// last `.`.
pub open spec fn stem_of_file_name(name: Seq<char>) -> Seq<char> {
    match last_dot(name) {
        Some(i) => if i > 0 {
            name.take(i)
        } else {
            name
        },
        None => name,
    }
}

/// A file name's extension as std documents it: none when the name holds no
/// `.` or its only `.` is the first character, else the part after the
/// last `.`.
pub open spec fn extension_of_file_name(name: Seq<char>) -> Option<Seq<char>> {
    match last_dot(name) {
        Some(i) => if i > 0 {
            Some(name.skip(i + 1))
        } else {
            None
        },
        None => None,
    }
}

/// What `std::path::Path::extension` gives for the path, as text: the
/// extension of its file name, none without one.
pub open spec fn path_extension_of(path: Seq<char>) -> Option<Seq<char>> {
    match path_file_name_of(path) {
        Some(name) => extension_of_file_name(name),
        None => None,
    }
}

/// What `std::path::Path::file_stem` gives for the path, as text: the stem
/// of its file name, none without one.
pub open spec fn path_file_stem_of(path: Seq<char>) -> Option<Seq<char>> {
    match path_file_name_of(path) {
        Some(name) => Some(stem_of_file_name(name)),
        None => None,
    }
}

/// What `std::path::Path::with_file_name` gives for the path and name, as text.
pub uninterp spec fn path_with_file_name_of(path: Seq<char>, name: Seq<char>) -> Seq<char>;

/// One normal component of a path on this (Unix) target: not empty, no
/// `/` in it, and neither `.` nor `..`.
pub open spec fn is_normal_component(name: Seq<char>) -> bool {
    &&& name.len() > 0
    &&& forall|i: int| 0 <= i < name.len() ==> name[i] != '/'
    &&& name != "."@
    &&& name != ".."@
}

pub open spec fn text_option(s: Option<String>) -> Option<Seq<char>> {
    match s {
        Some(t) => Some(t@),
        None => None,
    }
}

/// Calls `std::path::Path::extension` on the path: as std documents it, the
/// part of the file name after its last `.`, none when there is no file
/// name, no `.` in it, or only a leading one (the file name itself is named,
/// not described). A file name taken from UTF-8 text is UTF-8, so the
/// conversion back to text always succeeds.
#[verifier::external_body]
pub(crate) fn path_extension(path: &str) -> (extension: Option<String>)
    ensures
        text_option(extension) == path_extension_of(path@),
{
    match std::path::Path::new(path).extension() {
        Some(e) => match e.to_str() {
            Some(t) => Some(t.to_string()),
            None => None,
        },
        None => None,
    }
}

/// Calls `std::path::Path::file_name` on the path. The result is named, not
/// described, beyond what std documents of it: when there is one, it is the
/// path's final normal component, so it is not empty, holds no separator and
/// is neither `.` nor `..`.
#[verifier::external_body]
pub(crate) fn path_file_name(path: &str) -> (name: Option<String>)
    ensures
        text_option(name) == path_file_name_of(path@),
        name matches Some(n) ==> is_normal_component(n@),
{
    match std::path::Path::new(path).file_name() {
        Some(n) => match n.to_str() {
            Some(t) => Some(t.to_string()),
            None => None,
        },
        None => None,
    }
}

/// Calls `std::path::Path::file_stem` on the path: as std documents it, the
/// file name without its last `.` and what follows, the whole name when it
/// has no `.` or only a leading one, none when there is no file name (the
/// file name itself is named, not described).
#[verifier::external_body]
pub(crate) fn path_file_stem(path: &str) -> (stem: Option<String>)
    ensures
        text_option(stem) == path_file_stem_of(path@),
{
    match std::path::Path::new(path).file_stem() {
        Some(n) => match n.to_str() {
            Some(t) => Some(t.to_string()),
            None => None,
        },
        None => None,
    }
}

/// Calls `std::path::Path::with_file_name`, turning the resulting path back
/// into text (which loses nothing, the path being UTF-8 text). The result is
/// named, not described, beyond what std documents of it: a path whose file
/// name is the given name, when that name is one normal component (std pops
/// the old file name, if any, and pushes the new one).
#[verifier::external_body]
pub(crate) fn path_with_file_name(path: &str, name: &str) -> (joined: String)
    ensures
        joined@ == path_with_file_name_of(path@, name@),
        is_normal_component(name@) ==> path_file_name_of(joined@) == Some(name@),
{
    std::path::Path::new(path).with_file_name(name).to_string_lossy().into_owned()
}

} // verus!
