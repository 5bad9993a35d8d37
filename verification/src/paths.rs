//! The parts of a file path that the catalog reads: file name, stem and extension.
use vstd::prelude::*;

verus! {

/// What `std::path::Path::file_name` gives for a path: its final component,
/// or nothing when the path ends in `..` or has no component.
pub uninterp spec fn spec_file_name(path: Seq<char>) -> Option<Seq<char>>;

/// Index of the last `.` in `name`, if any.
pub open spec fn last_dot(name: Seq<char>) -> Option<int>
    decreases name.len(),
{
    if name.len() == 0 {
        None
    } else if name.last() == '.' {
        Some(name.len() - 1)
    } else {
        last_dot(name.drop_last())
    }
}

/// The stem of a file name as `Path::file_stem` documents it: the whole name
/// when it holds no `.` or only a leading one, else the part before the final `.`.
pub open spec fn stem_of_name(name: Seq<char>) -> Seq<char> {
    match last_dot(name) {
        Some(k) => if k == 0 {
            name
        } else {
            name.take(k)
        },
        None => name,
    }
}

/// The extension of a file name as `Path::extension` documents it: nothing when
/// the name holds no `.` or only a leading one, else the part after the final `.`.
pub open spec fn extension_of_name(name: Seq<char>) -> Option<Seq<char>> {
    match last_dot(name) {
        Some(k) => if k == 0 {
            None
        } else {
            Some(name.skip(k + 1))
        },
        None => None,
    }
}

/// The stem of a path: that of its file name, if it has one.
pub open spec fn spec_file_stem(path: Seq<char>) -> Option<Seq<char>> {
    match spec_file_name(path) {
        Some(name) => Some(stem_of_name(name)),
        None => None,
    }
}

/// The extension of a path: that of its file name, if it has one.
pub open spec fn spec_extension(path: Seq<char>) -> Option<Seq<char>> {
    match spec_file_name(path) {
        Some(name) => extension_of_name(name),
        None => None,
    }
}

pub open spec fn opt_view(o: Option<String>) -> Option<Seq<char>> {
    match o {
        Some(s) => Some(s@),
        None => None,
    }
}

/// `Path::file_name`: the final component of `path`. The contract names the
/// result and says nothing of how components are split.
#[verifier::external_body]
pub(crate) fn file_name_of(path: &str) -> (res: Option<String>)
    ensures
        opt_view(res) == spec_file_name(path@),
{
    match std::path::Path::new(path).file_name() {
        Some(n) => Some(n.to_string_lossy().into_owned()),
        None => None,
    }
}

/// `Path::file_stem`: the contract states the rule of its documentation, in
/// terms of the file name.
#[verifier::external_body]
pub(crate) fn file_stem_of(path: &str) -> (res: Option<String>)
    ensures
        opt_view(res) == spec_file_stem(path@),
{
    match std::path::Path::new(path).file_stem() {
        Some(n) => Some(n.to_string_lossy().into_owned()),
        None => None,
    }
}

/// `Path::extension`: the contract states the rule of its documentation, in
/// terms of the file name.
#[verifier::external_body]
pub(crate) fn extension_of(path: &str) -> (res: Option<String>)
    ensures
        opt_view(res) == spec_extension(path@),
{
    match std::path::Path::new(path).extension() {
        Some(n) => Some(n.to_string_lossy().into_owned()),
        None => None,
    }
}

} // verus!
