//! Paths of the file system, which need not be text.

use std::path::{Path, PathBuf};

use vstd::prelude::*;

verus! {

/// `std::path::PathBuf`: a path that is owned.
#[verifier::external_type_specification]
#[verifier::external_body]
pub struct ExPathBuf(PathBuf);

/// `std::path::Path`: a path that is borrowed.
#[verifier::external_type_specification]
#[verifier::external_body]
pub struct ExPath(Path);

/// `PathBuf::clone` copies the path.
pub assume_specification[ <PathBuf as Clone>::clone ](p: &PathBuf) -> (res: PathBuf)
    ensures
        res == *p,
;

/// The components of a path, first to last, each as its bytes.
pub uninterp spec fn parts(path: PathBuf) -> Seq<Seq<u8>>;

/// The bytes of a path.
pub uninterp spec fn raw(path: PathBuf) -> Seq<u8>;

/// A path as it is shown: its text, with replacement characters for what is no
/// text.
pub uninterp spec fn shown(path: PathBuf) -> Seq<char>;

/// The path that a text writes.
pub uninterp spec fn path_of(text: Seq<char>) -> PathBuf;

/// Whether a path is text: what it is shown as writes it.
pub open spec fn is_text(path: PathBuf) -> bool {
    path_of(shown(path)) == path
}

/// Whether a name starts with a lower-case letter and goes on with lower-case
/// letters, digits, underscores and dots.
pub open spec fn is_plain(name: Seq<char>) -> bool {
    &&& name.len() > 0
    &&& 'a' <= name[0] <= 'z'
    &&& forall|i: int|
        0 <= i < name.len() ==> {
            ||| 'a' <= #[trigger] name[i] <= 'z'
            ||| '0' <= name[i] <= '9'
            ||| name[i] == '_'
            ||| name[i] == '.'
        }
}

/// The bytes of an ASCII name.
pub open spec fn bytes_of(name: Seq<char>) -> Seq<u8> {
    name.map_values(|c: char| c as u8)
}

/// Whether a byte separates components on some system.
pub open spec fn is_separator(b: u8) -> bool {
    b == 0x2f || b == 0x5c
}

/// Whether the bytes of a path do not begin with two separators. On Windows those
/// introduce a server, a device or a path that is taken literally, and what is
/// joined to such a path may become part of its prefix.
pub open spec fn is_ordinary(bytes: Seq<u8>) -> bool {
    !(bytes.len() >= 2 && is_separator(bytes[0]) && is_separator(bytes[1]))
}

/// Whether bytes end in `tail`.
pub open spec fn ends(bytes: Seq<u8>, tail: Seq<u8>) -> bool {
    bytes.len() >= tail.len() && bytes.skip(bytes.len() - tail.len()) == tail
}

/// Whether `path` is the place called `name` in `root`: its bytes end in the name,
/// and in an ordinary root the name is one more component.
pub open spec fn is_place(path: PathBuf, root: PathBuf, name: Seq<char>) -> bool {
    &&& ends(raw(path), bytes_of(name))
    &&& is_ordinary(raw(root)) ==> parts(path) == parts(root).push(bytes_of(name))
}

/// Calls `std::path::Path::join`. The bytes of the result end in a plain name, and
/// such a name becomes the last component, behind those of the root, where the
/// root does not begin with two separators. Of other names and other roots no more
/// is said.
#[verifier::external_body]
fn join(root: &PathBuf, name: &str) -> (res: PathBuf)
    ensures
        is_plain(name@) ==> ends(raw(res), bytes_of(name@)),
        is_plain(name@) && is_ordinary(raw(*root)) ==> parts(res) == parts(*root).push(
            bytes_of(name@),
        ),
{
    root.join(name)
}

/// Whether `path` is what joining `name` to `root` gives.
pub closed spec fn joins(root: PathBuf, name: &str, path: PathBuf) -> bool {
    call_ensures(join, (&root, name), path)
}

/// The path that joining `name` to `root` gives.
pub fn joined(root: &PathBuf, name: &str) -> (res: PathBuf)
    ensures
        joins(*root, name, res),
        is_plain(name@) ==> is_place(res, *root, name@),
{
    join(root, name)
}

/// Joining a plain name to a root gives the place of that name in it.
pub proof fn lemma_joins_is_place(root: PathBuf, name: &str, path: PathBuf)
    requires
        joins(root, name, path),
        is_plain(name@),
    ensures
        is_place(path, root, name@),
{
}

/// Bytes that end in two tails end in the shorter one within the longer one.
pub proof fn lemma_ends_in_both(bytes: Seq<u8>, short: Seq<u8>, long: Seq<u8>)
    requires
        ends(bytes, short),
        ends(bytes, long),
        short.len() <= long.len(),
    ensures
        ends(long, short),
{
    assert(long.skip(long.len() - short.len()) =~= bytes.skip(bytes.len() - short.len()));
}

/// Calls `std::ffi::OsStr::as_encoded_bytes` on a path.
#[verifier::external_body]
pub(crate) fn raw_bytes(path: &PathBuf) -> (res: Vec<u8>)
    ensures
        res@ == raw(*path),
{
    path.as_os_str().as_encoded_bytes().to_vec()
}

/// Calls `std::path::Path::to_string_lossy`.
#[verifier::external_body]
pub(crate) fn show(path: &PathBuf) -> (res: String)
    ensures
        res@ == shown(*path),
{
    path.to_string_lossy().into_owned()
}

/// Calls `PathBuf::from` on a string. The path is shown as that text.
#[verifier::external_body]
pub(crate) fn read_path(text: String) -> (res: PathBuf)
    ensures
        res == path_of(text@),
        shown(res) == text@,
{
    PathBuf::from(text)
}

/// Whether the bytes of a path do not begin with two separators.
pub fn ordinary(path: &PathBuf) -> (res: bool)
    ensures
        res == is_ordinary(raw(*path)),
{
    let bytes = raw_bytes(path);
    !(bytes.len() >= 2 && (bytes[0] == 0x2f || bytes[0] == 0x5c) && (bytes[1] == 0x2f
        || bytes[1] == 0x5c))
}

} // verus!
