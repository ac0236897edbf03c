//! The files a session watches, and the directories it subscribes for them.

use vstd::prelude::*;

verus! {

/// What a session watches: a vertex and fragment pair, or one compute source.
/// Fixed for the lifetime of the session.
#[derive(Debug, PartialEq, Eq)]
pub enum SrcPath {
    /// The path of the vertex source, then that of the fragment source.
    Graphics(String, String),
    /// The path of the compute source.
    Compute(String),
}

/// The path that `std::path::PathBuf::pop` leaves of `path`: its parent, or
/// `path` itself where it has none. Purely lexical: neither the file system
/// nor the environment is consulted, only the path syntax of the platform
/// that the crate is built for.
pub uninterp spec fn parent_of(path: Seq<char>) -> Seq<char>;

/// Whether `std::path::Path` holds `a` and `b` to be equal, which it decides
/// by their components rather than by their text. Purely lexical as well:
/// two spellings of one directory whose components differ, such as
/// `./shaders` and `shaders`, are two locations, and each is subscribed.
pub uninterp spec fn same_location(a: Seq<char>, b: Seq<char>) -> bool;

/// Calls `std::path::PathBuf::pop` on a copy of `path` and hands back what is
/// left of it, which is a prefix of `path` and so text again. Trusted: the
/// result is `parent_of` of the text given.
#[verifier::external_body]
fn parent_dir(path: &String) -> (dir: String)
    ensures
        dir@ == parent_of(path@),
{
    let mut dir = std::path::PathBuf::from(path);
    dir.pop();
    dir.to_string_lossy().into_owned()
}

/// Compares two paths with `==` of `std::path::Path`. Trusted: the result is
/// `same_location` of the two texts.
#[verifier::external_body]
fn same_path(a: &String, b: &String) -> (same: bool)
    ensures
        same == same_location(a@, b@),
{
    std::path::Path::new(a) == std::path::Path::new(b)
}

/// The texts of a list of paths.
pub open spec fn texts(paths: Seq<String>) -> Seq<Seq<char>> {
    Seq::new(paths.len(), |i: int| paths[i]@)
}

/// The subscriptions for two directories: one where they are the same
/// location, otherwise both, the first before the second.
pub open spec fn deduplicated(first: Seq<char>, second: Seq<char>, same: bool) -> Seq<Seq<char>> {
    if same {
        seq![first]
    } else {
        seq![first, second]
    }
}

/// The directory watch set of a target: the parent directory of each of its
/// files, in the order of the files, a shared parent listed once.
pub open spec fn watch_set(target: SrcPath) -> Seq<Seq<char>> {
    match target {
        SrcPath::Graphics(vertex, fragment) => deduplicated(
            parent_of(vertex@),
            parent_of(fragment@),
            same_location(parent_of(vertex@), parent_of(fragment@)),
        ),
        SrcPath::Compute(compute) => seq![parent_of(compute@)],
    }
}

/// Drops the second directory where `same` says that it is the first one again.
pub fn dedup_dirs(first: String, second: String, same: bool) -> (dirs: Vec<String>)
    ensures
        texts(dirs@) == deduplicated(first@, second@, same),
        dirs.len() == deduplicated(first@, second@, same).len(),
{
    let mut dirs: Vec<String> = Vec::new();
    dirs.push(first);
    if !same {
        dirs.push(second);
    }
    assert(texts(dirs@) =~= deduplicated(first@, second@, same));
    dirs
}

/// The directories to subscribe for `target`, in subscription order.
pub fn watch_dirs(target: &SrcPath) -> (dirs: Vec<String>)
    ensures
        texts(dirs@) == watch_set(*target),
        dirs.len() == watch_set(*target).len(),
{
    match target {
        SrcPath::Graphics(vertex, fragment) => {
            let first = parent_dir(vertex);
            let second = parent_dir(fragment);
            let same = same_path(&first, &second);
            dedup_dirs(first, second, same)
        },
        SrcPath::Compute(compute) => {
            let mut dirs: Vec<String> = Vec::new();
            dirs.push(parent_dir(compute));
            assert(texts(dirs@) =~= watch_set(*target));
            dirs
        },
    }
}

/// A vertex and a fragment file in one directory get a single subscription,
/// for that directory; in different directories they get one each, the
/// vertex file's directory first. A compute source always gets exactly one.
pub proof fn shared_parent_is_watched_once(target: SrcPath)
    ensures
        1 <= watch_set(target).len() <= 2,
        match target {
            SrcPath::Graphics(vertex, fragment) => {
                let first = parent_of(vertex@);
                let second = parent_of(fragment@);
                if same_location(first, second) {
                    watch_set(target) == seq![first]
                } else {
                    watch_set(target) == seq![first, second]
                }
            },
            SrcPath::Compute(compute) => watch_set(target) == seq![parent_of(compute@)],
        },
{
}

} // verus!
