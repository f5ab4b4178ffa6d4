//! Normalization of a user-chosen path to a directory.
//!
//! The caller probes the filesystem and reports what it saw; the policy
//! itself is pure: an existing directory is kept as it is, while a file —
//! or a path that could not be inspected at all — degrades to its parent
//! directory, or to itself when it has no parent (a root).

use vstd::prelude::*;

verus! {

/// What a filesystem probe of the path reported.
pub enum PathKind {
    /// The path exists and is a directory.
    Directory,
    /// The path exists and is not a directory.
    File,
    /// The path could not be inspected: it does not exist or is
    /// inaccessible.
    Inaccessible,
}

/// The parent of a path as `std::path::Path::parent` resolves it over the
/// path's components, rendered back to text; `None` for a root or an empty
/// path.
pub uninterp spec fn parent_of(s: Seq<char>) -> Option<Seq<char>>;

/// Relies on `std::path::Path::parent`: the path without its final
/// component, `None` when it is a root or empty.  The rendering back to
/// text is lossless for a path built from valid text.
#[verifier::external_body]
fn path_parent(p: &str) -> (r: Option<String>)
    ensures
        match r {
            Some(d) => parent_of(p@) == Some(d@),
            None => parent_of(p@) == None::<Seq<char>>,
        },
{
    std::path::Path::new(p).parent().map(|d| d.to_string_lossy().to_string())
}

pub open spec fn normalize_spec(p: Seq<char>, kind: PathKind) -> Seq<char> {
    match kind {
        PathKind::Directory => p,
        _ => match parent_of(p) {
            Some(d) => d,
            None => p,
        },
    }
}

/// Normalize `path` to a directory, given what a probe of it reported.
pub fn normalize_path(path: &str, kind: PathKind) -> (r: String)
    ensures
        r@ == normalize_spec(path@, kind),
{
    match kind {
        PathKind::Directory => String::from_str(path),
        _ => match path_parent(path) {
            Some(d) => d,
            None => String::from_str(path),
        },
    }
}

} // verus!
