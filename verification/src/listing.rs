//! What a listing of the posts is, stated over a tree.
//!
//! Every entry of the posts root is taken for a post directory. Of each
//! directory, every file with the extension `yml` is a metadata sidecar,
//! and each sidecar gives one record. Directories are taken in discovery
//! order, and so are the sidecars within one. The first failure on that
//! way ends the listing: nothing is skipped.

use crate::error::ContentError;
use crate::identifier::is_separator;
use crate::metadata::{metadata_of, yaml_mapping, PostMetaView};
use crate::tree::{list_at, read_at, ListView, NodeView, ReadView};
use vstd::prelude::*;

verus! {

/// Whether the file at `path` is a metadata sidecar: its name has the
/// extension `yml`. The path ends in `.yml`, and the dot is not where the
/// file's name begins: a file named `yml`, `notasyml` or `.yml` is none.
pub open spec fn is_sidecar_path(path: Seq<char>) -> bool {
    &&& path.len() > 4
    &&& ".yml"@.is_suffix_of(path)
    &&& !is_separator(path[path.len() - 5])
}

/// The test that picks the sidecars out of a directory's entries.
pub open spec fn sidecar_test() -> spec_fn(Seq<char>) -> bool {
    |path: Seq<char>| is_sidecar_path(path)
}

/// The sidecars among `entries`, in the order of `entries`.
pub open spec fn sidecar_paths(entries: Seq<Seq<char>>) -> Seq<Seq<char>> {
    entries.filter(sidecar_test())
}

/// The record that the sidecar at `path` gives. A sidecar that cannot be
/// read, for whatever reason, is an `IoFailure`.
pub open spec fn sidecar_at(tree: Map<Seq<char>, NodeView>, path: Seq<char>) -> Result<
    PostMetaView,
    ContentError,
> {
    match read_at(tree, path) {
        ReadView::Text(text) => metadata_of(yaml_mapping(text)),
        _ => Err(ContentError::IoFailure),
    }
}

/// One part of a listing followed by the next: the records of both, or the
/// failure that comes first.
pub open spec fn followed_by(
    first: Result<Seq<PostMetaView>, ContentError>,
    next: Result<Seq<PostMetaView>, ContentError>,
) -> Result<Seq<PostMetaView>, ContentError> {
    match first {
        Err(e) => Err(e),
        Ok(head) => match next {
            Err(e) => Err(e),
            Ok(tail) => Ok(head + tail),
        },
    }
}

/// A part of a listing that is one record, or one failure.
pub open spec fn one_record(record: Result<PostMetaView, ContentError>) -> Result<
    Seq<PostMetaView>,
    ContentError,
> {
    match record {
        Ok(meta) => Ok(seq![meta]),
        Err(e) => Err(e),
    }
}

/// The records of the sidecars at `paths`, in order.
pub open spec fn collect_sidecars(tree: Map<Seq<char>, NodeView>, paths: Seq<Seq<char>>) -> Result<
    Seq<PostMetaView>,
    ContentError,
>
    decreases paths.len(),
{
    if paths.len() == 0 {
        Ok(Seq::empty())
    } else {
        followed_by(
            one_record(sidecar_at(tree, paths[0])),
            collect_sidecars(tree, paths.drop_first()),
        )
    }
}

/// The records of one post directory.
pub open spec fn directory_records(tree: Map<Seq<char>, NodeView>, dir: Seq<char>) -> Result<
    Seq<PostMetaView>,
    ContentError,
> {
    match list_at(tree, dir) {
        ListView::Entries(entries) => collect_sidecars(tree, sidecar_paths(entries)),
        ListView::Failed => Err(ContentError::DirectoryUnreadable),
    }
}

/// The records of the post directories `dirs`, in order.
pub open spec fn collect_directories(
    tree: Map<Seq<char>, NodeView>,
    dirs: Seq<Seq<char>>,
) -> Result<Seq<PostMetaView>, ContentError>
    decreases dirs.len(),
{
    if dirs.len() == 0 {
        Ok(Seq::empty())
    } else {
        followed_by(
            directory_records(tree, dirs[0]),
            collect_directories(tree, dirs.drop_first()),
        )
    }
}

/// The listing of the posts under `root`.
pub open spec fn listing(tree: Map<Seq<char>, NodeView>, root: Seq<char>) -> Result<
    Seq<PostMetaView>,
    ContentError,
> {
    match list_at(tree, root) {
        ListView::Entries(dirs) => collect_directories(tree, dirs),
        ListView::Failed => Err(ContentError::DirectoryUnreadable),
    }
}

/// `followed_by` may be grouped either way.
pub proof fn lemma_followed_by_associative(
    a: Result<Seq<PostMetaView>, ContentError>,
    b: Result<Seq<PostMetaView>, ContentError>,
    c: Result<Seq<PostMetaView>, ContentError>,
)
    ensures
        followed_by(followed_by(a, b), c) == followed_by(a, followed_by(b, c)),
{
    if let (Ok(x), Ok(y), Ok(z)) = (a, b, c) {
        assert((x + y) + z =~= x + (y + z));
    }
}

/// A part of a listing with nothing before it, or nothing after it, is
/// that part.
pub proof fn lemma_nothing_first(part: Result<Seq<PostMetaView>, ContentError>)
    ensures
        followed_by(Ok(Seq::empty()), part) == part,
        followed_by(part, Ok(Seq::empty())) == part,
{
    if let Ok(x) = part {
        assert(Seq::<PostMetaView>::empty() + x =~= x);
        assert(x + Seq::<PostMetaView>::empty() =~= x);
    }
}

} // verus!
