//! What holds of every posts directory, stated over the tree and proved.

use crate::error::ContentError;
use crate::identifier::{
    body_path, has_parent_step, has_separator, is_separator, lemma_first_dot, stem_of,
    valid_identifier,
};
use crate::listing::{
    collect_directories, collect_sidecars, directory_records, is_sidecar_path, listing, sidecar_at,
    sidecar_paths, sidecar_test,
};
use crate::metadata::{metadata_of, text_field, PostMetaView, YamlEntryView};
use crate::render::{markdown_html, rendered_post};
use crate::tree::{list_at, read_at, ListView, NodeView};
use vstd::prelude::*;

verus! {

/// A sidecar gives a record exactly where each of the four keys has a text
/// value, and the record then holds those four texts as they stand.
pub proof fn law_record_holds_the_fields(entries: Seq<YamlEntryView>)
    ensures
        metadata_of(Some(entries)) is Ok <==> text_field(entries, "descripcion"@) is Some
            && text_field(entries, "titulo"@) is Some && text_field(entries, "fecha"@) is Some
            && text_field(entries, "archivo"@) is Some,
        metadata_of(Some(entries)) matches Ok(meta) ==> Some(meta.descripcion) == text_field(
            entries,
            "descripcion"@,
        ) && Some(meta.titulo) == text_field(entries, "titulo"@) && Some(meta.fecha)
            == text_field(entries, "fecha"@) && Some(meta.archivo) == text_field(
            entries,
            "archivo"@,
        ),
        metadata_of(Some(entries)) matches Err(e) ==> e == ContentError::MalformedMetadata,
        metadata_of(None) == Err::<PostMetaView, ContentError>(ContentError::MalformedMetadata),
{
}

/// Whether the post directory `dir` can be listed and holds exactly one
/// file with the extension `yml`, which gives a record.
pub open spec fn has_one_valid_sidecar(tree: Map<Seq<char>, NodeView>, dir: Seq<char>) -> bool {
    match list_at(tree, dir) {
        ListView::Entries(entries) => sidecar_paths(entries).len() == 1 && sidecar_at(
            tree,
            sidecar_paths(entries)[0],
        ) is Ok,
        ListView::Failed => false,
    }
}

/// The record of the first sidecar of the post directory `dir`.
pub open spec fn record_of(tree: Map<Seq<char>, NodeView>, dir: Seq<char>) -> PostMetaView {
    sidecar_at(tree, sidecar_paths(list_at(tree, dir)->Entries_0)[0])->Ok_0
}

/// Whether the posts root can be listed and every post directory under it
/// holds exactly one file with the extension `yml`, which gives a record.
/// What else a directory holds, the body or any other file, plays no part.
pub open spec fn well_formed_posts(tree: Map<Seq<char>, NodeView>, root: Seq<char>) -> bool {
    match list_at(tree, root) {
        ListView::Entries(dirs) => forall|i: int|
            0 <= i < dirs.len() ==> has_one_valid_sidecar(tree, #[trigger] dirs[i]),
        ListView::Failed => false,
    }
}

/// A directory with one valid sidecar gives that sidecar's record and no
/// other.
proof fn lemma_single_record(tree: Map<Seq<char>, NodeView>, dir: Seq<char>)
    requires
        has_one_valid_sidecar(tree, dir),
    ensures
        directory_records(tree, dir) == Ok::<Seq<PostMetaView>, ContentError>(
            seq![record_of(tree, dir)],
        ),
{
    let paths = sidecar_paths(list_at(tree, dir)->Entries_0);
    assert(paths.drop_first().len() == 0);
    assert(collect_sidecars(tree, paths.drop_first()) == Ok::<Seq<PostMetaView>, ContentError>(
        Seq::empty(),
    ));
    assert(seq![record_of(tree, dir)] + Seq::<PostMetaView>::empty() =~= seq![
        record_of(tree, dir),
    ]);
}

/// Directories with one valid sidecar each give one record each, in the
/// order of the directories.
proof fn lemma_one_record_each(tree: Map<Seq<char>, NodeView>, dirs: Seq<Seq<char>>)
    requires
        forall|i: int| 0 <= i < dirs.len() ==> has_one_valid_sidecar(tree, #[trigger] dirs[i]),
    ensures
        collect_directories(tree, dirs) is Ok,
        collect_directories(tree, dirs)->Ok_0.len() == dirs.len(),
        forall|i: int|
            0 <= i < dirs.len() ==> collect_directories(tree, dirs)->Ok_0[i] == record_of(
                tree,
                #[trigger] dirs[i],
            ),
    decreases dirs.len(),
{
    if dirs.len() > 0 {
        let rest = dirs.drop_first();
        assert forall|i: int| 0 <= i < rest.len() implies has_one_valid_sidecar(
            tree,
            #[trigger] rest[i],
        ) by {
            assert(rest[i] == dirs[i + 1]);
        }
        lemma_one_record_each(tree, rest);
        lemma_single_record(tree, dirs[0]);
        let all = collect_directories(tree, dirs)->Ok_0;
        assert forall|i: int| 0 <= i < dirs.len() implies all[i] == record_of(
            tree,
            #[trigger] dirs[i],
        ) by {
            if i > 0 {
                assert(dirs[i] == rest[i - 1]);
            }
        }
    }
}

/// Of a posts directory in which every post directory holds exactly one
/// valid sidecar, the listing succeeds and holds exactly one record for
/// each post directory, in the order in which the directories were found.
pub proof fn law_one_record_per_post(tree: Map<Seq<char>, NodeView>, root: Seq<char>)
    requires
        well_formed_posts(tree, root),
    ensures
        listing(tree, root) is Ok,
        listing(tree, root)->Ok_0.len() == list_at(tree, root)->Entries_0.len(),
        forall|i: int|
            0 <= i < list_at(tree, root)->Entries_0.len() ==> #[trigger] listing(
                tree,
                root,
            )->Ok_0[i] == record_of(tree, list_at(tree, root)->Entries_0[i]),
{
    lemma_one_record_each(tree, list_at(tree, root)->Entries_0);
}

/// Of such a posts directory, the listing read backwards holds the record
/// of the directory found last first: where directories are found in the
/// order in which they were made, that is newest first.
pub proof fn law_reversed_listing_is_newest_first(tree: Map<Seq<char>, NodeView>, root: Seq<char>)
    requires
        well_formed_posts(tree, root),
    ensures
        listing(tree, root) is Ok,
        listing(tree, root)->Ok_0.reverse().len() == list_at(tree, root)->Entries_0.len(),
        forall|i: int|
            0 <= i < list_at(tree, root)->Entries_0.len() ==> #[trigger] listing(
                tree,
                root,
            )->Ok_0.reverse()[i] == record_of(
                tree,
                list_at(tree, root)->Entries_0[list_at(tree, root)->Entries_0.len() - 1 - i],
            ),
{
    law_one_record_per_post(tree, root);
}

/// Sidecars that read alike in two trees give the same records.
proof fn lemma_same_sidecars(
    one: Map<Seq<char>, NodeView>,
    other: Map<Seq<char>, NodeView>,
    paths: Seq<Seq<char>>,
)
    requires
        forall|i: int| 0 <= i < paths.len() ==> read_at(one, #[trigger] paths[i]) == read_at(
            other,
            paths[i],
        ),
    ensures
        collect_sidecars(one, paths) == collect_sidecars(other, paths),
    decreases paths.len(),
{
    if paths.len() > 0 {
        let rest = paths.drop_first();
        assert forall|i: int| 0 <= i < rest.len() implies read_at(one, #[trigger] rest[i])
            == read_at(other, rest[i]) by {
            assert(rest[i] == paths[i + 1]);
        }
        lemma_same_sidecars(one, other, rest);
        assert(read_at(one, paths[0]) == read_at(other, paths[0]));
    }
}

/// Directories that list alike in two trees, with sidecars that read alike,
/// give the same records.
proof fn lemma_same_directories(
    one: Map<Seq<char>, NodeView>,
    other: Map<Seq<char>, NodeView>,
    dirs: Seq<Seq<char>>,
)
    requires
        forall|path: Seq<char>| #[trigger] list_at(one, path) == list_at(other, path),
        forall|path: Seq<char>|
            is_sidecar_path(path) ==> #[trigger] read_at(one, path) == read_at(other, path),
    ensures
        collect_directories(one, dirs) == collect_directories(other, dirs),
    decreases dirs.len(),
{
    if dirs.len() > 0 {
        lemma_same_directories(one, other, dirs.drop_first());
        assert(list_at(one, dirs[0]) == list_at(other, dirs[0]));
        if let ListView::Entries(entries) = list_at(one, dirs[0]) {
            let paths = sidecar_paths(entries);
            assert forall|i: int| 0 <= i < paths.len() implies read_at(one, #[trigger] paths[i])
                == read_at(other, paths[i]) by {
                entries.lemma_filter_pred(sidecar_test(), i);
            }
            lemma_same_sidecars(one, other, paths);
        }
    }
}

/// The listing is decided by what the directories list and what the
/// sidecars hold, and by nothing else: two trees that agree in both give
/// the same records in the same order, or the same failure. So a listing
/// is the same each time while nothing changes, and a post's body, there
/// or not, has no part in it.
pub proof fn law_listing_reads_only_sidecars(
    one: Map<Seq<char>, NodeView>,
    other: Map<Seq<char>, NodeView>,
    root: Seq<char>,
)
    requires
        forall|path: Seq<char>| #[trigger] list_at(one, path) == list_at(other, path),
        forall|path: Seq<char>|
            is_sidecar_path(path) ==> #[trigger] read_at(one, path) == read_at(other, path),
    ensures
        listing(one, root) == listing(other, root),
{
    assert(list_at(one, root) == list_at(other, root));
    if let ListView::Entries(dirs) = list_at(one, root) {
        lemma_same_directories(one, other, dirs);
    }
}

/// What a post is rendered to is decided by the identifier and by what
/// stands at the one path of its body: two trees that agree there give the
/// same HTML, character for character, or the same failure.
pub proof fn law_render_reads_only_the_body(
    one: Map<Seq<char>, NodeView>,
    other: Map<Seq<char>, NodeView>,
    root: Seq<char>,
    id: Seq<char>,
)
    requires
        read_at(one, body_path(root, id)) == read_at(other, body_path(root, id)),
    ensures
        rendered_post(one, root, id) == rendered_post(other, root, id),
{
}

/// A post whose identifier is accepted and whose body stands as a regular
/// file at the body's path is rendered, and to the HTML of that file's
/// text. A name that is refused as an identifier, `a..md` for one, is not
/// rendered even where a sidecar hands it out.
pub proof fn law_accepted_post_renders_its_body(
    tree: Map<Seq<char>, NodeView>,
    root: Seq<char>,
    id: Seq<char>,
)
    requires
        valid_identifier(id),
        read_at(tree, body_path(root, id)) is Text,
    ensures
        rendered_post(tree, root, id) == Ok::<Seq<char>, ContentError>(
            markdown_html(read_at(tree, body_path(root, id))->Text_0),
        ),
{
}

/// The path of an accepted identifier's body is the root followed by two
/// steps, the stem and the identifier, and neither step holds a separator
/// or two dots in a row: the path leads nowhere but below the root.
pub proof fn law_body_stays_under_root(root: Seq<char>, id: Seq<char>)
    requires
        valid_identifier(id),
    ensures
        body_path(root, id) == root + seq!['/'] + stem_of(id) + seq!['/'] + id,
        !has_separator(stem_of(id)),
        !has_parent_step(stem_of(id)),
        !has_separator(id),
        !has_parent_step(id),
{
    lemma_first_dot(id);
    let stem = stem_of(id);
    assert forall|i: int| 0 <= i < stem.len() implies !is_separator(#[trigger] stem[i]) by {
        assert(stem[i] == id[i]);
    }
    assert forall|i: int| 0 <= i && i + 1 < stem.len() implies !(#[trigger] stem[i] == '.' && stem[i
        + 1] == '.') by {
        assert(stem[i] == id[i]);
    }
}

} // verus!
