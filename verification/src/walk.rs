//! A scan carried out against a tree: what it is expected to end with,
//! and the proof that it does.
//!
//! A [`Scanner`](crate::scanner::Scanner) knows nothing of where its
//! answers come from. Whatever it is told, each answer brings it nearer to
//! its end. Where every answer is taken from one tree, each step also
//! leaves what the scan will end with unchanged, so that the scan ends
//! with the listing of that tree.

use crate::error::ContentError;
use crate::listing::{
    collect_directories, collect_sidecars, directory_records, followed_by, lemma_followed_by_associative,
    lemma_nothing_first, listing, one_record, sidecar_at, sidecar_paths,
};
use crate::metadata::PostMetaView;
use crate::scanner::{Phase, ScanView};
use crate::tree::{list_at, read_at, ListView, NodeView, ReadView};
use vstd::prelude::*;

verus! {

impl ScanView {
    /// What the scan is waiting for, as a part of the listing of `tree`.
    pub open spec fn awaited(self, tree: Map<Seq<char>, NodeView>) -> Result<
        Seq<PostMetaView>,
        ContentError,
    > {
        match self.phase {
            Phase::Root => listing(tree, self.current),
            Phase::Directory => directory_records(tree, self.current),
            Phase::Sidecar => one_record(sidecar_at(tree, self.current)),
            Phase::Done => match self.failure {
                Some(e) => Err(e),
                None => Ok(Seq::empty()),
            },
        }
    }

    /// What the scan will end with if every answer comes from `tree`: what
    /// it has found, then what it waits for, then what is queued.
    pub open spec fn expected(self, tree: Map<Seq<char>, NodeView>) -> Result<
        Seq<PostMetaView>,
        ContentError,
    > {
        followed_by(
            Ok(self.found),
            followed_by(
                self.awaited(tree),
                followed_by(collect_sidecars(tree, self.files), collect_directories(tree, self.dirs)),
            ),
        )
    }

    /// The answer that `tree` gives to the scan, taken one step.
    pub open spec fn answered_from(self, tree: Map<Seq<char>, NodeView>) -> ScanView {
        match self.phase {
            Phase::Root => self.after_listing(list_at(tree, self.current)),
            Phase::Directory => self.after_listing(list_at(tree, self.current)),
            Phase::Sidecar => self.after_read(read_at(tree, self.current)),
            Phase::Done => self,
        }
    }

    /// The first part of the measure by which every step brings a scan
    /// nearer to its end.
    pub open spec fn rank_root(self) -> nat {
        if self.phase == Phase::Root {
            1
        } else {
            0
        }
    }

    /// The second part of the measure: the directories not yet listed.
    pub open spec fn rank_dirs(self) -> nat {
        match self.phase {
            Phase::Root => 0,
            Phase::Directory => self.dirs.len() + 1,
            Phase::Sidecar => self.dirs.len(),
            Phase::Done => 0,
        }
    }

    /// The third part of the measure: the sidecars not yet read.
    pub open spec fn rank_files(self) -> nat {
        match self.phase {
            Phase::Sidecar => self.files.len() + 1,
            _ => 0,
        }
    }

    /// Whether `self` is nearer to its end than `before`.
    pub open spec fn nearer_than(self, before: ScanView) -> bool {
        ||| self.rank_root() < before.rank_root()
        ||| self.rank_root() == before.rank_root() && self.rank_dirs() < before.rank_dirs()
        ||| self.rank_root() == before.rank_root() && self.rank_dirs() == before.rank_dirs()
            && self.rank_files() < before.rank_files()
    }

    /// The scan carried to its end, every answer taken from `tree`.
    pub open spec fn run(self, tree: Map<Seq<char>, NodeView>) -> ScanView
        decreases self.rank_root(), self.rank_dirs(), self.rank_files(),
    {
        if self.phase == Phase::Done {
            self
        } else {
            self.answered_from(tree).run(tree)
        }
    }
}

/// Turning to what is queued changes nothing of what the scan will end
/// with, where the scan waits for nothing.
proof fn lemma_turned_to_next(st: ScanView, tree: Map<Seq<char>, NodeView>)
    requires
        st.failure is None,
    ensures
        st.turned_to_next().expected(tree) == followed_by(
            Ok(st.found),
            followed_by(collect_sidecars(tree, st.files), collect_directories(tree, st.dirs)),
        ),
        st.turned_to_next().well_formed(),
{
    let sidecars = collect_sidecars(tree, st.files);
    let dirs = collect_directories(tree, st.dirs);
    if st.files.len() > 0 {
        let head = one_record(sidecar_at(tree, st.files[0]));
        let rest = collect_sidecars(tree, st.files.drop_first());
        assert(sidecars == followed_by(head, rest));
        lemma_followed_by_associative(head, rest, dirs);
    } else if st.dirs.len() > 0 {
        let head = directory_records(tree, st.dirs[0]);
        let rest = collect_directories(tree, st.dirs.drop_first());
        assert(dirs == followed_by(head, rest));
        lemma_nothing_first(dirs);
        lemma_nothing_first(rest);
    } else {
        lemma_nothing_first(Ok(Seq::empty()));
    }
}

/// Whatever a scan that has not ended is told in answer to what it asked,
/// the answer brings it nearer to its end. So a scan ends whoever answers
/// it, a disk as well as a tree.
pub proof fn law_every_answer_brings_nearer(st: ScanView, listed: ListView, read: ReadView)
    requires
        st.phase != Phase::Done,
    ensures
        st.phase == Phase::Root || st.phase == Phase::Directory ==> st.after_listing(
            listed,
        ).nearer_than(st),
        st.phase == Phase::Sidecar ==> st.after_read(read).nearer_than(st),
{
}

/// One step with the answer of `tree` keeps a scan well formed, changes
/// nothing of what it will end with, and brings it nearer to its end.
pub proof fn lemma_step(st: ScanView, tree: Map<Seq<char>, NodeView>)
    requires
        st.well_formed(),
        st.phase != Phase::Done,
    ensures
        st.answered_from(tree).well_formed(),
        st.answered_from(tree).expected(tree) == st.expected(tree),
        st.answered_from(tree).nearer_than(st),
{
    let queued = followed_by(collect_sidecars(tree, st.files), collect_directories(tree, st.dirs));
    match st.phase {
        Phase::Root => {
            lemma_nothing_first(Ok(Seq::empty()));
            lemma_nothing_first(listing(tree, st.current));
            match list_at(tree, st.current) {
                ListView::Entries(entries) => {
                    let filled = ScanView { dirs: entries, ..st };
                    lemma_turned_to_next(filled, tree);
                    lemma_nothing_first(collect_directories(tree, entries));
                },
                ListView::Failed => {},
            }
        },
        Phase::Directory => {
            lemma_nothing_first(collect_directories(tree, st.dirs));
            match list_at(tree, st.current) {
                ListView::Entries(entries) => {
                    let filled = ScanView { files: sidecar_paths(entries), ..st };
                    lemma_turned_to_next(filled, tree);
                },
                ListView::Failed => {},
            }
        },
        Phase::Sidecar => {
            match sidecar_at(tree, st.current) {
                Ok(meta) => {
                    let grown = ScanView { found: st.found.push(meta), ..st };
                    lemma_turned_to_next(grown, tree);
                    lemma_followed_by_associative(Ok(st.found), Ok(seq![meta]), queued);
                    assert(st.found + seq![meta] =~= st.found.push(meta));
                },
                Err(_) => {},
            }
        },
        Phase::Done => {},
    }
}

/// A scan that has ended holds what it was expected to end with.
pub proof fn lemma_ended(st: ScanView, tree: Map<Seq<char>, NodeView>)
    requires
        st.well_formed(),
        st.phase == Phase::Done,
    ensures
        st.outcome() == Some(st.expected(tree)),
{
    lemma_nothing_first(Ok(Seq::empty()));
    lemma_nothing_first(Ok(st.found));
}

/// A scan that was just started is expected to end with the listing.
pub proof fn lemma_started(root: Seq<char>, tree: Map<Seq<char>, NodeView>)
    ensures
        ScanView::start(root).well_formed(),
        ScanView::start(root).expected(tree) == listing(tree, root),
{
    lemma_nothing_first(Ok(Seq::empty()));
    lemma_nothing_first(listing(tree, root));
}

/// A scan carried to its end with the answers of `tree` ends with what it
/// was expected to end with.
pub proof fn lemma_run(st: ScanView, tree: Map<Seq<char>, NodeView>)
    requires
        st.well_formed(),
    ensures
        st.run(tree).phase == Phase::Done,
        st.run(tree).outcome() == Some(st.expected(tree)),
    decreases st.rank_root(), st.rank_dirs(), st.rank_files(),
{
    if st.phase == Phase::Done {
        lemma_ended(st, tree);
    } else {
        lemma_step(st, tree);
        lemma_run(st.answered_from(tree), tree);
    }
}

/// Whoever answers a scan from a tree, one request after the other, is
/// left with the listing of that tree when the scan asks for nothing more.
pub proof fn law_scan_ends_with_listing(tree: Map<Seq<char>, NodeView>, root: Seq<char>)
    ensures
        ScanView::start(root).run(tree).phase == Phase::Done,
        ScanView::start(root).run(tree).outcome() == Some(listing(tree, root)),
{
    lemma_started(root, tree);
    lemma_run(ScanView::start(root), tree);
}

} // verus!
