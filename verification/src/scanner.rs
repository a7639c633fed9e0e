//! The metadata scanner: the decisions of a walk over the posts directory,
//! without the walk's own reading.
//!
//! A [`Scanner`] asks for one thing at a time, a directory to be listed or a
//! sidecar to be read, and is told what came of it. Whoever holds the files
//! answers; the scanner decides what to ask next, what to keep and when to
//! give up. It gives up at the first failure.

use crate::error::ContentError;
use crate::listing::{is_sidecar_path, sidecar_paths, sidecar_test};
use crate::metadata::{meta_views, metadata_of, parse_metadata, yaml_mapping, PostMeta, PostMetaView};
use crate::text::{chars_of, ends_with, texts};
use crate::tree::{ListOutcome, ListView, ReadOutcome, ReadView};
use std::collections::VecDeque;
use vstd::prelude::*;

verus! {

/// Where a scan stands.
#[derive(Clone, Copy, Debug, PartialEq, Eq, Structural)]
pub enum Phase {
    /// The listing of the posts root is awaited.
    Root,
    /// The listing of a post directory is awaited.
    Directory,
    /// The content of a sidecar is awaited.
    Sidecar,
    /// Nothing is awaited: the scan has ended.
    Done,
}

/// What a scan asks for.
pub enum RequestView {
    /// The entries of the directory at this path.
    List(Seq<char>),
    /// The content of the file at this path.
    Read(Seq<char>),
    /// Nothing more.
    Done,
}

/// The mathematical value of a [`Scanner`].
pub struct ScanView {
    /// Where the scan stands.
    pub phase: Phase,
    /// The path that was asked for last.
    pub current: Seq<char>,
    /// The post directories that are still to be listed, after `current`.
    pub dirs: Seq<Seq<char>>,
    /// The sidecars of the directory at hand that are still to be read,
    /// after `current`.
    pub files: Seq<Seq<char>>,
    /// The records found so far, in discovery order.
    pub found: Seq<PostMetaView>,
    /// The failure that ended the scan, if one did.
    pub failure: Option<ContentError>,
}

impl ScanView {
    /// A scan of the posts under `root`, before anything was asked.
    pub open spec fn start(root: Seq<char>) -> ScanView {
        ScanView {
            phase: Phase::Root,
            current: root,
            dirs: Seq::empty(),
            files: Seq::empty(),
            found: Seq::empty(),
            failure: None,
        }
    }

    /// What only started scans and scans on their way satisfy: nothing is
    /// queued before the root was listed, no sidecar is queued while a
    /// directory's listing is awaited, and a failure ends the scan.
    pub open spec fn well_formed(self) -> bool {
        &&& self.phase == Phase::Root ==> self.dirs.len() == 0 && self.files.len() == 0
            && self.found.len() == 0
        &&& self.phase == Phase::Directory ==> self.files.len() == 0
        &&& self.phase != Phase::Done ==> self.failure is None
        &&& self.phase == Phase::Done && self.failure is None ==> self.dirs.len() == 0
            && self.files.len() == 0
    }

    /// What the scan asks for.
    pub open spec fn request(self) -> RequestView {
        match self.phase {
            Phase::Root => RequestView::List(self.current),
            Phase::Directory => RequestView::List(self.current),
            Phase::Sidecar => RequestView::Read(self.current),
            Phase::Done => RequestView::Done,
        }
    }

    /// The scan ended by the failure `e`.
    pub open spec fn failed(self, e: ContentError) -> ScanView {
        ScanView { phase: Phase::Done, failure: Some(e), ..self }
    }

    /// The scan turned to what is queued: the next sidecar of the directory
    /// at hand, else the next directory, else the end.
    pub open spec fn turned_to_next(self) -> ScanView {
        if self.files.len() > 0 {
            ScanView {
                phase: Phase::Sidecar,
                current: self.files[0],
                files: self.files.drop_first(),
                ..self
            }
        } else if self.dirs.len() > 0 {
            ScanView {
                phase: Phase::Directory,
                current: self.dirs[0],
                dirs: self.dirs.drop_first(),
                ..self
            }
        } else {
            ScanView { phase: Phase::Done, ..self }
        }
    }

    /// The scan after it was told what listing `current` gave. A scan that
    /// awaits no listing stays as it is.
    pub open spec fn after_listing(self, outcome: ListView) -> ScanView {
        match self.phase {
            Phase::Root => match outcome {
                ListView::Entries(entries) => (ScanView { dirs: entries, ..self }).turned_to_next(),
                ListView::Failed => self.failed(ContentError::DirectoryUnreadable),
            },
            Phase::Directory => match outcome {
                ListView::Entries(entries) => (ScanView {
                    files: sidecar_paths(entries),
                    ..self
                }).turned_to_next(),
                ListView::Failed => self.failed(ContentError::DirectoryUnreadable),
            },
            _ => self,
        }
    }

    /// The scan after it was told what reading `current` gave. A scan that
    /// awaits no sidecar stays as it is.
    pub open spec fn after_read(self, outcome: ReadView) -> ScanView {
        match self.phase {
            Phase::Sidecar => match outcome {
                ReadView::Text(text) => match metadata_of(yaml_mapping(text)) {
                    Ok(meta) => (ScanView { found: self.found.push(meta), ..self }).turned_to_next(),
                    Err(e) => self.failed(e),
                },
                _ => self.failed(ContentError::IoFailure),
            },
            _ => self,
        }
    }

    /// The result of a scan that has ended; `None` while it is on its way.
    pub open spec fn outcome(self) -> Option<Result<Seq<PostMetaView>, ContentError>> {
        if self.phase == Phase::Done {
            match self.failure {
                Some(e) => Some(Err(e)),
                None => Some(Ok(self.found)),
            }
        } else {
            None
        }
    }
}

/// What a scan asks its holder to do next.
#[derive(Clone, Debug, PartialEq, Eq)]
pub enum ScanRequest {
    /// List the directory at this path.
    List(String),
    /// Read the file at this path.
    Read(String),
    /// Nothing more: the scan has ended.
    Done,
}

impl View for ScanRequest {
    type V = RequestView;

    open spec fn view(&self) -> RequestView {
        match self {
            ScanRequest::List(path) => RequestView::List(path@),
            ScanRequest::Read(path) => RequestView::Read(path@),
            ScanRequest::Done => RequestView::Done,
        }
    }
}

/// A scan of the posts under one root.
pub struct Scanner {
    phase: Phase,
    current: String,
    dirs: VecDeque<String>,
    files: VecDeque<String>,
    found: Vec<PostMeta>,
    failure: Option<ContentError>,
}

impl View for Scanner {
    type V = ScanView;

    closed spec fn view(&self) -> ScanView {
        ScanView {
            phase: self.phase,
            current: self.current@,
            dirs: texts(self.dirs@),
            files: texts(self.files@),
            found: meta_views(self.found@),
            failure: self.failure,
        }
    }
}

/// Whether `result` is the executable form of `expected`.
pub open spec fn holds_listing(
    result: Result<Vec<PostMeta>, ContentError>,
    expected: Result<Seq<PostMetaView>, ContentError>,
) -> bool {
    match expected {
        Ok(records) => result matches Ok(found) && meta_views(found@) == records,
        Err(e) => result matches Err(f) && f == e,
    }
}

/// Whether the file at `path` is a metadata sidecar: whether its name has
/// the extension `yml`.
pub fn is_sidecar(path: &str) -> (sidecar: bool)
    ensures
        sidecar == is_sidecar_path(path@),
{
    let chars = chars_of(path);
    let n = chars.len();
    if n <= 4 || !ends_with(path, ".yml") {
        return false;
    }
    let before = chars[n - 5];
    before != '/' && before != '\\'
}

/// The sidecars among `entries`, in the order of `entries`.
fn queue_of_sidecars(entries: &Vec<String>) -> (queue: VecDeque<String>)
    ensures
        texts(queue@) == sidecar_paths(texts(entries@)),
{
    let mut queue: VecDeque<String> = VecDeque::new();
    let ghost all = texts(entries@);
    let mut i: usize = 0;
    proof {
        reveal(Seq::filter);
        assert(all.take(0) =~= Seq::<Seq<char>>::empty());
        assert(texts(queue@) =~= Seq::<Seq<char>>::empty());
    }
    while i < entries.len()
        invariant
            i <= entries.len(),
            all == texts(entries@),
            texts(queue@) == sidecar_paths(all.take(i as int)),
        decreases entries.len() - i,
    {
        let path = &entries[i];
        let ghost before = texts(queue@);
        proof {
            assert(all.take(i + 1) =~= all.take(i as int).push(path@));
            all.take(i as int).lemma_filter_push(path@, sidecar_test());
        }
        if is_sidecar(path.as_str()) {
            queue.push_back(path.clone());
            assert(texts(queue@) =~= before.push(path@));
        }
        i += 1;
    }
    proof {
        assert(all.take(entries.len() as int) =~= all);
    }
    queue
}

/// The paths of `entries`, in order, as a queue.
fn queue_of(entries: &Vec<String>) -> (queue: VecDeque<String>)
    ensures
        texts(queue@) == texts(entries@),
{
    let mut queue: VecDeque<String> = VecDeque::new();
    let mut i: usize = 0;
    assert(texts(queue@) =~= texts(entries@).take(0));
    while i < entries.len()
        invariant
            i <= entries.len(),
            texts(queue@) == texts(entries@).take(i as int),
        decreases entries.len() - i,
    {
        let ghost before = texts(queue@);
        queue.push_back(entries[i].clone());
        assert(texts(queue@) =~= before.push(entries@[i as int]@));
        assert(texts(entries@).take(i + 1) =~= before.push(entries@[i as int]@));
        i += 1;
    }
    assert(texts(entries@).take(entries.len() as int) =~= texts(entries@));
    queue
}

impl Scanner {
    /// A scan of the posts under `root`, before anything was asked.
    pub fn new(root: String) -> (scanner: Scanner)
        ensures
            scanner@ == ScanView::start(root@),
            scanner@.well_formed(),
    {
        let scanner = Scanner {
            phase: Phase::Root,
            current: root,
            dirs: VecDeque::new(),
            files: VecDeque::new(),
            found: Vec::new(),
            failure: None,
        };
        assert(scanner@.dirs =~= Seq::empty());
        assert(scanner@.files =~= Seq::empty());
        assert(scanner@.found =~= Seq::empty());
        scanner
    }

    /// What the scan asks for next.
    pub fn request(&self) -> (request: ScanRequest)
        ensures
            request@ == self@.request(),
    {
        match self.phase {
            Phase::Root => ScanRequest::List(self.current.clone()),
            Phase::Directory => ScanRequest::List(self.current.clone()),
            Phase::Sidecar => ScanRequest::Read(self.current.clone()),
            Phase::Done => ScanRequest::Done,
        }
    }

    /// Whether the scan has ended.
    pub fn is_done(&self) -> (done: bool)
        ensures
            done == (self@.phase == Phase::Done),
    {
        match self.phase {
            Phase::Done => true,
            _ => false,
        }
    }

    /// Turns to what is queued.
    fn turn_to_next(&mut self)
        ensures
            final(self)@ == old(self)@.turned_to_next(),
    {
        match self.files.pop_front() {
            Some(path) => {
                self.phase = Phase::Sidecar;
                self.current = path;
                assert(texts(self.files@) =~= texts(old(self).files@).drop_first());
            },
            None => match self.dirs.pop_front() {
                Some(path) => {
                    self.phase = Phase::Directory;
                    self.current = path;
                    assert(texts(self.dirs@) =~= texts(old(self).dirs@).drop_first());
                },
                None => {
                    self.phase = Phase::Done;
                },
            },
        }
    }

    /// Tells the scan what listing the directory it asked for gave.
    pub fn supply_listing(&mut self, outcome: ListOutcome)
        ensures
            final(self)@ == old(self)@.after_listing(outcome@),
            old(self)@.well_formed() ==> final(self)@.well_formed(),
    {
        proof {
            if self@.well_formed() {
                lemma_stays_well_formed(self@, outcome@, ReadView::Failed);
            }
        }
        match self.phase {
            Phase::Root => match outcome {
                ListOutcome::Entries(entries) => {
                    self.dirs = queue_of(&entries);
                    self.turn_to_next();
                },
                ListOutcome::Failed => {
                    self.phase = Phase::Done;
                    self.failure = Some(ContentError::DirectoryUnreadable);
                },
            },
            Phase::Directory => match outcome {
                ListOutcome::Entries(entries) => {
                    self.files = queue_of_sidecars(&entries);
                    self.turn_to_next();
                },
                ListOutcome::Failed => {
                    self.phase = Phase::Done;
                    self.failure = Some(ContentError::DirectoryUnreadable);
                },
            },
            _ => {},
        }
    }

    /// Tells the scan what reading the sidecar it asked for gave.
    pub fn supply_text(&mut self, outcome: ReadOutcome)
        ensures
            final(self)@ == old(self)@.after_read(outcome@),
            old(self)@.well_formed() ==> final(self)@.well_formed(),
    {
        proof {
            if self@.well_formed() {
                lemma_stays_well_formed(self@, ListView::Failed, outcome@);
            }
        }
        match self.phase {
            Phase::Sidecar => match outcome {
                ReadOutcome::Text(text) => match parse_metadata(text.as_str()) {
                    Ok(meta) => {
                        self.found.push(meta);
                        assert(meta_views(self.found@) =~= meta_views(old(self).found@).push(meta@));
                        self.turn_to_next();
                    },
                    Err(e) => {
                        self.phase = Phase::Done;
                        self.failure = Some(e);
                    },
                },
                _ => {
                    self.phase = Phase::Done;
                    self.failure = Some(ContentError::IoFailure);
                },
            },
            _ => {},
        }
    }

    /// The result of a scan that has ended; `None` while it is on its way.
    pub fn into_result(self) -> (result: Option<Result<Vec<PostMeta>, ContentError>>)
        ensures
            match self@.outcome() {
                Some(expected) => result matches Some(r) && holds_listing(r, expected),
                None => result is None,
            },
    {
        match self.phase {
            Phase::Done => match self.failure {
                Some(e) => Some(Err(e)),
                None => Some(Ok(self.found)),
            },
            _ => None,
        }
    }
}

/// Whatever a well-formed scan is told, it stays well formed.
pub proof fn lemma_stays_well_formed(st: ScanView, listed: ListView, read: ReadView)
    requires
        st.well_formed(),
    ensures
        st.after_listing(listed).well_formed(),
        st.after_read(read).well_formed(),
{
}

} // verus!
