//! A posts directory held in memory, and the two content operations run
//! against it from end to end.

use crate::error::ContentError;
use crate::identifier::post_path;
use crate::listing::listing;
use crate::metadata::PostMeta;
use crate::render::{holds_html, render_body, rendered_post};
use crate::scanner::{holds_listing, ScanRequest, Scanner};
use crate::text::{same_text, texts};
use crate::tree::{list_at, read_at, ListOutcome, NodeView, ReadOutcome};
use crate::walk::{lemma_ended, lemma_started, lemma_step};
use vstd::prelude::*;

verus! {

/// What stands at one path.
#[derive(Clone, Debug, PartialEq, Eq)]
pub enum Node {
    /// A directory, with the paths of its entries in discovery order.
    Directory(Vec<String>),
    /// A regular file, with its content.
    File(String),
    /// Something that can be neither listed nor read.
    Broken,
}

impl View for Node {
    type V = NodeView;

    open spec fn view(&self) -> NodeView {
        match self {
            Node::Directory(entries) => NodeView::Directory(texts(entries@)),
            Node::File(text) => NodeView::File(text@),
            Node::Broken => NodeView::Broken,
        }
    }
}

/// A node with the path at which it stands.
struct Placed {
    path: String,
    node: Node,
}

/// The tree that a list of placed nodes makes: a later node takes the place
/// of an earlier one at the same path.
spec fn tree_of(placed: Seq<Placed>) -> Map<Seq<char>, NodeView>
    decreases placed.len(),
{
    if placed.len() == 0 {
        Map::empty()
    } else {
        tree_of(placed.drop_last()).insert(placed.last().path@, placed.last().node@)
    }
}

/// A posts directory held in memory.
pub struct PostTree {
    root: String,
    placed: Vec<Placed>,
}

/// The mathematical value of a [`PostTree`].
pub struct PostTreeView {
    /// The path of the posts root.
    pub root: Seq<char>,
    /// What stands at each path.
    pub nodes: Map<Seq<char>, NodeView>,
}

impl View for PostTree {
    type V = PostTreeView;

    closed spec fn view(&self) -> PostTreeView {
        PostTreeView { root: self.root@, nodes: tree_of(self.placed@) }
    }
}

/// A list with the same paths as `paths`.
fn copy_of_paths(paths: &Vec<String>) -> (copy: Vec<String>)
    ensures
        texts(copy@) == texts(paths@),
{
    let mut copy: Vec<String> = Vec::new();
    let mut i: usize = 0;
    while i < paths.len()
        invariant
            i <= paths.len(),
            copy.len() == i,
            forall|j: int| 0 <= j < i ==> copy@[j]@ == paths@[j]@,
        decreases paths.len() - i,
    {
        copy.push(paths[i].clone());
        i += 1;
    }
    assert(texts(copy@) =~= texts(paths@));
    copy
}

impl PostTree {
    /// An empty tree, with the posts root at `root`. Nothing stands at the
    /// root yet.
    pub fn new(root: &str) -> (tree: PostTree)
        ensures
            tree@.root == root@,
            tree@.nodes == Map::<Seq<char>, NodeView>::empty(),
    {
        PostTree { root: String::from_str(root), placed: Vec::new() }
    }

    /// The path of the posts root.
    pub fn root(&self) -> (root: &str)
        ensures
            root@ == self@.root,
    {
        self.root.as_str()
    }

    /// Puts `node` at `path`, in place of what stood there.
    pub fn put(&mut self, path: &str, node: Node)
        ensures
            final(self)@.root == old(self)@.root,
            final(self)@.nodes == old(self)@.nodes.insert(path@, node@),
    {
        let placed = Placed { path: String::from_str(path), node };
        self.placed.push(placed);
        assert(self.placed@.drop_last() =~= old(self).placed@);
    }

    /// The placed node that decides what stands at `path`: the last one
    /// with that path.
    fn find(&self, path: &str) -> (at: Option<usize>)
        ensures
            match at {
                Some(i) => i < self.placed.len() && self@.nodes.dom().contains(path@)
                    && self@.nodes[path@] == self.placed@[i as int].node@,
                None => !self@.nodes.dom().contains(path@),
            },
    {
        let mut at: Option<usize> = None;
        let mut i: usize = 0;
        assert(self.placed@.take(0) =~= Seq::empty());
        while i < self.placed.len()
            invariant
                i <= self.placed.len(),
                match at {
                    Some(j) => j < i && tree_of(self.placed@.take(i as int)).dom().contains(path@)
                        && tree_of(self.placed@.take(i as int))[path@]
                        == self.placed@[j as int].node@,
                    None => !tree_of(self.placed@.take(i as int)).dom().contains(path@),
                },
            decreases self.placed.len() - i,
        {
            proof {
                let next = self.placed@.take(i + 1);
                assert(next.drop_last() =~= self.placed@.take(i as int));
                assert(next.last() == self.placed@[i as int]);
            }
            if same_text(self.placed[i].path.as_str(), path) {
                at = Some(i);
            }
            i += 1;
        }
        assert(self.placed@.take(self.placed.len() as int) =~= self.placed@);
        at
    }

    /// What listing the directory at `path` gives.
    pub fn list(&self, path: &str) -> (outcome: ListOutcome)
        ensures
            outcome@ == list_at(self@.nodes, path@),
    {
        match self.find(path) {
            Some(i) => match &self.placed[i].node {
                Node::Directory(entries) => ListOutcome::Entries(copy_of_paths(entries)),
                _ => ListOutcome::Failed,
            },
            None => ListOutcome::Failed,
        }
    }

    /// What reading the file at `path` gives.
    pub fn read(&self, path: &str) -> (outcome: ReadOutcome)
        ensures
            outcome@ == read_at(self@.nodes, path@),
    {
        match self.find(path) {
            Some(i) => match &self.placed[i].node {
                Node::Directory(_) => ReadOutcome::NotAFile,
                Node::File(text) => ReadOutcome::Text(text.clone()),
                Node::Broken => ReadOutcome::Failed,
            },
            None => ReadOutcome::Missing,
        }
    }

    /// The listing of the posts: one record for each sidecar, directory by
    /// directory in discovery order, or the first failure on that way.
    pub fn list_posts(&self) -> (result: Result<Vec<PostMeta>, ContentError>)
        ensures
            holds_listing(result, listing(self@.nodes, self@.root)),
    {
        let mut scanner = Scanner::new(self.root.clone());
        proof {
            lemma_started(self@.root, self@.nodes);
        }
        while !scanner.is_done()
            invariant
                scanner@.well_formed(),
                scanner@.expected(self@.nodes) == listing(self@.nodes, self@.root),
            decreases scanner@.rank_root(), scanner@.rank_dirs(), scanner@.rank_files(),
        {
            proof {
                lemma_step(scanner@, self@.nodes);
            }
            match scanner.request() {
                ScanRequest::List(path) => {
                    let outcome = self.list(path.as_str());
                    scanner.supply_listing(outcome);
                },
                ScanRequest::Read(path) => {
                    let outcome = self.read(path.as_str());
                    scanner.supply_text(outcome);
                },
                ScanRequest::Done => {},
            }
        }
        proof {
            lemma_ended(scanner@, self@.nodes);
        }
        match scanner.into_result() {
            Some(result) => result,
            None => vstd::pervasive::unreached(),
        }
    }

    /// The HTML of the post `id`: `InvalidIdentifier` where `id` is not
    /// accepted, `PostNotFound` where no regular file stands at the body's
    /// path, `IoFailure` where the file cannot be read.
    pub fn render_post(&self, id: &str) -> (result: Result<String, ContentError>)
        ensures
            holds_html(result, rendered_post(self@.nodes, self@.root, id@)),
    {
        match post_path(self.root.as_str(), id) {
            Ok(path) => render_body(self.read(path.as_str())),
            Err(e) => Err(e),
        }
    }
}

} // verus!
