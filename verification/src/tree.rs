//! What a posts directory answers when it is asked: the outcome of listing
//! a directory and of reading a file, and a model of the whole tree as a
//! map from paths to what stands there.

use crate::text::texts;
use vstd::prelude::*;

verus! {

/// What came of listing a directory.
#[derive(Clone, Debug, PartialEq, Eq)]
pub enum ListOutcome {
    /// The paths of its entries, in the order in which they were found.
    Entries(Vec<String>),
    /// It could not be listed.
    Failed,
}

/// The mathematical value of a [`ListOutcome`].
pub enum ListView {
    /// The paths of the entries, in discovery order.
    Entries(Seq<Seq<char>>),
    /// The directory could not be listed.
    Failed,
}

impl View for ListOutcome {
    type V = ListView;

    open spec fn view(&self) -> ListView {
        match self {
            ListOutcome::Entries(entries) => ListView::Entries(texts(entries@)),
            ListOutcome::Failed => ListView::Failed,
        }
    }
}

/// What came of reading a file.
#[derive(Clone, Debug, PartialEq, Eq)]
pub enum ReadOutcome {
    /// Its whole content.
    Text(String),
    /// Nothing stands at that path.
    Missing,
    /// Something stands there that is no regular file.
    NotAFile,
    /// The file is there and could not be read.
    Failed,
}

/// The mathematical value of a [`ReadOutcome`].
pub enum ReadView {
    /// The whole content of the file.
    Text(Seq<char>),
    /// Nothing stands at that path.
    Missing,
    /// Something stands there that is no regular file.
    NotAFile,
    /// The file is there and could not be read.
    Failed,
}

impl View for ReadOutcome {
    type V = ReadView;

    open spec fn view(&self) -> ReadView {
        match self {
            ReadOutcome::Text(text) => ReadView::Text(text@),
            ReadOutcome::Missing => ReadView::Missing,
            ReadOutcome::NotAFile => ReadView::NotAFile,
            ReadOutcome::Failed => ReadView::Failed,
        }
    }
}

/// What stands at one path of a tree.
pub enum NodeView {
    /// A directory, with the paths of its entries in discovery order.
    Directory(Seq<Seq<char>>),
    /// A regular file, with its content.
    File(Seq<char>),
    /// Something that can be neither listed nor read.
    Broken,
}

/// What listing `path` gives in `tree`.
pub open spec fn list_at(tree: Map<Seq<char>, NodeView>, path: Seq<char>) -> ListView {
    if tree.dom().contains(path) {
        match tree[path] {
            NodeView::Directory(entries) => ListView::Entries(entries),
            _ => ListView::Failed,
        }
    } else {
        ListView::Failed
    }
}

/// What reading `path` gives in `tree`.
pub open spec fn read_at(tree: Map<Seq<char>, NodeView>, path: Seq<char>) -> ReadView {
    if tree.dom().contains(path) {
        match tree[path] {
            NodeView::Directory(_) => ReadView::NotAFile,
            NodeView::File(text) => ReadView::Text(text),
            NodeView::Broken => ReadView::Failed,
        }
    } else {
        ReadView::Missing
    }
}

} // verus!
