//! The post renderer: from what reading a body file gave to the HTML of
//! the post, or to the failure that is reported in its place.

use crate::error::ContentError;
use crate::identifier::{body_path, valid_identifier};
use crate::tree::{read_at, NodeView, ReadOutcome, ReadView};
use vstd::prelude::*;

verus! {

/// The HTML that `markdown::to_html` makes of the markdown text `source`.
pub uninterp spec fn markdown_html(source: Seq<char>) -> Seq<char>;

/// Calls `markdown::to_html`, which compiles markdown to HTML by the rules
/// of CommonMark, on `source`. Nothing is proved of this function: the
/// contract only gives its result the name [`markdown_html`].
#[verifier::external_body]
fn to_html(source: &str) -> (html: String)
    ensures
        html@ == markdown_html(source@),
{
    markdown::to_html(source)
}

/// What a post is rendered to, given what reading its body gave: the HTML
/// of the text, `PostNotFound` where no regular file stands there, and
/// `IoFailure` where the file could not be read.
pub open spec fn rendered(outcome: ReadView) -> Result<Seq<char>, ContentError> {
    match outcome {
        ReadView::Text(source) => Ok(markdown_html(source)),
        ReadView::Missing => Err(ContentError::PostNotFound),
        ReadView::NotAFile => Err(ContentError::PostNotFound),
        ReadView::Failed => Err(ContentError::IoFailure),
    }
}

/// What the post `id` under `root` is rendered to in `tree`.
pub open spec fn rendered_post(
    tree: Map<Seq<char>, NodeView>,
    root: Seq<char>,
    id: Seq<char>,
) -> Result<Seq<char>, ContentError> {
    if valid_identifier(id) {
        rendered(read_at(tree, body_path(root, id)))
    } else {
        Err(ContentError::InvalidIdentifier)
    }
}

/// Whether `result` is the executable form of `expected`.
pub open spec fn holds_html(
    result: Result<String, ContentError>,
    expected: Result<Seq<char>, ContentError>,
) -> bool {
    match expected {
        Ok(html) => result matches Ok(found) && found@ == html,
        Err(e) => result matches Err(f) && f == e,
    }
}

/// Renders a post from what reading its body file gave.
pub fn render_body(outcome: ReadOutcome) -> (result: Result<String, ContentError>)
    ensures
        holds_html(result, rendered(outcome@)),
{
    match outcome {
        ReadOutcome::Text(source) => Ok(to_html(source.as_str())),
        ReadOutcome::Missing => Err(ContentError::PostNotFound),
        ReadOutcome::NotAFile => Err(ContentError::PostNotFound),
        ReadOutcome::Failed => Err(ContentError::IoFailure),
    }
}

} // verus!
