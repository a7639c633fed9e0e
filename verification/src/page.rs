//! What a page has to go on: the state of a fetch that may still be under
//! way, and the order in which a listing is shown.

use crate::metadata::{meta_views, PostMeta};
use vstd::prelude::*;

verus! {

/// The state of a fetch, as a page sees it.
#[derive(Clone, Debug, PartialEq, Eq)]
pub enum Fetched<T, E> {
    /// No answer has come yet.
    Loading,
    /// The answer came, and it is this value.
    Loaded(T),
    /// The answer came, and it is this failure.
    Failed(E),
}

/// The state of a fetch of which `polled` is known: nothing while it is
/// under way, else its result.
pub fn fetch_state<T, E>(polled: Option<Result<T, E>>) -> (state: Fetched<T, E>)
    ensures
        state == match polled {
            None => Fetched::<T, E>::Loading,
            Some(Ok(value)) => Fetched::Loaded(value),
            Some(Err(e)) => Fetched::Failed(e),
        },
{
    match polled {
        None => Fetched::Loading,
        Some(Ok(value)) => Fetched::Loaded(value),
        Some(Err(e)) => Fetched::Failed(e),
    }
}

/// The listing in the order in which it is shown: what was found last
/// comes first.
pub fn newest_first(posts: Vec<PostMeta>) -> (shown: Vec<PostMeta>)
    ensures
        meta_views(shown@) == meta_views(posts@).reverse(),
{
    let mut left = posts;
    let mut shown: Vec<PostMeta> = Vec::new();
    let ghost all = meta_views(posts@);
    assert(meta_views(shown@) =~= all.reverse().take(0));
    while left.len() > 0
        invariant
            left.len() + shown.len() == all.len(),
            meta_views(left@) == all.take(left.len() as int),
            meta_views(shown@) == all.reverse().take(shown.len() as int),
        decreases left.len(),
    {
        let ghost before = meta_views(shown@);
        let ghost n = left.len() as int;
        match left.pop() {
            Some(meta) => {
                proof {
                    assert(meta@ == all.take(n)[n - 1]);
                    assert(meta_views(left@) =~= all.take(n - 1));
                }
                shown.push(meta);
                proof {
                    assert(meta_views(shown@) =~= before.push(meta@));
                    assert(all.reverse().take(shown.len() as int) =~= before.push(meta@));
                }
            },
            None => {},
        }
    }
    assert(all.reverse().take(all.len() as int) =~= all.reverse());
    shown
}

} // verus!
