use blog::error::ContentError;
use blog::metadata::PostMeta;
use blog::page::{fetch_state, newest_first, Fetched};

fn record(titulo: &str) -> PostMeta {
    PostMeta::new("D".to_string(), titulo.to_string(), "F".to_string(), format!("{titulo}.md"))
}

#[test]
fn fetch_under_way_is_loading() {
    assert_eq!(fetch_state::<String, ContentError>(None), Fetched::Loading);
}

#[test]
fn fetch_that_succeeded_is_loaded() {
    assert_eq!(
        fetch_state::<String, ContentError>(Some(Ok("<p>hola</p>".to_string()))),
        Fetched::Loaded("<p>hola</p>".to_string())
    );
}

#[test]
fn fetch_that_failed_is_failed() {
    assert_eq!(
        fetch_state::<String, ContentError>(Some(Err(ContentError::PostNotFound))),
        Fetched::Failed(ContentError::PostNotFound)
    );
}

#[test]
fn newest_first_turns_the_listing_round() {
    let shown = newest_first(vec![record("a"), record("b"), record("c")]);
    assert_eq!(shown, vec![record("c"), record("b"), record("a")]);
}

#[test]
fn newest_first_of_nothing_is_nothing() {
    assert_eq!(newest_first(Vec::new()), Vec::new());
}

#[test]
fn newest_first_of_one_is_that_one() {
    assert_eq!(newest_first(vec![record("a")]), vec![record("a")]);
}
