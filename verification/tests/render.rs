use blog::error::ContentError;
use blog::render::render_body;
use blog::tree::ReadOutcome;

#[test]
fn markdown_becomes_html() {
    let html = render_body(ReadOutcome::Text("# Hi\n\nBody **text**".to_string())).unwrap();
    assert!(html.contains("<h1>Hi</h1>"));
    assert!(html.contains("<strong>text</strong>"));
    assert_eq!(html, "<h1>Hi</h1>\n<p>Body <strong>text</strong></p>");
}

#[test]
fn lists_links_and_code_become_html() {
    let source = "- uno\n- dos\n\n[sitio](https://example.com)\n\n```rust\nfn main() {}\n```\n";
    let html = render_body(ReadOutcome::Text(source.to_string())).unwrap();
    assert!(html.contains("<li>uno</li>"));
    assert!(html.contains("<a href=\"https://example.com\">sitio</a>"));
    assert!(html.contains("<pre><code class=\"language-rust\">fn main() {}\n</code></pre>"));
}

#[test]
fn empty_body_becomes_empty_html() {
    assert_eq!(render_body(ReadOutcome::Text(String::new())), Ok(String::new()));
}

#[test]
fn rendering_twice_gives_the_same_html() {
    let source = "## Título\n\nUn *párrafo* con `código`.\n";
    let first = render_body(ReadOutcome::Text(source.to_string()));
    let second = render_body(ReadOutcome::Text(source.to_string()));
    assert!(first.is_ok());
    assert_eq!(first, second);
}

#[test]
fn missing_body_is_post_not_found() {
    assert_eq!(render_body(ReadOutcome::Missing), Err(ContentError::PostNotFound));
}

#[test]
fn body_that_is_no_file_is_post_not_found() {
    assert_eq!(render_body(ReadOutcome::NotAFile), Err(ContentError::PostNotFound));
}

#[test]
fn unreadable_body_is_io_failure() {
    assert_eq!(render_body(ReadOutcome::Failed), Err(ContentError::IoFailure));
}
