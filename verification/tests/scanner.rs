use blog::error::ContentError;
use blog::metadata::PostMeta;
use blog::scanner::{is_sidecar, ScanRequest, Scanner};
use blog::tree::{ListOutcome, ReadOutcome};

fn paths(list: &[&str]) -> Vec<String> {
    list.iter().map(|p| p.to_string()).collect()
}

fn sidecar(titulo: &str, archivo: &str) -> String {
    format!("descripcion: D de {titulo}\ntitulo: {titulo}\nfecha: hoy\narchivo: {archivo}\n")
}

fn record(titulo: &str, archivo: &str) -> PostMeta {
    PostMeta::new(
        format!("D de {titulo}"),
        titulo.to_string(),
        "hoy".to_string(),
        archivo.to_string(),
    )
}

#[test]
fn sidecars_are_told_by_their_extension() {
    assert!(is_sidecar("posts/a/a.yml"));
    assert!(is_sidecar("a.yml"));
    assert!(is_sidecar("posts/a/a.b.yml"));
    assert!(is_sidecar("posts\\a\\a.yml"));
    assert!(is_sidecar("posts/año/año.yml"));
    assert!(!is_sidecar("yml"));
    assert!(!is_sidecar(".yml"));
    assert!(!is_sidecar("posts/a/.yml"));
    assert!(!is_sidecar("posts\\a\\.yml"));
    assert!(!is_sidecar("posts/a/notasyml"));
    assert!(!is_sidecar("posts/a/bakyml"));
    assert!(!is_sidecar("posts/a/a.md"));
    assert!(!is_sidecar("posts/a/a.yaml"));
    assert!(!is_sidecar("posts/a/a.YML"));
    assert!(!is_sidecar("posts/a/a.yml.bak"));
    assert!(!is_sidecar("posts/a.yml/a"));
    assert!(!is_sidecar("ml"));
    assert!(!is_sidecar(""));
}

#[test]
fn file_without_extension_is_not_read_as_a_sidecar() {
    let mut scanner = Scanner::new("posts".to_string());
    scanner.supply_listing(ListOutcome::Entries(paths(&["posts/a"])));
    scanner.supply_listing(ListOutcome::Entries(paths(&[
        "posts/a/bakyml",
        "posts/a/a.yml",
        "posts/a/.yml",
        "posts/a/yml",
    ])));
    assert_eq!(scanner.request(), ScanRequest::Read("posts/a/a.yml".to_string()));
    scanner.supply_text(ReadOutcome::Text(sidecar("A", "bakyml")));
    assert_eq!(scanner.request(), ScanRequest::Done);
    assert_eq!(scanner.into_result(), Some(Ok(vec![record("A", "bakyml")])));
}

#[test]
fn scan_starts_by_listing_the_root() {
    let scanner = Scanner::new("posts".to_string());
    assert!(!scanner.is_done());
    assert_eq!(scanner.request(), ScanRequest::List("posts".to_string()));
    assert_eq!(scanner.into_result(), None);
}

#[test]
fn scan_of_an_empty_root_finds_nothing() {
    let mut scanner = Scanner::new("posts".to_string());
    scanner.supply_listing(ListOutcome::Entries(Vec::new()));
    assert!(scanner.is_done());
    assert_eq!(scanner.request(), ScanRequest::Done);
    assert_eq!(scanner.into_result(), Some(Ok(Vec::new())));
}

#[test]
fn scan_walks_directories_in_discovery_order() {
    let mut scanner = Scanner::new("posts".to_string());
    scanner.supply_listing(ListOutcome::Entries(paths(&["posts/b", "posts/a"])));
    assert_eq!(scanner.request(), ScanRequest::List("posts/b".to_string()));
    scanner.supply_listing(ListOutcome::Entries(paths(&["posts/b/b.md", "posts/b/b.yml"])));
    assert_eq!(scanner.request(), ScanRequest::Read("posts/b/b.yml".to_string()));
    scanner.supply_text(ReadOutcome::Text(sidecar("B", "b.md")));
    assert_eq!(scanner.request(), ScanRequest::List("posts/a".to_string()));
    scanner.supply_listing(ListOutcome::Entries(paths(&["posts/a/a.yml", "posts/a/a.md"])));
    assert_eq!(scanner.request(), ScanRequest::Read("posts/a/a.yml".to_string()));
    assert!(!scanner.is_done());
    scanner.supply_text(ReadOutcome::Text(sidecar("A", "a.md")));
    assert!(scanner.is_done());
    assert_eq!(scanner.request(), ScanRequest::Done);
    assert_eq!(scanner.into_result(), Some(Ok(vec![record("B", "b.md"), record("A", "a.md")])));
}

#[test]
fn every_sidecar_of_a_directory_gives_a_record() {
    let mut scanner = Scanner::new("posts".to_string());
    scanner.supply_listing(ListOutcome::Entries(paths(&["posts/a"])));
    scanner.supply_listing(ListOutcome::Entries(paths(&[
        "posts/a/uno.yml",
        "posts/a/a.md",
        "posts/a/dos.yml",
    ])));
    assert_eq!(scanner.request(), ScanRequest::Read("posts/a/uno.yml".to_string()));
    scanner.supply_text(ReadOutcome::Text(sidecar("Uno", "a.md")));
    assert_eq!(scanner.request(), ScanRequest::Read("posts/a/dos.yml".to_string()));
    scanner.supply_text(ReadOutcome::Text(sidecar("Dos", "a.md")));
    assert_eq!(scanner.into_result(), Some(Ok(vec![record("Uno", "a.md"), record("Dos", "a.md")])));
}

#[test]
fn directory_without_sidecar_gives_no_record() {
    let mut scanner = Scanner::new("posts".to_string());
    scanner.supply_listing(ListOutcome::Entries(paths(&["posts/vacio", "posts/a"])));
    scanner.supply_listing(ListOutcome::Entries(paths(&["posts/vacio/nota.md"])));
    assert_eq!(scanner.request(), ScanRequest::List("posts/a".to_string()));
    scanner.supply_listing(ListOutcome::Entries(Vec::new()));
    assert_eq!(scanner.into_result(), Some(Ok(Vec::new())));
}

#[test]
fn unreadable_root_ends_the_scan() {
    let mut scanner = Scanner::new("posts".to_string());
    scanner.supply_listing(ListOutcome::Failed);
    assert!(scanner.is_done());
    assert_eq!(scanner.into_result(), Some(Err(ContentError::DirectoryUnreadable)));
}

#[test]
fn unreadable_directory_ends_the_scan() {
    let mut scanner = Scanner::new("posts".to_string());
    scanner.supply_listing(ListOutcome::Entries(paths(&["posts/a", "posts/b"])));
    scanner.supply_listing(ListOutcome::Entries(paths(&["posts/a/a.yml"])));
    scanner.supply_text(ReadOutcome::Text(sidecar("A", "a.md")));
    scanner.supply_listing(ListOutcome::Failed);
    assert_eq!(scanner.request(), ScanRequest::Done);
    assert_eq!(scanner.into_result(), Some(Err(ContentError::DirectoryUnreadable)));
}

#[test]
fn malformed_sidecar_ends_the_scan() {
    let mut scanner = Scanner::new("posts".to_string());
    scanner.supply_listing(ListOutcome::Entries(paths(&["posts/a", "posts/b"])));
    scanner.supply_listing(ListOutcome::Entries(paths(&["posts/a/a.yml"])));
    scanner.supply_text(ReadOutcome::Text("titulo: solo esto\n".to_string()));
    assert!(scanner.is_done());
    assert_eq!(scanner.into_result(), Some(Err(ContentError::MalformedMetadata)));
}

#[test]
fn sidecar_that_cannot_be_read_ends_the_scan() {
    for outcome in [ReadOutcome::Failed, ReadOutcome::Missing, ReadOutcome::NotAFile] {
        let mut scanner = Scanner::new("posts".to_string());
        scanner.supply_listing(ListOutcome::Entries(paths(&["posts/a"])));
        scanner.supply_listing(ListOutcome::Entries(paths(&["posts/a/a.yml"])));
        scanner.supply_text(outcome);
        assert_eq!(scanner.into_result(), Some(Err(ContentError::IoFailure)));
    }
}

#[test]
fn answer_that_was_not_asked_for_changes_nothing() {
    let mut scanner = Scanner::new("posts".to_string());
    scanner.supply_text(ReadOutcome::Text(sidecar("A", "a.md")));
    assert_eq!(scanner.request(), ScanRequest::List("posts".to_string()));
    scanner.supply_listing(ListOutcome::Entries(paths(&["posts/a"])));
    scanner.supply_listing(ListOutcome::Entries(paths(&["posts/a/a.yml"])));
    scanner.supply_listing(ListOutcome::Failed);
    assert_eq!(scanner.request(), ScanRequest::Read("posts/a/a.yml".to_string()));
    scanner.supply_text(ReadOutcome::Text(sidecar("A", "a.md")));
    scanner.supply_text(ReadOutcome::Failed);
    scanner.supply_listing(ListOutcome::Failed);
    assert_eq!(scanner.into_result(), Some(Ok(vec![record("A", "a.md")])));
}
