use blog::error::ContentError;
use blog::metadata::{metadata_from_entries, parse_metadata, PostMeta, YamlEntry};

fn entry(key: &str, value: &str) -> YamlEntry {
    YamlEntry { key: Some(key.to_string()), value: Some(value.to_string()) }
}

fn record(descripcion: &str, titulo: &str, fecha: &str, archivo: &str) -> PostMeta {
    PostMeta::new(
        descripcion.to_string(),
        titulo.to_string(),
        fecha.to_string(),
        archivo.to_string(),
    )
}

#[test]
fn sidecar_with_four_fields_parses() {
    let text = "descripcion: Un resumen\ntitulo: Hola\nfecha: 2024-05-01\narchivo: hola.md\n";
    let meta = parse_metadata(text).unwrap();
    assert_eq!(meta.descripcion(), "Un resumen");
    assert_eq!(meta.titulo(), "Hola");
    assert_eq!(meta.fecha(), "2024-05-01");
    assert_eq!(meta.archivo(), "hola.md");
}

#[test]
fn sidecar_fields_may_come_in_any_order() {
    let text = "archivo: a.md\nfecha: ayer\ntitulo: \"T: con dos puntos\"\ndescripcion: 'D'\n";
    assert_eq!(parse_metadata(text), Ok(record("D", "T: con dos puntos", "ayer", "a.md")));
}

#[test]
fn sidecar_keeps_text_beyond_ascii() {
    let text = "descripcion: Cómo programé esto\ntitulo: Año nuevo\nfecha: 1 de enero\narchivo: año.md\n";
    assert_eq!(
        parse_metadata(text),
        Ok(record("Cómo programé esto", "Año nuevo", "1 de enero", "año.md"))
    );
}

#[test]
fn sidecar_ignores_other_entries() {
    let text = "titulo: T\netiquetas: [a, b]\ndescripcion: D\n7: siete\nfecha: F\narchivo: a.md\n";
    assert_eq!(parse_metadata(text), Ok(record("D", "T", "F", "a.md")));
}

#[test]
fn sidecar_without_a_field_is_malformed() {
    let text = "descripcion: Un resumen\ntitulo: Hola\nfecha: 2024-05-01\n";
    assert_eq!(parse_metadata(text), Err(ContentError::MalformedMetadata));
}

#[test]
fn each_field_is_required() {
    let lines = ["descripcion: D", "titulo: T", "fecha: F", "archivo: a.md"];
    for skipped in 0..lines.len() {
        let mut text = String::new();
        for (i, line) in lines.iter().enumerate() {
            if i != skipped {
                text.push_str(line);
                text.push('\n');
            }
        }
        assert_eq!(parse_metadata(&text), Err(ContentError::MalformedMetadata));
    }
}

#[test]
fn field_that_is_no_text_is_malformed() {
    let text = "descripcion: D\ntitulo: [uno, dos]\nfecha: F\narchivo: a.md\n";
    assert_eq!(parse_metadata(text), Err(ContentError::MalformedMetadata));
    let text = "descripcion: D\ntitulo: 12\nfecha: F\narchivo: a.md\n";
    assert_eq!(parse_metadata(text), Err(ContentError::MalformedMetadata));
    let text = "descripcion: D\ntitulo: '12'\nfecha: F\narchivo: a.md\n";
    assert_eq!(parse_metadata(text), Ok(record("D", "12", "F", "a.md")));
}

#[test]
fn text_that_is_no_mapping_is_malformed() {
    assert_eq!(parse_metadata("- uno\n- dos\n"), Err(ContentError::MalformedMetadata));
    assert_eq!(parse_metadata("solo texto"), Err(ContentError::MalformedMetadata));
    assert_eq!(parse_metadata(""), Err(ContentError::MalformedMetadata));
    assert_eq!(parse_metadata("titulo: [sin cerrar\n"), Err(ContentError::MalformedMetadata));
}

#[test]
fn sidecar_with_a_key_twice_is_malformed() {
    let text = "descripcion: D\ntitulo: T\ntitulo: U\nfecha: F\narchivo: a.md\n";
    assert_eq!(parse_metadata(text), Err(ContentError::MalformedMetadata));
}

#[test]
fn entries_give_the_record() {
    let doc = vec![
        entry("titulo", "T"),
        entry("extra", "x"),
        entry("archivo", "a.md"),
        entry("fecha", "F"),
        entry("descripcion", "D"),
    ];
    assert_eq!(metadata_from_entries(Some(doc)), Ok(record("D", "T", "F", "a.md")));
}

#[test]
fn first_entry_under_a_key_decides() {
    let doc = vec![
        entry("titulo", "primero"),
        entry("titulo", "segundo"),
        entry("archivo", "a.md"),
        entry("fecha", "F"),
        entry("descripcion", "D"),
    ];
    assert_eq!(metadata_from_entries(Some(doc)), Ok(record("D", "primero", "F", "a.md")));
    let doc = vec![
        YamlEntry { key: Some("titulo".to_string()), value: None },
        entry("titulo", "segundo"),
        entry("archivo", "a.md"),
        entry("fecha", "F"),
        entry("descripcion", "D"),
    ];
    assert_eq!(metadata_from_entries(Some(doc)), Err(ContentError::MalformedMetadata));
}

#[test]
fn entries_without_keys_do_not_count() {
    let doc = vec![
        YamlEntry { key: None, value: Some("T".to_string()) },
        entry("archivo", "a.md"),
        entry("fecha", "F"),
        entry("descripcion", "D"),
    ];
    assert_eq!(metadata_from_entries(Some(doc)), Err(ContentError::MalformedMetadata));
}

#[test]
fn no_document_is_malformed() {
    assert_eq!(metadata_from_entries(None), Err(ContentError::MalformedMetadata));
    assert_eq!(metadata_from_entries(Some(Vec::new())), Err(ContentError::MalformedMetadata));
}

#[test]
fn record_hands_its_fields_out() {
    let meta = record("D", "T", "F", "a.md");
    assert_eq!(meta.descripcion(), "D");
    assert_eq!(meta.titulo(), "T");
    assert_eq!(meta.fecha(), "F");
    assert_eq!(meta.archivo(), "a.md");
    assert_eq!(meta.clone(), meta);
}
