//! Post metadata and the sidecar files it is read from.
//!
//! A sidecar is a YAML mapping. Four of its entries are required, each with
//! a text value: `descripcion`, `titulo`, `fecha` and `archivo`. Entries
//! under other keys are ignored. A value that YAML reads as a number, a
//! truth value, nothing or a collection is no text: `titulo: 12` is
//! malformed, `titulo: '12'` is not.

use crate::error::ContentError;
use crate::text::same_text;
use vstd::prelude::*;

verus! {

/// What a listing shows of one post.
#[derive(Clone, Debug, PartialEq, Eq)]
pub struct PostMeta {
    descripcion: String,
    titulo: String,
    fecha: String,
    archivo: String,
}

/// The mathematical value of a [`PostMeta`].
pub struct PostMetaView {
    /// The summary.
    pub descripcion: Seq<char>,
    /// The title.
    pub titulo: Seq<char>,
    /// The date, as it is to be displayed.
    pub fecha: Seq<char>,
    /// The name of the body file, by which the post is addressed.
    pub archivo: Seq<char>,
}

impl View for PostMeta {
    type V = PostMetaView;

    closed spec fn view(&self) -> PostMetaView {
        PostMetaView {
            descripcion: self.descripcion@,
            titulo: self.titulo@,
            fecha: self.fecha@,
            archivo: self.archivo@,
        }
    }
}

/// The values of a list of metadata records, in order.
pub open spec fn meta_views(list: Seq<PostMeta>) -> Seq<PostMetaView> {
    list.map_values(|m: PostMeta| m@)
}

/// One entry of a YAML mapping, as far as a sidecar is read: the key and
/// the value, each held only where it is a YAML string.
#[derive(Clone, Debug, PartialEq, Eq)]
pub struct YamlEntry {
    /// The key, if it is a string.
    pub key: Option<String>,
    /// The value, if it is a string.
    pub value: Option<String>,
}

/// The mathematical value of a [`YamlEntry`].
pub struct YamlEntryView {
    /// The key, if it is a string.
    pub key: Option<Seq<char>>,
    /// The value, if it is a string.
    pub value: Option<Seq<char>>,
}

impl View for YamlEntry {
    type V = YamlEntryView;

    open spec fn view(&self) -> YamlEntryView {
        YamlEntryView {
            key: match self.key {
                Some(k) => Some(k@),
                None => None,
            },
            value: match self.value {
                Some(v) => Some(v@),
                None => None,
            },
        }
    }
}

/// The value of a parsed document: its entries in order, or `None` where
/// the text is no YAML mapping.
pub open spec fn document_view(doc: Option<Vec<YamlEntry>>) -> Option<Seq<YamlEntryView>> {
    match doc {
        Some(entries) => Some(entries@.map_values(|e: YamlEntry| e@)),
        None => None,
    }
}

/// The entries of the YAML mapping that `text` holds, in document order,
/// as `serde_yaml` reads them; `None` where it reads no mapping from `text`.
pub uninterp spec fn yaml_mapping(text: Seq<char>) -> Option<Seq<YamlEntryView>>;

/// Reads `text` with `serde_yaml::from_str` as a `serde_yaml::Mapping` and
/// hands out its entries in order, each key and value through
/// `serde_yaml::Value::as_str`. Nothing is proved of this function: the
/// contract only gives its result the name [`yaml_mapping`].
#[verifier::external_body]
fn read_mapping(text: &str) -> (doc: Option<Vec<YamlEntry>>)
    ensures
        document_view(doc) == yaml_mapping(text@),
{
    match serde_yaml::from_str::<serde_yaml::Mapping>(text) {
        Ok(mapping) => Some(
            mapping.iter().map(|(k, v)| YamlEntry {
                key: k.as_str().map(String::from),
                value: v.as_str().map(String::from),
            }).collect(),
        ),
        Err(_) => None,
    }
}

/// The text value of the first entry under `key`; `None` where no entry
/// has that key, or where the value of the first that has it is no string.
pub open spec fn text_field(entries: Seq<YamlEntryView>, key: Seq<char>) -> Option<Seq<char>>
    decreases entries.len(),
{
    if entries.len() == 0 {
        None
    } else if entries[0].key == Some(key) {
        entries[0].value
    } else {
        text_field(entries.drop_first(), key)
    }
}

/// The metadata that a parsed sidecar holds: all four fields must be there
/// as text, and a text that is no mapping at all is malformed too.
pub open spec fn metadata_of(doc: Option<Seq<YamlEntryView>>) -> Result<PostMetaView, ContentError> {
    match doc {
        None => Err(ContentError::MalformedMetadata),
        Some(entries) => match (
            text_field(entries, "descripcion"@),
            text_field(entries, "titulo"@),
            text_field(entries, "fecha"@),
            text_field(entries, "archivo"@),
        ) {
            (Some(descripcion), Some(titulo), Some(fecha), Some(archivo)) => Ok(
                PostMetaView { descripcion, titulo, fecha, archivo },
            ),
            _ => Err(ContentError::MalformedMetadata),
        },
    }
}

/// Whether `result` is the executable form of `expected`.
pub open spec fn holds_metadata(
    result: Result<PostMeta, ContentError>,
    expected: Result<PostMetaView, ContentError>,
) -> bool {
    match expected {
        Ok(meta) => result matches Ok(found) && found@ == meta,
        Err(e) => result matches Err(f) && f == e,
    }
}

impl PostMeta {
    /// A record with the four fields given.
    pub fn new(descripcion: String, titulo: String, fecha: String, archivo: String) -> (meta: PostMeta)
        ensures
            meta@ == (PostMetaView {
                descripcion: descripcion@,
                titulo: titulo@,
                fecha: fecha@,
                archivo: archivo@,
            }),
    {
        PostMeta { descripcion, titulo, fecha, archivo }
    }

    /// The summary.
    pub fn descripcion(&self) -> (text: &str)
        ensures
            text@ == self@.descripcion,
    {
        self.descripcion.as_str()
    }

    /// The title.
    pub fn titulo(&self) -> (text: &str)
        ensures
            text@ == self@.titulo,
    {
        self.titulo.as_str()
    }

    /// The date, as it is to be displayed.
    pub fn fecha(&self) -> (text: &str)
        ensures
            text@ == self@.fecha,
    {
        self.fecha.as_str()
    }

    /// The name of the body file.
    pub fn archivo(&self) -> (text: &str)
        ensures
            text@ == self@.archivo,
    {
        self.archivo.as_str()
    }
}

/// Looks `key` up among `entries`, as [`text_field`] says.
fn find_text(entries: &Vec<YamlEntry>, key: &str) -> (text: Option<String>)
    ensures
        match text_field(entries@.map_values(|e: YamlEntry| e@), key@) {
            Some(t) => text matches Some(s) && s@ == t,
            None => text is None,
        },
{
    let ghost all = entries@.map_values(|e: YamlEntry| e@);
    let mut i: usize = 0;
    assert(all.skip(0) =~= all);
    while i < entries.len()
        invariant
            i <= entries.len(),
            all == entries@.map_values(|e: YamlEntry| e@),
            text_field(all, key@) == text_field(all.skip(i as int), key@),
        decreases entries.len() - i,
    {
        let entry = &entries[i];
        proof {
            assert(all.skip(i as int)[0] == entry@);
            assert(all.skip(i as int).drop_first() =~= all.skip(i + 1));
        }
        let hit = match &entry.key {
            Some(k) => same_text(k.as_str(), key),
            None => false,
        };
        if hit {
            return match &entry.value {
                Some(v) => Some(v.clone()),
                None => None,
            };
        }
        i += 1;
    }
    None
}

/// The metadata in a document that was already read: `Ok` exactly where all
/// four fields are there as text.
pub fn metadata_from_entries(doc: Option<Vec<YamlEntry>>) -> (result: Result<PostMeta, ContentError>)
    ensures
        holds_metadata(result, metadata_of(document_view(doc))),
{
    let entries = match doc {
        Some(entries) => entries,
        None => {
            return Err(ContentError::MalformedMetadata);
        },
    };
    let descripcion = find_text(&entries, "descripcion");
    let titulo = find_text(&entries, "titulo");
    let fecha = find_text(&entries, "fecha");
    let archivo = find_text(&entries, "archivo");
    match (descripcion, titulo, fecha, archivo) {
        (Some(descripcion), Some(titulo), Some(fecha), Some(archivo)) => Ok(
            PostMeta::new(descripcion, titulo, fecha, archivo),
        ),
        _ => Err(ContentError::MalformedMetadata),
    }
}

/// Reads the metadata from the text of a sidecar file. It fails with
/// `MalformedMetadata`, and with nothing else, exactly where the text is no
/// YAML mapping or lacks one of the four fields as text.
pub fn parse_metadata(text: &str) -> (result: Result<PostMeta, ContentError>)
    ensures
        holds_metadata(result, metadata_of(yaml_mapping(text@))),
{
    metadata_from_entries(read_mapping(text))
}

} // verus!
