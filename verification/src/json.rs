//! The JSON texts of the protocol, written and read by `serde_json`.
//!
//! Two shapes are all the protocol needs.  A *record* is a JSON object whose
//! members are all strings; a *document* is a JSON object whose members are
//! all arrays of records.  This module hands both to `serde_json` as plain
//! pairs and lists and takes them back the same way.  What `serde_json` makes
//! of a value or of a text is not restated here: it goes by a name, and the
//! contracts of this crate speak of those names.

use std::collections::BTreeMap;
use vstd::prelude::*;

verus! {

/// The error with which `serde_json` refuses a text or a value.
#[verifier::external_type_specification]
#[verifier::external_body]
pub struct ExJsonError(serde_json::Error);

/// A JSON object with string members, as pairs of member name and value.
pub type Record = Vec<(String, String)>;

/// A JSON object whose members are arrays of records.
pub type Document = Vec<(String, Vec<Record>)>;

/// A record as the contracts see it.
pub type RecordView = Seq<(Seq<char>, Seq<char>)>;

/// A document as the contracts see it.
pub type DocumentView = Seq<(Seq<char>, Seq<RecordView>)>;

/// The compact JSON text that `serde_json` writes for the object with the
/// members `record`, each value a JSON string; `None` where it reports an
/// error instead.
pub uninterp spec fn record_text(record: RecordView) -> Option<Seq<char>>;

/// The record that `serde_json` reads from `text` when it is asked for a map
/// from strings to strings: the members of the object that `text` spells, in
/// the order of the map; `None` where `serde_json` refuses the text.
pub uninterp spec fn text_record(text: Seq<char>) -> Option<RecordView>;

/// The indented JSON text that `serde_json` writes for `document`; `None`
/// where it reports an error instead.
pub uninterp spec fn document_text(document: DocumentView) -> Option<Seq<char>>;

/// The document that `serde_json` reads from `text` when it is asked for a
/// map from strings to lists of maps from strings to strings; `None` where it
/// refuses the text.
pub uninterp spec fn text_document(text: Seq<char>) -> Option<DocumentView>;

/// `serde_json::to_string` on the `serde_json::Value` object that holds each
/// pair of `record` as a string member.  The outcome depends on the pairs
/// alone and is `record_text` of them.
#[verifier::external_body]
pub(crate) fn write_record(record: &Record) -> (text: Result<String, serde_json::Error>)
    ensures
        match text {
            Ok(t) => record_text(record.deep_view()) == Some(t@),
            Err(_) => record_text(record.deep_view()) is None,
        },
{
    let object: serde_json::Map<String, serde_json::Value> = record
        .iter()
        .map(|(key, value)| (key.clone(), serde_json::Value::String(value.clone())))
        .collect();
    serde_json::to_string(&serde_json::Value::Object(object))
}

/// `serde_json::from_str` into a `BTreeMap` from strings to strings, handed
/// back as the pairs of that map.  The outcome depends on the text alone and
/// is `text_record` of it.
#[verifier::external_body]
pub(crate) fn read_record(text: &str) -> (record: Result<Record, serde_json::Error>)
    ensures
        match record {
            Ok(r) => text_record(text@) == Some(r.deep_view()),
            Err(_) => text_record(text@) is None,
        },
{
    let object: BTreeMap<String, String> = serde_json::from_str(text)?;
    Ok(object.into_iter().collect())
}

/// `serde_json::to_string_pretty` on the `BTreeMap` that holds each pair of
/// `document` as a member whose value is the list of its records, each
/// record a `BTreeMap` of its pairs.  The outcome depends on the pairs alone
/// and is `document_text` of them.
#[verifier::external_body]
pub(crate) fn write_document(document: &Document) -> (text: Result<String, serde_json::Error>)
    ensures
        match text {
            Ok(t) => document_text(document.deep_view()) == Some(t@),
            Err(_) => document_text(document.deep_view()) is None,
        },
{
    let object: BTreeMap<&String, Vec<BTreeMap<&String, &String>>> = document
        .iter()
        .map(|(key, rows)| (key, rows.iter().map(|row| row.iter().map(|(k, v)| (k, v)).collect()).collect()))
        .collect();
    serde_json::to_string_pretty(&object)
}

/// `serde_json::from_str` into a `BTreeMap` from strings to lists of
/// `BTreeMap`s from strings to strings, handed back as pairs and lists.  The
/// outcome depends on the text alone and is `text_document` of it.
#[verifier::external_body]
pub(crate) fn read_document(text: &str) -> (document: Result<Document, serde_json::Error>)
    ensures
        match document {
            Ok(d) => text_document(text@) == Some(d.deep_view()),
            Err(_) => text_document(text@) is None,
        },
{
    let object: BTreeMap<String, Vec<BTreeMap<String, String>>> = serde_json::from_str(text)?;
    Ok(object
        .into_iter()
        .map(|(key, rows)| (key, rows.into_iter().map(|row| row.into_iter().collect()).collect()))
        .collect())
}

} // verus!
