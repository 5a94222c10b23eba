//! The command protocol: the three requests that the controller understands
//! and what each answer does to the state store.
//!
//! A command is one round trip.  The caller sends the framed request, reads
//! the answer off the same connection and hands its text to `set`, `get` or
//! `get_all`, which merge it into the table.  After a command that returned
//! `Ok` the caller persists the table.

use crate::error::ProtocolError;
use crate::json::{
    document_text, read_document, read_record, text_document, text_record, write_document,
    Record, RecordView,
};
use crate::shapes::{
    decode_locale, decode_table, document_table, encode_table, record_locale, table_document,
};
use crate::store::{
    merge_answer, merged, merged_all, names_unique, Locale, LocaleTable, LocaleView,
};
use vstd::prelude::*;
use vstd::string::*;

verus! {

/// A request to the controller.
#[derive(Debug)]
pub enum Request {
    /// Switch the locale `locate` to `value`.
    SetOne { locate: String, value: String },
    /// Report the status of the locale `locate`.
    GetOne { locate: String },
    /// Report every locale the controller knows.
    GetAll,
}

/// What `str::to_lowercase` makes of a text.
pub uninterp spec fn lowercased(text: Seq<char>) -> Seq<char>;

/// `str::to_lowercase`: the lowercase equivalent of `text`, as Unicode
/// defines it.
#[verifier::external_body]
fn lowercase(text: &str) -> (lower: String)
    ensures
        lower@ == lowercased(text@),
{
    text.to_lowercase()
}

/// The record that is sent for a request.
pub open spec fn request_record(request: Request) -> RecordView {
    match request {
        Request::SetOne { locate, value } => seq![
            ("locate"@, locate@),
            ("value"@, value@),
            ("command"@, "set"@),
        ],
        Request::GetOne { locate } => seq![("locate"@, locate@), ("command"@, "get"@)],
        Request::GetAll => seq![("command"@, "get_all"@)],
    }
}

impl Request {
    /// The request that switches `locate` to `value`.  The status travels in
    /// lower case whatever the case in which it was given.
    pub fn set(value: &str, locate: &str) -> (request: Request)
        ensures
            (request matches Request::SetOne { locate: l, value: v } && l@ == locate@ && v@
                == lowercased(value@)),
    {
        Request::SetOne { locate: String::from_str(locate), value: lowercase(value) }
    }

    /// The request that asks for the status of `locate`.
    pub fn get(locate: &str) -> (request: Request)
        ensures
            (request matches Request::GetOne { locate: l } && l@ == locate@),
    {
        Request::GetOne { locate: String::from_str(locate) }
    }

    /// The request that asks for every locale.
    pub fn get_all() -> (request: Request)
        ensures
            request is GetAll,
    {
        Request::GetAll
    }

    /// The record that is sent for this request.
    pub fn record(&self) -> (record: Record)
        ensures
            record.deep_view() == request_record(*self),
    {
        let mut record: Record = Vec::new();
        match self {
            Request::SetOne { locate, value } => {
                record.push((String::from_str("locate"), locate.clone()));
                record.push((String::from_str("value"), value.clone()));
                record.push((String::from_str("command"), String::from_str("set")));
            },
            Request::GetOne { locate } => {
                record.push((String::from_str("locate"), locate.clone()));
                record.push((String::from_str("command"), String::from_str("get")));
            },
            Request::GetAll => {
                record.push((String::from_str("command"), String::from_str("get_all")));
            },
        }
        assert(record.deep_view() =~= request_record(*self));
        record
    }
}

/// The locale that an answer to `Set` or `Get` carries.
pub open spec fn answer_locale(text: Seq<char>) -> Result<LocaleView, ProtocolError> {
    match text_record(text) {
        None => Err(ProtocolError::Json),
        Some(record) => match record_locale(record) {
            None => Err(ProtocolError::Shape),
            Some(locale) => Ok(locale),
        },
    }
}

/// The table that an answer to `GetAll`, or the persisted cache, carries.
pub open spec fn answer_table(text: Seq<char>) -> Result<Seq<LocaleView>, ProtocolError> {
    match text_document(text) {
        None => Err(ProtocolError::Json),
        Some(document) => match document_table(document) {
            None => Err(ProtocolError::Shape),
            Some(rows) => Ok(rows),
        },
    }
}

/// The text under which a table is persisted.
pub open spec fn table_text(rows: Seq<LocaleView>) -> Result<Seq<char>, ProtocolError> {
    match document_text(table_document(rows)) {
        None => Err(ProtocolError::Encode),
        Some(text) => Ok(text),
    }
}

/// Reads the single locale of an answer to `Set` or `Get`.
pub fn read_locale(text: &str) -> (locale: Result<Locale, ProtocolError>)
    ensures
        match locale {
            Ok(l) => answer_locale(text@) == Ok::<LocaleView, ProtocolError>(l@),
            Err(e) => answer_locale(text@) == Err::<LocaleView, ProtocolError>(e),
        },
{
    match read_record(text) {
        Err(_) => Err(ProtocolError::Json),
        Ok(record) => match decode_locale(&record) {
            None => Err(ProtocolError::Shape),
            Some(locale) => Ok(locale),
        },
    }
}

/// Reads a whole table: the answer to `GetAll`, or the persisted cache.
pub fn read_table(text: &str) -> (table: Result<LocaleTable, ProtocolError>)
    ensures
        match table {
            Ok(t) => answer_table(text@) == Ok::<Seq<LocaleView>, ProtocolError>(t@),
            Err(e) => answer_table(text@) == Err::<Seq<LocaleView>, ProtocolError>(e),
        },
{
    match read_document(text) {
        Err(_) => Err(ProtocolError::Json),
        Ok(document) => match decode_table(&document) {
            None => Err(ProtocolError::Shape),
            Some(table) => Ok(table),
        },
    }
}

/// The table with which the store starts, given the text of the persisted
/// cache: the table that the text carries, provided no two rows share a name.
pub open spec fn cache_table(text: Seq<char>) -> Result<Seq<LocaleView>, ProtocolError> {
    match answer_table(text) {
        Ok(rows) => if names_unique(rows) {
            Ok(rows)
        } else {
            Err(ProtocolError::Duplicate)
        },
        Err(e) => Err(e),
    }
}

/// Reads the persisted cache, to seed the store at startup.  Beyond what
/// `read_table` asks, the names must be unique.
pub fn load(text: &str) -> (table: Result<LocaleTable, ProtocolError>)
    ensures
        match table {
            Ok(t) => cache_table(text@) == Ok::<Seq<LocaleView>, ProtocolError>(t@) && t.wf(),
            Err(e) => cache_table(text@) == Err::<Seq<LocaleView>, ProtocolError>(e),
        },
{
    match read_table(text) {
        Ok(table) => if table.has_unique_names() {
            Ok(table)
        } else {
            Err(ProtocolError::Duplicate)
        },
        Err(e) => Err(e),
    }
}

/// Writes a table as the text under which it is persisted.
pub fn write_table(table: &LocaleTable) -> (text: Result<String, ProtocolError>)
    ensures
        match text {
            Ok(t) => table_text(table@) == Ok::<Seq<char>, ProtocolError>(t@),
            Err(e) => table_text(table@) == Err::<Seq<char>, ProtocolError>(e),
        },
{
    match write_document(&encode_table(table)) {
        Ok(text) => Ok(text),
        Err(_) => Err(ProtocolError::Encode),
    }
}

/// Applies the controller's answer to a `Set`: the echoed locale is merged
/// into the table.  An answer that cannot be read leaves the table alone.
pub fn set(locales: &mut LocaleTable, answer: &str) -> (done: Result<(), ProtocolError>)
    ensures
        old(locales).wf() ==> final(locales).wf(),
        match answer_locale(answer@) {
            Ok(echoed) => done is Ok && final(locales)@ == merged(old(locales)@, echoed),
            Err(e) => done == Err::<(), ProtocolError>(e) && final(locales)@ == old(locales)@,
        },
{
    match read_locale(answer) {
        Ok(echoed) => {
            locales.merge(&echoed);
            Ok(())
        },
        Err(e) => Err(e),
    }
}

/// Applies the controller's answer to a `Get`: the reported locale is merged
/// into the table, and the status that the table now holds for it is
/// returned.  That is the normalized status, not the one on the wire; it is
/// empty where the table has no row of that name.
pub fn get(locales: &mut LocaleTable, answer: &str) -> (status: Result<String, ProtocolError>)
    ensures
        old(locales).wf() ==> final(locales).wf(),
        match answer_locale(answer@) {
            Ok(reported) => {
                &&& status matches Ok(s) && s@ == merge_answer(old(locales)@, reported).status
                &&& final(locales)@ == merged(old(locales)@, reported)
            },
            Err(e) => status == Err::<String, ProtocolError>(e) && final(locales)@ == old(locales)@,
        },
{
    match read_locale(answer) {
        Ok(reported) => {
            let stored = locales.merge(&reported);
            Ok(stored.status)
        },
        Err(e) => Err(e),
    }
}

/// Applies the controller's answer to a `GetAll`: every locale that both the
/// table and the answer name is merged, and a copy of the table as it then
/// stands is returned.
pub fn get_all(locales: &mut LocaleTable, answer: &str) -> (snapshot: Result<
    LocaleTable,
    ProtocolError,
>)
    ensures
        old(locales).wf() ==> final(locales).wf(),
        match answer_table(answer@) {
            Ok(reported) => {
                &&& snapshot matches Ok(t) && t@ == final(locales)@
                &&& final(locales)@ == merged_all(old(locales)@, reported)
            },
            Err(e) => snapshot == Err::<LocaleTable, ProtocolError>(e) && final(locales)@ == old(locales)@,
        },
{
    match read_table(answer) {
        Ok(reported) => {
            locales.merge_all(&reported);
            Ok(locales.clone())
        },
        Err(e) => Err(e),
    }
}

} // verus!
