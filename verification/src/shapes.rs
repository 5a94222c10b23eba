//! The JSON shapes of the protocol: which members stand for a locale and for
//! a table of locales.
//!
//! A locale is the record `{"locate": <name>, "status": <status>}`.  A table
//! is the document `{"locale_list": [<locale>, ...]}`.  Members that the
//! shapes do not name are ignored when a record or a document is read.

use crate::json::{Document, DocumentView, Record, RecordView};
use crate::store::{Locale, LocaleTable, LocaleView};
use vstd::prelude::*;
use vstd::string::*;

verus! {

/// The value of the first member at or after `from` whose name is `key`.
pub open spec fn member_from(record: RecordView, key: Seq<char>, from: int) -> Option<Seq<char>>
    decreases record.len() - from,
{
    if from < 0 || from >= record.len() {
        None
    } else if record[from].0 == key {
        Some(record[from].1)
    } else {
        member_from(record, key, from + 1)
    }
}

/// The value of the first member of `record` whose name is `key`.
pub open spec fn member(record: RecordView, key: Seq<char>) -> Option<Seq<char>> {
    member_from(record, key, 0)
}

/// The record that stands for a locale.
pub open spec fn locale_record(locale: LocaleView) -> RecordView {
    seq![("locate"@, locale.locate), ("status"@, locale.status)]
}

/// The locale that a record stands for: it needs a `locate` and a `status`
/// member.
pub open spec fn record_locale(record: RecordView) -> Option<LocaleView> {
    match (member(record, "locate"@), member(record, "status"@)) {
        (Some(locate), Some(status)) => Some(LocaleView { locate, status }),
        _ => None,
    }
}

/// The value of the first member of `record` that is named `key`.
pub fn member_value(record: &Record, key: &String) -> (value: Option<String>)
    ensures
        match value {
            Some(v) => member(record.deep_view(), key@) == Some(v@),
            None => member(record.deep_view(), key@) is None,
        },
{
    let mut i: usize = 0;
    while i < record.len()
        invariant
            i <= record.len(),
            member(record.deep_view(), key@) == member_from(record.deep_view(), key@, i as int),
        decreases record.len() - i,
    {
        assert(record.deep_view()[i as int] == (record[i as int].0@, record[i as int].1@));
        if record[i].0 == *key {
            return Some(record[i].1.clone());
        }
        i += 1;
    }
    None
}

/// Writes a locale as a record.
pub fn encode_locale(locale: &Locale) -> (record: Record)
    ensures
        record.deep_view() == locale_record(locale@),
{
    let mut record: Record = Vec::new();
    record.push((String::from_str("locate"), locale.locate.clone()));
    record.push((String::from_str("status"), locale.status.clone()));
    assert(record.deep_view() =~= locale_record(locale@));
    record
}

/// Reads a locale from a record.  The record must hold a `locate` and a
/// `status` member; other members are ignored.
pub fn decode_locale(record: &Record) -> (locale: Option<Locale>)
    ensures
        match locale {
            Some(l) => record_locale(record.deep_view()) == Some(l@),
            None => record_locale(record.deep_view()) is None,
        },
{
    let locate = member_value(record, &String::from_str("locate"));
    let status = member_value(record, &String::from_str("status"));
    match (locate, status) {
        (Some(locate), Some(status)) => Some(Locale { locate, status }),
        _ => None,
    }
}

/// A locale that was written as a record is read back unchanged.
pub proof fn law_locale_record_round_trip(locale: LocaleView)
    ensures
        record_locale(locale_record(locale)) == Some(locale),
{
    reveal_strlit("locate");
    reveal_strlit("status");
    reveal_with_fuel(member_from, 3);
    assert("locate"@.len() != "status"@.len() || "locate"@[0] != "status"@[0]);
}

/// The list of the first member at or after `from` whose name is `key`.
pub open spec fn list_from(document: DocumentView, key: Seq<char>, from: int) -> Option<
    Seq<RecordView>,
>
    decreases document.len() - from,
{
    if from < 0 || from >= document.len() {
        None
    } else if document[from].0 == key {
        Some(document[from].1)
    } else {
        list_from(document, key, from + 1)
    }
}

/// The list of the first member of `document` whose name is `key`.
pub open spec fn list(document: DocumentView, key: Seq<char>) -> Option<Seq<RecordView>> {
    list_from(document, key, 0)
}

/// The locales that a list of records stands for: every record must stand
/// for one.
pub open spec fn records_locales(records: Seq<RecordView>) -> Option<Seq<LocaleView>> {
    if forall|i: int| 0 <= i < records.len() ==> record_locale(#[trigger] records[i]) is Some {
        Some(records.map_values(|record: RecordView| record_locale(record).unwrap()))
    } else {
        None
    }
}

/// The document that stands for a table.
pub open spec fn table_document(rows: Seq<LocaleView>) -> DocumentView {
    seq![("locale_list"@, rows.map_values(|row: LocaleView| locale_record(row)))]
}

/// The table that a document stands for: it needs a `locale_list` member,
/// and every record of that list must stand for a locale.
pub open spec fn document_table(document: DocumentView) -> Option<Seq<LocaleView>> {
    match list(document, "locale_list"@) {
        Some(records) => records_locales(records),
        None => None,
    }
}

/// The index of the first member of `document` that is named `key`.
fn list_index(document: &Document, key: &String) -> (index: Option<usize>)
    ensures
        match index {
            Some(i) => i < document.len() && list(document.deep_view(), key@) == Some(
                document[i as int].1.deep_view(),
            ),
            None => list(document.deep_view(), key@) is None,
        },
{
    let mut i: usize = 0;
    while i < document.len()
        invariant
            i <= document.len(),
            list(document.deep_view(), key@) == list_from(document.deep_view(), key@, i as int),
        decreases document.len() - i,
    {
        assert(document.deep_view()[i as int] == (
            document[i as int].0@,
            document[i as int].1.deep_view(),
        ));
        if document[i].0 == *key {
            return Some(i);
        }
        i += 1;
    }
    None
}

/// Reads the locales of a list of records, or nothing if one of the records
/// does not stand for a locale.
pub fn decode_locales(records: &Vec<Record>) -> (rows: Option<Vec<Locale>>)
    ensures
        match rows {
            Some(r) => records_locales(records.deep_view()) == Some(
                r@.map_values(|row: Locale| row@),
            ),
            None => records_locales(records.deep_view()) is None,
        },
{
    let ghost views = records.deep_view();
    let mut rows: Vec<Locale> = Vec::new();
    let mut i: usize = 0;
    while i < records.len()
        invariant
            i <= records.len(),
            views == records.deep_view(),
            rows.len() == i,
            forall|j: int|
                0 <= j < i ==> record_locale(#[trigger] views[j]) == Some(rows[j]@),
        decreases records.len() - i,
    {
        assert(views[i as int] == records[i as int].deep_view());
        match decode_locale(&records[i]) {
            Some(row) => {
                rows.push(row);
            },
            None => {
                return None;
            },
        }
        i += 1;
    }
    assert(rows@.map_values(|row: Locale| row@) =~= views.map_values(
        |record: RecordView| record_locale(record).unwrap(),
    ));
    Some(rows)
}

/// Writes a table as a document.
pub fn encode_table(table: &LocaleTable) -> (document: Document)
    ensures
        document.deep_view() == table_document(table@),
{
    let mut records: Vec<Record> = Vec::new();
    let mut i: usize = 0;
    while i < table.locale_list.len()
        invariant
            i <= table.locale_list.len(),
            records.len() == i,
            forall|j: int|
                0 <= j < i ==> (#[trigger] records[j]).deep_view() == locale_record(
                    table.locale_list[j]@,
                ),
        decreases table.locale_list.len() - i,
    {
        records.push(encode_locale(&table.locale_list[i]));
        i += 1;
    }
    assert(records.deep_view() =~= table@.map_values(|row: LocaleView| locale_record(row)));
    let mut document: Document = Vec::new();
    document.push((String::from_str("locale_list"), records));
    assert(document.deep_view() =~= table_document(table@));
    document
}

/// Reads a table from a document.  The document must hold a `locale_list`
/// member whose records all stand for locales; other members are ignored.
pub fn decode_table(document: &Document) -> (table: Option<LocaleTable>)
    ensures
        match table {
            Some(t) => document_table(document.deep_view()) == Some(t@),
            None => document_table(document.deep_view()) is None,
        },
{
    match list_index(document, &String::from_str("locale_list")) {
        Some(i) => match decode_locales(&document[i].1) {
            Some(rows) => Some(LocaleTable { locale_list: rows }),
            None => None,
        },
        None => None,
    }
}

/// A table that was written as a document is read back unchanged.
pub proof fn law_table_document_round_trip(rows: Seq<LocaleView>)
    ensures
        document_table(table_document(rows)) == Some(rows),
{
    let records = rows.map_values(|row: LocaleView| locale_record(row));
    assert forall|i: int| 0 <= i < records.len() implies record_locale(#[trigger] records[i])
        == Some(rows[i]) by {
        law_locale_record_round_trip(rows[i]);
    }
    assert(records.map_values(|record: RecordView| record_locale(record).unwrap()) =~= rows);
}

} // verus!
