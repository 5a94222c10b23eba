use home_client::shapes::{
    decode_locale, decode_locales, decode_table, encode_locale, encode_table, member_value,
};
use home_client::store::{Locale, LocaleTable};

fn record(members: &[(&str, &str)]) -> Vec<(String, String)> {
    members.iter().map(|(key, value)| (key.to_string(), value.to_string())).collect()
}

fn names_and_statuses(rows: &[Locale]) -> Vec<(String, String)> {
    rows.iter().map(|row| (row.locate.clone(), row.status.clone())).collect()
}

#[test]
fn member_value_takes_the_first_member_of_the_name() {
    let members = record(&[("a", "1"), ("b", "2"), ("a", "3")]);
    assert_eq!(member_value(&members, &"a".to_string()), Some("1".to_string()));
    assert_eq!(member_value(&members, &"b".to_string()), Some("2".to_string()));
    assert_eq!(member_value(&members, &"c".to_string()), None);
    assert_eq!(member_value(&record(&[]), &"a".to_string()), None);
}

#[test]
fn encode_locale_names_both_members() {
    let locale = Locale { locate: "kitchen".to_string(), status: "on".to_string() };
    assert_eq!(encode_locale(&locale), record(&[("locate", "kitchen"), ("status", "on")]));
}

#[test]
fn decode_locale_ignores_other_members() {
    let locale = decode_locale(&record(&[("command", "set"), ("status", "off"), ("locate", "den")]))
        .unwrap();
    assert_eq!(locale.locate, "den");
    assert_eq!(locale.status, "off");
}

#[test]
fn decode_locale_wants_locate_and_status() {
    assert!(decode_locale(&record(&[])).is_none());
    assert!(decode_locale(&record(&[("locate", "den")])).is_none());
    assert!(decode_locale(&record(&[("status", "on")])).is_none());
    assert!(decode_locale(&record(&[("Locate", "den"), ("status", "on")])).is_none());
}

#[test]
fn encoded_locale_decodes_to_itself() {
    let locale = Locale { locate: "s\u{e3}o".to_string(), status: "deu ruim".to_string() };
    let back = decode_locale(&encode_locale(&locale)).unwrap();
    assert_eq!(back.locate, locale.locate);
    assert_eq!(back.status, locale.status);
}

#[test]
fn decode_locales_fails_on_one_bad_record() {
    let good = vec![record(&[("locate", "a"), ("status", "on")]), record(&[("locate", "b"), ("status", "x")])];
    let rows = decode_locales(&good).unwrap();
    assert_eq!(names_and_statuses(&rows), record(&[("a", "on"), ("b", "x")]));
    let bad = vec![record(&[("locate", "a"), ("status", "on")]), record(&[("locate", "b")])];
    assert!(decode_locales(&bad).is_none());
    assert_eq!(decode_locales(&vec![]).map(|rows| rows.len()), Some(0));
}

#[test]
fn encode_table_puts_the_rows_under_locale_list() {
    let table = LocaleTable {
        locale_list: vec![
            Locale { locate: "kitchen".to_string(), status: "on".to_string() },
            Locale { locate: "den".to_string(), status: "off".to_string() },
        ],
    };
    let document = encode_table(&table);
    assert_eq!(document.len(), 1);
    assert_eq!(document[0].0, "locale_list");
    assert_eq!(
        document[0].1,
        vec![
            record(&[("locate", "kitchen"), ("status", "on")]),
            record(&[("locate", "den"), ("status", "off")]),
        ]
    );
}

#[test]
fn decode_table_takes_the_first_locale_list() {
    let document = vec![
        ("extra".to_string(), vec![record(&[("x", "y")])]),
        ("locale_list".to_string(), vec![record(&[("locate", "den"), ("status", "on")])]),
        ("locale_list".to_string(), vec![]),
    ];
    let table = decode_table(&document).unwrap();
    assert_eq!(names_and_statuses(&table.locale_list), record(&[("den", "on")]));
}

#[test]
fn decode_table_wants_locale_list() {
    assert!(decode_table(&vec![]).is_none());
    assert!(decode_table(&vec![("locales".to_string(), vec![])]).is_none());
    let broken = vec![("locale_list".to_string(), vec![record(&[("locate", "den")])])];
    assert!(decode_table(&broken).is_none());
}

#[test]
fn encoded_table_decodes_to_itself() {
    let table = LocaleTable {
        locale_list: vec![
            Locale { locate: "kitchen".to_string(), status: "on".to_string() },
            Locale { locate: "kitchen".to_string(), status: "".to_string() },
        ],
    };
    let back = decode_table(&encode_table(&table)).unwrap();
    assert_eq!(names_and_statuses(&back.locale_list), names_and_statuses(&table.locale_list));
}
