use dbmirror::rows::{extract_values, transfer_rows, SourceRow};
use dbmirror::text::decode_table_names;

fn s(x: &str) -> String {
    x.to_string()
}

fn row(pairs: Vec<(&str, Option<&str>)>) -> SourceRow {
    SourceRow {
        entries: pairs
            .into_iter()
            .map(|(n, v)| (n.to_string(), v.map(|x| x.to_string())))
            .collect(),
    }
}

#[test]
fn get_by_name() {
    let r = row(vec![("id", Some("1")), ("name", Some("a")), ("note", None)]);
    assert_eq!(r.get(&s("id")), Some(s("1")));
    assert_eq!(r.get(&s("name")), Some(s("a")));
    assert_eq!(r.get(&s("note")), None);
    assert_eq!(r.get(&s("missing")), None);
}

#[test]
fn duplicate_source_column_first_value_wins() {
    let r = row(vec![("id", Some("1")), ("id", Some("2"))]);
    assert_eq!(r.get(&s("id")), Some(s("1")));
}

#[test]
fn extract_reordered_columns() {
    let r = row(vec![("id", Some("1")), ("name", Some("a"))]);
    let cols = vec![s("name"), s("id")];
    assert_eq!(extract_values(&r, &cols), vec![Some(s("a")), Some(s("1"))]);
}

#[test]
fn extract_missing_column_binds_null() {
    let r = row(vec![("id", Some("1"))]);
    let cols = vec![s("id"), s("extra_col")];
    assert_eq!(extract_values(&r, &cols), vec![Some(s("1")), None]);
}

#[test]
fn transfer_keeps_fetch_order() {
    let rows = vec![
        row(vec![("id", Some("1")), ("name", Some("a"))]),
        row(vec![("id", Some("2")), ("name", Some("b"))]),
    ];
    let cols = vec![s("name"), s("id")];
    let out = transfer_rows(&rows, &cols);
    assert_eq!(
        out,
        vec![
            vec![Some(s("a")), Some(s("1"))],
            vec![Some(s("b")), Some(s("2"))],
        ]
    );
}

#[test]
fn decode_names_ascii() {
    let raws = vec![b"users".to_vec(), b"orders".to_vec()];
    assert_eq!(decode_table_names(&raws), Some(vec![s("users"), s("orders")]));
}

#[test]
fn decode_names_multibyte() {
    let raws = vec![vec![0x63, 0x61, 0x66, 0xC3, 0xA9]];
    assert_eq!(decode_table_names(&raws), Some(vec![s("caf\u{e9}")]));
}

#[test]
fn decode_names_invalid_utf8() {
    let raws = vec![b"users".to_vec(), vec![0xFF, 0xFE]];
    assert_eq!(decode_table_names(&raws), None);
}
