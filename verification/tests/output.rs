use wmic_rs::cli::OutputFormat;
use wmic_rs::output::render;
use wmic_rs::{Record, Value};

fn record(pairs: &[(&str, Value)]) -> Record {
    let mut r = Record::new();
    for (name, value) in pairs {
        r.insert(name.to_string(), value.clone());
    }
    r
}

fn fixtures() -> Vec<Record> {
    vec![
        record(&[("Name", Value::String("alpha".into())), ("Pid", Value::Unsigned(7))]),
        record(&[("Name", Value::String("a,b\"c".into())), ("Pid", Value::Null)]),
    ]
}

#[test]
fn table_padding_and_wmic_line_endings_are_stable() {
    assert_eq!(
        render(&fixtures()[..1], &["Name".into(), "Pid".into()], &OutputFormat::Table, "NODE"),
        "Name   Pid  \r\r\nalpha  7    \r\r\n"
    );
}

#[test]
fn value_format_has_object_separators_and_empty_null() {
    assert_eq!(
        render(&fixtures()[1..], &["Name".into(), "Pid".into()], &OutputFormat::Value, "NODE"),
        "\r\r\nName=a,b\"c\r\r\nPid=\r\r\n\r\r\n"
    );
}

#[test]
fn csv_quotes_only_when_required() {
    assert_eq!(
        render(&fixtures(), &["Name".into()], &OutputFormat::Csv, "BOX"),
        "\r\r\nNode,Name\r\r\nBOX,alpha\r\r\nBOX,\"a,b\"\"c\"\r\r\n"
    );
}

#[test]
fn arrays_use_wmic_brace_separator_syntax() {
    assert_eq!(Value::Array(vec![Value::String("a".into()), Value::Unsigned(2)]).to_display_string(), "{a; 2}");
}

#[test]
fn empty_results_are_explicit() {
    assert_eq!(render(&[], &[], &OutputFormat::Table, "BOX"), "No Instance(s) Available.\r\r\n");
}

#[test]
fn custom_format_prints_as_a_table() {
    let requested = ["Name".to_string(), "Pid".to_string()];
    assert_eq!(
        render(&fixtures(), &requested, &OutputFormat::Custom("mof".into()), "BOX"),
        render(&fixtures(), &requested, &OutputFormat::Table, "BOX")
    );
}

#[test]
fn columns_follow_the_records_when_all_are_requested() {
    assert_eq!(
        render(&fixtures()[..1], &["*".into()], &OutputFormat::Csv, "BOX"),
        "\r\r\nNode,Name,Pid\r\r\nBOX,alpha,7\r\r\n"
    );
}

#[test]
fn requested_columns_take_the_records_spelling() {
    assert_eq!(
        render(&fixtures()[..1], &["name".into()], &OutputFormat::Value, "BOX"),
        "\r\r\nName=alpha\r\r\n\r\r\n"
    );
}

#[test]
fn value_texts() {
    assert_eq!(Value::Null.to_display_string(), "");
    assert_eq!(Value::Bool(true).to_display_string(), "TRUE");
    assert_eq!(Value::Bool(false).to_display_string(), "FALSE");
    assert_eq!(Value::Signed(-42).to_display_string(), "-42");
    assert_eq!(Value::Signed(i64::MIN).to_display_string(), "-9223372036854775808");
    assert_eq!(Value::Unsigned(u64::MAX).to_display_string(), "18446744073709551615");
    assert_eq!(Value::Float("1.5".into()).to_display_string(), "1.5");
    assert_eq!(Value::Object("obj".into()).to_display_string(), "obj");
    assert_eq!(Value::Array(vec![]).to_display_string(), "{}");
}

#[test]
fn raw_xml_and_html_escape_markup() {
    let records = vec![record(&[("Name", Value::String("<a&b>".into()))])];
    let requested = ["Name".to_string()];
    let xml = render(&records, &requested, &OutputFormat::RawXml, "BOX");
    assert!(xml.contains("&lt;a&amp;b&gt;"));
    assert!(!xml.contains("<a&b>"));
    let html = render(&records, &requested, &OutputFormat::HTable, "BOX");
    assert!(html.contains("&lt;a&amp;b&gt;"));
    assert!(html.starts_with("<HTML>"));
}

#[test]
fn record_keeps_names_ordered_and_unique() {
    let mut r = Record::new();
    r.insert("b".into(), Value::Unsigned(1));
    r.insert("a".into(), Value::Unsigned(2));
    r.insert("b".into(), Value::Unsigned(3));
    assert_eq!(r.len(), 2);
    assert_eq!(r.name_at(0), "a");
    assert_eq!(r.name_at(1), "b");
    assert_eq!(r.get("b"), Some(&Value::Unsigned(3)));
    assert_eq!(r.get("c"), None);
}
