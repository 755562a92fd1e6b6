use quickpg::metadata::Metadata;

fn record(dbname: &str, port: u32) -> Metadata {
    Metadata { dbname: dbname.to_string(), port }
}

#[test]
fn metadata_text_is_compact_json() {
    let text = record("demo", 5432).to_json();
    assert_eq!(text, "{\"dbname\":\"demo\",\"port\":5432}");
}

#[test]
fn metadata_round_trip_plain() {
    let text = record("demo", 5432).to_json();
    let back = Metadata::from_json(&text).unwrap();
    assert_eq!(back.dbname, "demo");
    assert_eq!(back.port, 5432);
}

#[test]
fn metadata_round_trip_escaped_name() {
    let name = "we\"ird\\name\n,\"port\":1}";
    let text = record(name, 7).to_json();
    let back = Metadata::from_json(&text).unwrap();
    assert_eq!(back.dbname, name);
    assert_eq!(back.port, 7);
}

#[test]
fn metadata_round_trip_extreme_ports() {
    for port in [0u32, 1, 9, 10, 65535, u32::MAX] {
        let text = record("", port).to_json();
        let back = Metadata::from_json(&text).unwrap();
        assert_eq!(back.dbname, "");
        assert_eq!(back.port, port);
    }
}

#[test]
fn metadata_round_trip_unicode_name() {
    let name = "données-✓";
    let back = Metadata::from_json(&record(name, 15432).to_json()).unwrap();
    assert_eq!(back.dbname, name);
    assert_eq!(back.port, 15432);
}

#[test]
fn metadata_reads_escaped_literal() {
    let back = Metadata::from_json("{\"dbname\":\"a\\u0041\",\"port\":12}").unwrap();
    assert_eq!(back.dbname, "aA");
    assert_eq!(back.port, 12);
}

#[test]
fn metadata_rejects_malformed_texts() {
    let bad = [
        "",
        "{}",
        "{\"dbname\":\"demo\",\"port\":5432",
        "{\"dbname\":\"demo\",\"port\":}",
        "{\"dbname\":\"demo\",\"port\":05432}",
        "{\"dbname\":\"demo\",\"port\":4294967296}",
        "{\"dbname\":\"demo\",\"port\":-1}",
        "{\"dbname\":demo,\"port\":5432}",
        "{\"name\":\"demo\",\"port\":5432}",
        "{\"dbname\":\"demo\",\"prt\":5432}",
        "{\"dbname\":\"de\"mo\",\"port\":5432}",
    ];
    for text in bad {
        assert!(Metadata::from_json(text).is_none(), "accepted {:?}", text);
    }
}

#[test]
fn metadata_text_escapes_like_json() {
    let text = record("a\"b\\c\n\t\u{1}\u{7f}é", 1).to_json();
    assert_eq!(text, "{\"dbname\":\"a\\\"b\\\\c\\n\\t\\u0001\u{7f}é\",\"port\":1}");
}
