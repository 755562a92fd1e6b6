use quickpg::config::{KeyVal, PostgresqlConf, Value};

#[test]
fn value_texts() {
    assert_eq!(Value::Int(100).to_text(), "100");
    assert_eq!(Value::Int(0).to_text(), "0");
    assert_eq!(Value::Str("posix".to_string()).to_text(), "'posix'");
    assert_eq!(Value::Byte(128_000_000).to_text(), "128MB");
    assert_eq!(Value::Byte(80_000_000).to_text(), "80MB");
    assert_eq!(Value::Byte(512).to_text(), "512B");
}

#[test]
fn byte_size_at_unit_boundary_stays_in_smaller_unit() {
    assert_eq!(Value::Byte(1_000_000_000).to_text(), "1000MB");
    assert_eq!(Value::Byte(2_000_000_000).to_text(), "2GB");
}

#[test]
fn key_val_line() {
    assert_eq!(KeyVal::number("port", 5432).to_text(), "port = 5432");
    assert_eq!(KeyVal::str("fsync", "off").to_text(), "fsync = 'off'");
    assert_eq!(KeyVal::byte("shared_buffers", 128_000_000).to_text(), "shared_buffers = 128MB");
}

#[test]
fn default_configuration_lines() {
    let conf = PostgresqlConf::default(15432);
    assert_eq!(conf.port, 15432);
    let lines = conf.to_config().to_strings();
    let expected = vec![
        "listen_addresses = '*'",
        "port = 15432",
        "max_connections = 100",
        "shared_buffers = 128MB",
        "dynamic_shared_memory_type = 'posix'",
        "max_wal_size = 1000MB",
        "min_wal_size = 80MB",
        "log_timezone = 'America/Toronto'",
        "datestyle = 'iso, mdy'",
        "timezone = 'America/Toronto'",
        "lc_messages = 'en_US.UTF-8'",
        "lc_monetary = 'en_US.UTF-8'",
        "lc_numeric = 'en_US.UTF-8'",
        "lc_time = 'en_US.UTF-8'",
        "default_text_search_config = 'pg_catalog.english'",
        "fsync = 'off'",
        "full_page_writes = 'off'",
        "synchronous_commit = 'off'",
        "wal_level = 'minimal'",
        "max_wal_senders = 0",
    ];
    assert_eq!(lines, expected);
}

#[test]
fn configuration_file_text() {
    let conf = PostgresqlConf::default(5000);
    let text = conf.file_text();
    assert!(text.starts_with("listen_addresses = '*'\nport = 5000\n"));
    assert!(text.ends_with("wal_level = 'minimal'\nmax_wal_senders = 0\n"));
    assert_eq!(text.lines().count(), 20);
    assert_eq!(text, conf.to_config().to_text());
}

#[test]
fn configuration_row_values() {
    let conf = PostgresqlConf::default(15432);
    let rows = conf.to_config().rows;
    assert!(matches!(rows[1].val, Value::Int(15432)));
    assert!(matches!(rows[2].val, Value::Int(100)));
    assert!(matches!(rows[3].val, Value::Byte(128_000_000)));
    assert!(matches!(rows[19].val, Value::Int(0)));
    assert!(matches!(&rows[8].val, Value::Str(s) if s == "iso, mdy"));
}
