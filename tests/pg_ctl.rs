use quickpg::config::PostgresqlConf;
use quickpg::metadata::Metadata;
use quickpg::paths::join_str;
use quickpg::lifecycle::{create_database, Step};
use quickpg::pg_ctl::{Error, InstanceFiles, PgCtl, Status};
use quickpg::reports::{parse_pid, parse_status_output};

fn ctl() -> PgCtl {
    PgCtl::new("alice", "")
}

fn meta(dbname: &str, port: u32) -> String {
    Metadata { dbname: dbname.to_string(), port }.to_json()
}

fn files(metadata: Option<String>, pidfile: Option<&str>) -> Option<InstanceFiles> {
    Some(InstanceFiles { metadata, pidfile: pidfile.map(|s| s.to_string()) })
}

fn run_args(step: &Step) -> Vec<String> {
    match step {
        Step::Run(args) => args.clone(),
        _ => panic!("not a run step"),
    }
}

#[test]
fn join_paths_like_std() {
    assert_eq!(join_str("", "data"), "data");
    assert_eq!(join_str("/srv", "data"), "/srv/data");
    assert_eq!(join_str("/srv/", "data"), "/srv/data");
    assert_eq!(join_str("/srv", "/abs"), "/abs");
    assert_eq!(join_str("/srv", ""), "/srv/");
}

#[test]
fn layout_under_root() {
    let c = PgCtl::new("bob", "/var/quickpg");
    assert_eq!(c.user, "bob");
    assert_eq!(c.binary, "/var/quickpg/bin/pg_ctl");
    assert_eq!(c.logs, "/var/quickpg/logs");
    assert_eq!(c.data, "/var/quickpg/data");
    assert_eq!(c.sockets, "/var/quickpg/sockets");
    assert_eq!(c.data_dir("t1"), "/var/quickpg/data/t1");
    assert_eq!(c.log_file("t1"), "/var/quickpg/logs/t1.log");
    assert_eq!(c.metadata_file("t1"), "/var/quickpg/data/t1/quickpg.json");
    assert_eq!(c.config_file("t1"), "/var/quickpg/data/t1/postgresql.conf");
    assert_eq!(c.pidfile("t1"), "/var/quickpg/data/t1/postmaster.pid");
}

#[test]
fn layout_under_empty_root() {
    let c = ctl();
    assert_eq!(c.binary, "bin/pg_ctl");
    assert_eq!(c.data_dir("x"), "data/x");
    assert_eq!(c.socket_dir("/home/a"), "/home/a/sockets");
}

#[test]
fn control_program_arguments() {
    let c = ctl();
    assert_eq!(c.init_args("t1"), vec!["--pgdata", "data/t1", "-o--no-sync", "init"]);
    assert_eq!(
        c.start_args("t1", "/work"),
        vec!["--pgdata", "data/t1", "--log", "logs/t1.log", "--options", "-k/work/sockets", "start"]
    );
    assert_eq!(c.stop_args("t1", true), vec!["--pgdata", "data/t1", "stop"]);
    assert_eq!(c.stop_args("t1", false), vec!["--pgdata", "data/t1", "--no-wait", "stop"]);
    assert_eq!(run_args(&c.start("t1", "/work")[0]), c.start_args("t1", "/work"));
    assert_eq!(run_args(&c.stop("t1", false)[0]), c.stop_args("t1", false));
}

#[test]
fn check_output_reports_stderr() {
    assert!(PgCtl::check_output(true, "ignored".to_string()).is_ok());
    match PgCtl::check_output(false, "boom".to_string()) {
        Err(Error::CliError(s)) => assert_eq!(s, "boom"),
        other => panic!("{:?}", other),
    }
}

#[test]
fn pid_from_marker_file() {
    assert_eq!(parse_pid("4242\n/var/data\n1700000000\n"), Some(4242));
    assert_eq!(parse_pid("+17\n"), Some(17));
    assert_eq!(parse_pid("007\n"), Some(7));
    assert_eq!(parse_pid("4242"), None);
    assert_eq!(parse_pid("\n"), None);
    assert_eq!(parse_pid("abc\n"), None);
    assert_eq!(parse_pid("-1\n"), None);
    assert_eq!(parse_pid("4294967296\n"), None);
    assert_eq!(parse_pid("4294967295\n"), Some(4294967295));
}

#[test]
fn status_of_missing_instance_is_not_found() {
    match ctl().status("ghost", &None) {
        Err(Error::DataDirNotFound(p)) => assert_eq!(p, "data/ghost"),
        other => panic!("{:?}", other),
    }
}

#[test]
fn status_running_then_stopped() {
    let c = ctl();
    let running: Status = c.status("t1", &files(Some(meta("demo", 5555)), Some("321\n/data\n"))).unwrap();
    assert!(running.is_running());
    assert_eq!(running.id, "t1");
    assert_eq!(running.dbname, "demo");
    assert_eq!(running.port, 5555);
    assert_eq!(running.pid, Some(321));
    let stopped = c.status("t1", &files(Some(meta("demo", 5555)), None)).unwrap();
    assert!(!stopped.is_running());
    assert_eq!(stopped.pid, None);
    assert_eq!(stopped.port, 5555);
}

#[test]
fn status_errors() {
    let c = ctl();
    match c.status("t1", &files(None, None)) {
        Err(Error::MetadataNotFound(p)) => assert_eq!(p, "data/t1/quickpg.json"),
        other => panic!("{:?}", other),
    }
    match c.status("t1", &files(Some("{".to_string()), None)) {
        Err(Error::InvalidMetadata(p)) => assert_eq!(p, "data/t1/quickpg.json"),
        other => panic!("{:?}", other),
    }
    match c.status("t1", &files(Some(meta("demo", 1)), Some("nope\n"))) {
        Err(Error::InvalidPidFile(p)) => assert_eq!(p, "data/t1/postmaster.pid"),
        other => panic!("{:?}", other),
    }
}

#[test]
fn list_three_instances() {
    let c = ctl();
    let entries = vec![
        ("b".to_string(), InstanceFiles { metadata: Some(meta("db_b", 6002)), pidfile: None }),
        ("a".to_string(), InstanceFiles { metadata: Some(meta("db_a", 6001)), pidfile: Some("11\n".to_string()) }),
        ("c".to_string(), InstanceFiles { metadata: Some(meta("db_c", 6003)), pidfile: None }),
    ];
    let list = c.list(&entries).unwrap();
    assert_eq!(list.len(), 3);
    let mut seen: Vec<(String, u32)> = list.iter().map(|s| (s.id.clone(), s.port)).collect();
    seen.sort();
    assert_eq!(
        seen,
        vec![("a".to_string(), 6001), ("b".to_string(), 6002), ("c".to_string(), 6003)]
    );
    assert_eq!(list[1].pid, Some(11));
}

#[test]
fn list_fails_on_first_bad_instance() {
    let c = ctl();
    let entries = vec![
        ("a".to_string(), InstanceFiles { metadata: Some(meta("db_a", 6001)), pidfile: None }),
        ("b".to_string(), InstanceFiles { metadata: None, pidfile: None }),
        ("c".to_string(), InstanceFiles { metadata: Some("x".to_string()), pidfile: None }),
    ];
    match c.list(&entries) {
        Err(Error::MetadataNotFound(p)) => assert_eq!(p, "data/b/quickpg.json"),
        other => panic!("{:?}", other),
    }
    assert_eq!(c.list(&Vec::new()).unwrap().len(), 0);
}

#[test]
fn init_plan() {
    let c = ctl();
    let conf = PostgresqlConf::default(7001);
    let steps = c.init("t1", "demo", &conf, "/work");
    assert_eq!(steps.len(), 5);
    assert_eq!(run_args(&steps[0]), c.init_args("t1"));
    match &steps[1] {
        Step::WriteFile { path, content } => {
            assert_eq!(path, "data/t1/postgresql.conf");
            assert_eq!(content, &conf.file_text());
        }
        _ => panic!("config step"),
    }
    match &steps[2] {
        Step::WriteFile { path, content } => {
            assert_eq!(path, "data/t1/quickpg.json");
            assert_eq!(content, "{\"dbname\":\"demo\",\"port\":7001}");
        }
        _ => panic!("metadata step"),
    }
    assert_eq!(run_args(&steps[3]), c.start_args("t1", "/work"));
    match &steps[4] {
        Step::CreateDatabase { port, user, statement } => {
            assert_eq!(*port, 7001);
            assert_eq!(user, "alice");
            assert_eq!(statement, "CREATE DATABASE demo OWNER alice");
        }
        _ => panic!("database step"),
    }
}

#[test]
fn create_database_statement() {
    assert_eq!(create_database("demo", "bob"), "CREATE DATABASE demo OWNER bob");
}

#[test]
fn fork_from_running_template_fails() {
    let c = ctl();
    let template = c.status("t1", &files(Some(meta("demo", 7001)), Some("99\n"))).unwrap();
    let conf = PostgresqlConf::default(7002);
    match c.fork("t1", "t2", "demo", &conf, "/w", Ok(template)) {
        Err(Error::TemplateStillRunning(id)) => assert_eq!(id, "t1"),
        other => panic!("{:?}", other.map(|s| s.len())),
    }
}

#[test]
fn fork_from_stopped_template() {
    let c = ctl();
    let template = c.status("t1", &files(Some(meta("demo", 7001)), None)).unwrap();
    let conf = PostgresqlConf::default(7002);
    let steps = c.fork("t1", "t2", "demo", &conf, "/w", Ok(template)).unwrap();
    assert_eq!(steps.len(), 4);
    match &steps[0] {
        Step::Clone { source, destination } => {
            assert_eq!(source, "data/t1");
            assert_eq!(destination, "data/t2");
        }
        _ => panic!("clone step"),
    }
    match &steps[2] {
        Step::WriteFile { path, content } => {
            assert_eq!(path, "data/t2/quickpg.json");
            assert_eq!(content, "{\"dbname\":\"demo\",\"port\":7002}");
        }
        _ => panic!("metadata step"),
    }
    assert_eq!(run_args(&steps[3]), c.start_args("t2", "/w"));
}

#[test]
fn fork_from_missing_template() {
    let c = ctl();
    let conf = PostgresqlConf::default(7002);
    let template = c.status("t1", &None);
    match c.fork("t1", "t2", "demo", &conf, "/w", template) {
        Err(Error::DataDirNotFound(p)) => assert_eq!(p, "data/t1"),
        other => panic!("{:?}", other.map(|s| s.len())),
    }
}

#[test]
fn destroy_then_gone() {
    let c = ctl();
    let steps = c.destroy("t1", &files(Some(meta("demo", 1)), None)).unwrap();
    assert_eq!(steps.len(), 2);
    assert!(matches!(&steps[0], Step::RemoveDir(p) if p == "data/t1"));
    assert!(matches!(&steps[1], Step::RemoveFileIfExists(p) if p == "logs/t1.log"));
    assert!(matches!(c.status("t1", &None), Err(Error::DataDirNotFound(_))));
    assert!(matches!(c.destroy("t1", &None), Err(Error::DataDirNotFound(p)) if p == "data/t1"));
}

#[test]
fn destroy_running_stops_without_waiting() {
    let c = ctl();
    let steps = c.destroy("t1", &files(Some(meta("demo", 1)), Some("5\n"))).unwrap();
    assert_eq!(steps.len(), 3);
    assert_eq!(run_args(&steps[0]), c.stop_args("t1", false));
    assert!(matches!(&steps[1], Step::RemoveDir(p) if p == "data/t1"));
}

#[test]
fn error_messages() {
    assert_eq!(Error::CliError("bad".to_string()).message(), "control program failed: bad");
    assert_eq!(Error::DataDirNotFound("data/x".to_string()).message(), "data directory not found: data/x");
}

#[test]
fn status_report_of_control_program() {
    assert_eq!(parse_status_output("pg_ctl: no server running\n").unwrap(), None);
    assert_eq!(
        parse_status_output("pg_ctl: server is running (PID: 12345)\n/usr/bin/postgres \"-D\" \"data/t1\"\n")
            .unwrap(),
        Some(12345)
    );
    for bad in [
        "",
        "pg_ctl: server is running (PID: )\n",
        "pg_ctl: server is running (PID: 12a)\n",
        "pg_ctl: server is running (PID: 12345",
        "pg_ctl: server is running (PID: 99999999999)\n",
        "pg_ctl: directory \"data/x\" does not exist\n",
    ] {
        match parse_status_output(bad) {
            Err(Error::MalformedStatusOutput(s)) => assert_eq!(s, bad),
            other => panic!("{:?} gave {:?}", bad, other),
        }
    }
    assert_eq!(ctl().status_args("t1"), vec!["--pgdata", "data/t1", "status"]);
}

#[test]
fn list_independent_of_directory_order() {
    let c = ctl();
    let make = |order: &[&str]| -> Vec<(String, InstanceFiles)> {
        order
            .iter()
            .map(|id| {
                let port = 6000 + id.as_bytes()[0] as u32;
                (id.to_string(), InstanceFiles { metadata: Some(meta(id, port)), pidfile: None })
            })
            .collect()
    };
    let first = c.list(&make(&["a", "b", "c"])).unwrap();
    let second = c.list(&make(&["c", "a", "b"])).unwrap();
    let mut x: Vec<(String, u32)> = first.iter().map(|s| (s.id.clone(), s.port)).collect();
    let mut y: Vec<(String, u32)> = second.iter().map(|s| (s.id.clone(), s.port)).collect();
    x.sort();
    y.sort();
    assert_eq!(x, y);
    assert_eq!(x.len(), 3);
}
