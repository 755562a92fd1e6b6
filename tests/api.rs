use quickpg::api::{require_exists, started, ApiError, Instance, InstanceState};
use quickpg::pg_ctl::{Error, Status};

fn status(pid: Option<u32>) -> Status {
    Status { id: "abc".to_string(), dbname: "demo".to_string(), port: 6000, pid }
}

#[test]
fn instance_record_of_running_status() {
    let inst = Instance::new("alice", status(Some(77)));
    assert_eq!(inst.id, "abc");
    assert_eq!(inst.state, InstanceState::Running);
    assert_eq!(inst.conn_info.user, "alice");
    assert_eq!(inst.conn_info.host, "127.0.0.1");
    assert_eq!(inst.conn_info.port, 6000);
    assert_eq!(inst.conn_info.dbname, "demo");
    assert_eq!(inst.proc_info.unwrap().pid, 77);
}

#[test]
fn instance_record_of_stopped_status() {
    let inst = Instance::new("alice", status(None));
    assert_eq!(inst.state, InstanceState::Stopped);
    assert!(inst.proc_info.is_none());
}

#[test]
fn started_requires_a_running_server() {
    match started("alice", status(None)) {
        Err(ApiError::FailedToStart(id)) => assert_eq!(id, "abc"),
        other => panic!("{:?}", other),
    }
    let inst = started("alice", status(Some(5))).unwrap();
    assert_eq!(inst.state, InstanceState::Running);
}

#[test]
fn api_error_replies() {
    let e = ApiError::NotFound("x1".to_string());
    assert_eq!((e.status_code(), e.message()), (404, "Not found: x1".to_string()));
    let e = ApiError::FailedToStart("x1".to_string());
    assert_eq!((e.status_code(), e.message()), (500, "Instance x1 failed to start".to_string()));
    let e = ApiError::TemplateStillRunning("x1".to_string());
    assert_eq!((e.status_code(), e.message()), (400, "Instance x1 is still running".to_string()));
    let e = ApiError::PgCtl(Error::Io("disk".to_string()));
    assert_eq!((e.status_code(), e.message()), (500, "pg_ctl: i/o error: disk".to_string()));
    let e = ApiError::PgCtl(Error::TemplateStillRunning("t".to_string()));
    assert_eq!(e.status_code(), 400);
}

#[test]
fn require_existing_instance() {
    assert!(require_exists("a", true).is_ok());
    assert!(matches!(require_exists("a", false), Err(ApiError::NotFound(id)) if id == "a"));
}
