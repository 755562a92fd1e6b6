//! What the request layer reports: instance records and error replies.

use vstd::prelude::*;
use vstd::string::*;

use crate::pg_ctl::{error_text, Error, ErrorView, Status};

verus! {

#[derive(Debug, Clone, Copy, PartialEq, Eq, Structural)]
pub enum InstanceState {
    Stopped,
    Running,
}

#[derive(Debug)]
pub struct ProcessInfo {
    pub pid: u32,
}

/// How a client reaches an instance's database.
#[derive(Debug)]
pub struct ConnectionInfo {
    pub user: String,
    pub host: String,
    pub port: u32,
    pub dbname: String,
}

/// An instance as the request layer reports it.
#[derive(Debug)]
pub struct Instance {
    pub id: String,
    pub state: InstanceState,
    pub conn_info: ConnectionInfo,
    pub proc_info: Option<ProcessInfo>,
}

impl Instance {
    /// The record of the instance with status `status`, reached as `user`
    /// on the local host.
    pub fn new(user: &str, status: Status) -> (r: Instance)
        ensures
            r.id@ == status.id@,
            r.state == (if status.pid is Some {
                InstanceState::Running
            } else {
                InstanceState::Stopped
            }),
            r.conn_info.user@ == user@,
            r.conn_info.host@ == "127.0.0.1"@,
            r.conn_info.port == status.port,
            r.conn_info.dbname@ == status.dbname@,
            status.pid is Some ==> r.proc_info is Some && r.proc_info->0.pid == status.pid->0,
            status.pid is None ==> r.proc_info is None,
    {
        let state = match status.pid {
            Some(_) => InstanceState::Running,
            None => InstanceState::Stopped,
        };
        let proc_info = match status.pid {
            Some(pid) => Some(ProcessInfo { pid }),
            None => None,
        };
        Instance {
            id: status.id,
            state,
            conn_info: ConnectionInfo {
                user: String::from_str(user),
                host: String::from_str("127.0.0.1"),
                port: status.port,
                dbname: status.dbname,
            },
            proc_info,
        }
    }
}

/// The errors that the request layer replies with.
#[derive(Debug)]
pub enum ApiError {
    PgCtl(Error),
    /// No instance has this id.
    NotFound(String),
    /// The server of the instance with this id did not come up.
    FailedToStart(String),
    /// The template with this id is running.
    TemplateStillRunning(String),
}

impl ApiError {
    /// The HTTP status of the reply.
    pub fn status_code(&self) -> (r: u16)
        ensures
            r == match self {
                ApiError::NotFound(_) => 404u16,
                ApiError::TemplateStillRunning(_) => 400u16,
                ApiError::PgCtl(Error::TemplateStillRunning(_)) => 400u16,
                _ => 500u16,
            },
    {
        match self {
            ApiError::PgCtl(Error::TemplateStillRunning(_)) => 400,
            ApiError::PgCtl(_) => 500,
            ApiError::NotFound(_) => 404,
            ApiError::FailedToStart(_) => 500,
            ApiError::TemplateStillRunning(_) => 400,
        }
    }

    /// The text of the reply.
    pub fn message(&self) -> (r: String)
        ensures
            r@ == match self {
                ApiError::PgCtl(e) => "pg_ctl: "@ + error_text(e@),
                ApiError::NotFound(id) => "Not found: "@ + id@,
                ApiError::FailedToStart(id) => "Instance "@ + id@ + " failed to start"@,
                ApiError::TemplateStillRunning(id) => "Instance "@ + id@ + " is still running"@,
            },
    {
        match self {
            ApiError::PgCtl(e) => {
                let mut out = String::from_str("pg_ctl: ");
                let m = e.message();
                out.append(m.as_str());
                out
            },
            ApiError::NotFound(id) => {
                let mut out = String::from_str("Not found: ");
                out.append(id.as_str());
                out
            },
            ApiError::FailedToStart(id) => {
                let mut out = String::from_str("Instance ");
                out.append(id.as_str());
                out.append(" failed to start");
                out
            },
            ApiError::TemplateStillRunning(id) => {
                let mut out = String::from_str("Instance ");
                out.append(id.as_str());
                out.append(" is still running");
                out
            },
        }
    }
}

/// The record of an instance whose server was just asked to start, from
/// the status read back afterwards: an error unless the server runs.
pub fn started(user: &str, status: Status) -> (r: Result<Instance, ApiError>)
    ensures
        status.pid is None ==> (r matches Err(ApiError::FailedToStart(id)) && id@ == status.id@),
        status.pid is Some ==> (r matches Ok(inst) && inst.id@ == status.id@ && inst.state
            == InstanceState::Running && inst.conn_info.user@ == user@ && inst.conn_info.port
            == status.port && inst.conn_info.dbname@ == status.dbname@ && inst.proc_info
            == Some(ProcessInfo { pid: status.pid->0 })),
{
    if !status.is_running() {
        return Err(ApiError::FailedToStart(status.id));
    }
    Ok(Instance::new(user, status))
}

/// Fails with [`ApiError::NotFound`] unless instance `id` exists.
pub fn require_exists(id: &str, exists: bool) -> (r: Result<(), ApiError>)
    ensures
        exists ==> r is Ok,
        !exists ==> (r matches Err(ApiError::NotFound(i)) && i@ == id@),
{
    if exists {
        Ok(())
    } else {
        Err(ApiError::NotFound(String::from_str(id)))
    }
}

} // verus!
