//! The instance manager: where each instance lives on disk, what can go
//! wrong, and how an instance's status is read back from its files.

use vstd::prelude::*;
use vstd::string::*;

use crate::metadata::{metadata_text, record_fields, Metadata};
use crate::paths::{join_path, join_str};
use crate::reports::{parse_pid, pid_of};

verus! {

/// What can go wrong with an operation on an instance.
#[derive(Debug)]
pub enum Error {
    /// The file system or a process spawn failed.
    Io(String),
    /// Creating the logical database inside a running server failed.
    Postgres(String),
    /// The control program exited unsuccessfully; holds what it wrote to
    /// standard error.
    CliError(String),
    /// The marker file of a running server does not name a process (its path).
    InvalidPidFile(String),
    /// The instance's data directory does not exist (its path).
    DataDirNotFound(String),
    /// The data directory exists but holds no metadata yet (its path).
    MetadataNotFound(String),
    /// The metadata file holds no record (its path).
    InvalidMetadata(String),
    /// A fork was asked of a template that is running (its id).
    TemplateStillRunning(String),
    /// Cloning a data directory failed.
    CloneFailed(String),
    /// The control program's status report says neither stopped nor
    /// running (the report).
    MalformedStatusOutput(String),
}

/// An [`Error`] with its text as a sequence of characters.
pub enum ErrorView {
    Io(Seq<char>),
    Postgres(Seq<char>),
    CliError(Seq<char>),
    InvalidPidFile(Seq<char>),
    DataDirNotFound(Seq<char>),
    MetadataNotFound(Seq<char>),
    InvalidMetadata(Seq<char>),
    TemplateStillRunning(Seq<char>),
    CloneFailed(Seq<char>),
    MalformedStatusOutput(Seq<char>),
}

impl View for Error {
    type V = ErrorView;

    open spec fn view(&self) -> ErrorView {
        match self {
            Error::Io(s) => ErrorView::Io(s@),
            Error::Postgres(s) => ErrorView::Postgres(s@),
            Error::CliError(s) => ErrorView::CliError(s@),
            Error::InvalidPidFile(s) => ErrorView::InvalidPidFile(s@),
            Error::DataDirNotFound(s) => ErrorView::DataDirNotFound(s@),
            Error::MetadataNotFound(s) => ErrorView::MetadataNotFound(s@),
            Error::InvalidMetadata(s) => ErrorView::InvalidMetadata(s@),
            Error::TemplateStillRunning(s) => ErrorView::TemplateStillRunning(s@),
            Error::CloneFailed(s) => ErrorView::CloneFailed(s@),
            Error::MalformedStatusOutput(s) => ErrorView::MalformedStatusOutput(s@),
        }
    }
}

/// The words that tell what kind of error a text is about.
pub open spec fn error_text(e: ErrorView) -> Seq<char> {
    match e {
        ErrorView::Io(s) => "i/o error: "@ + s,
        ErrorView::Postgres(s) => "database creation failed: "@ + s,
        ErrorView::CliError(s) => "control program failed: "@ + s,
        ErrorView::InvalidPidFile(s) => "malformed pid file: "@ + s,
        ErrorView::DataDirNotFound(s) => "data directory not found: "@ + s,
        ErrorView::MetadataNotFound(s) => "instance not yet initialized: "@ + s,
        ErrorView::InvalidMetadata(s) => "malformed metadata: "@ + s,
        ErrorView::TemplateStillRunning(s) => "template still running: "@ + s,
        ErrorView::CloneFailed(s) => "clone failed: "@ + s,
        ErrorView::MalformedStatusOutput(s) => "malformed status report: "@ + s,
    }
}

fn prefixed(prefix: &str, s: &String) -> (r: String)
    ensures
        r@ == prefix@ + s@,
{
    let mut out = String::from_str(prefix);
    out.append(s.as_str());
    out
}

impl Error {
    /// A description of the error, with the detail it carries.
    pub fn message(&self) -> (r: String)
        ensures
            r@ == error_text(self@),
    {
        match self {
            Error::Io(s) => prefixed("i/o error: ", s),
            Error::Postgres(s) => prefixed("database creation failed: ", s),
            Error::CliError(s) => prefixed("control program failed: ", s),
            Error::InvalidPidFile(s) => prefixed("malformed pid file: ", s),
            Error::DataDirNotFound(s) => prefixed("data directory not found: ", s),
            Error::MetadataNotFound(s) => prefixed("instance not yet initialized: ", s),
            Error::InvalidMetadata(s) => prefixed("malformed metadata: ", s),
            Error::TemplateStillRunning(s) => prefixed("template still running: ", s),
            Error::CloneFailed(s) => prefixed("clone failed: ", s),
            Error::MalformedStatusOutput(s) => prefixed("malformed status report: ", s),
        }
    }
}

/// The state of one instance: stopped when `pid` is `None`.
#[derive(Debug)]
pub struct Status {
    pub id: String,
    pub dbname: String,
    pub port: u32,
    pub pid: Option<u32>,
}

pub struct StatusView {
    pub id: Seq<char>,
    pub dbname: Seq<char>,
    pub port: u32,
    pub pid: Option<u32>,
}

impl View for Status {
    type V = StatusView;

    open spec fn view(&self) -> StatusView {
        StatusView { id: self.id@, dbname: self.dbname@, port: self.port, pid: self.pid }
    }
}

/// The view of an outcome that yields a value with a view.
pub open spec fn outcome<T: View>(r: Result<T, Error>) -> Result<T::V, ErrorView> {
    match r {
        Ok(v) => Ok(v@),
        Err(e) => Err(e@),
    }
}

impl Status {
    pub fn is_running(&self) -> (r: bool)
        ensures
            r == self.pid is Some,
    {
        self.pid.is_some()
    }

    fn running(id: String, dbname: String, port: u32, pid: u32) -> (r: Status)
        ensures
            r@ == (StatusView { id: id@, dbname: dbname@, port, pid: Some(pid) }),
    {
        Status { id, dbname, port, pid: Some(pid) }
    }

    fn stopped(id: String, dbname: String, port: u32) -> (r: Status)
        ensures
            r@ == (StatusView { id: id@, dbname: dbname@, port, pid: None }),
    {
        Status { id, dbname, port, pid: None }
    }
}

/// What the data root holds for one instance whose data directory exists.
pub struct InstanceFiles {
    /// The content of the metadata file; `None` when there is no such file.
    pub metadata: Option<String>,
    /// The content of the marker file of a running server; `None` when there
    /// is no such file.
    pub pidfile: Option<String>,
}

/// The manager of the instances under one root directory. It holds no state
/// of its own besides the layout: every question is answered from the disk.
#[derive(Debug)]
pub struct PgCtl {
    pub user: String,
    pub binary: String,
    pub logs: String,
    pub data: String,
    pub sockets: String,
}

impl PgCtl {
    /// The manager for the layout under `root`, acting as `user`.
    pub fn new(user: &str, root: &str) -> (r: PgCtl)
        ensures
            r.user@ == user@,
            r.binary@ == join_path(root@, "bin/pg_ctl"@),
            r.logs@ == join_path(root@, "logs"@),
            r.data@ == join_path(root@, "data"@),
            r.sockets@ == join_path(root@, "sockets"@),
    {
        PgCtl {
            user: String::from_str(user),
            binary: join_str(root, "bin/pg_ctl"),
            logs: join_str(root, "logs"),
            data: join_str(root, "data"),
            sockets: join_str(root, "sockets"),
        }
    }

    pub open spec fn data_dir_of(&self, id: Seq<char>) -> Seq<char> {
        join_path(self.data@, id)
    }

    pub open spec fn log_file_of(&self, id: Seq<char>) -> Seq<char> {
        join_path(self.logs@, id + ".log"@)
    }

    pub open spec fn metadata_file_of(&self, id: Seq<char>) -> Seq<char> {
        join_path(self.data_dir_of(id), "quickpg.json"@)
    }

    pub open spec fn config_file_of(&self, id: Seq<char>) -> Seq<char> {
        join_path(self.data_dir_of(id), "postgresql.conf"@)
    }

    pub open spec fn pidfile_of(&self, id: Seq<char>) -> Seq<char> {
        join_path(self.data_dir_of(id), "postmaster.pid"@)
    }

    /// The data directory of instance `id`.
    pub fn data_dir(&self, id: &str) -> (r: String)
        ensures
            r@ == self.data_dir_of(id@),
    {
        join_str(self.data.as_str(), id)
    }

    /// The log file of instance `id`.
    pub fn log_file(&self, id: &str) -> (r: String)
        ensures
            r@ == self.log_file_of(id@),
    {
        let mut name = String::from_str(id);
        name.append(".log");
        join_str(self.logs.as_str(), name.as_str())
    }

    /// The metadata file of instance `id`.
    pub fn metadata_file(&self, id: &str) -> (r: String)
        ensures
            r@ == self.metadata_file_of(id@),
    {
        let dir = self.data_dir(id);
        join_str(dir.as_str(), "quickpg.json")
    }

    /// The configuration file of instance `id`.
    pub fn config_file(&self, id: &str) -> (r: String)
        ensures
            r@ == self.config_file_of(id@),
    {
        let dir = self.data_dir(id);
        join_str(dir.as_str(), "postgresql.conf")
    }

    /// The marker file that a running server of instance `id` writes.
    pub fn pidfile(&self, id: &str) -> (r: String)
        ensures
            r@ == self.pidfile_of(id@),
    {
        let dir = self.data_dir(id);
        join_str(dir.as_str(), "postmaster.pid")
    }

    /// The socket directory as an absolute path, seen from the working
    /// directory `cwd`.
    pub fn socket_dir(&self, cwd: &str) -> (r: String)
        ensures
            r@ == join_path(cwd@, self.sockets@),
    {
        join_str(cwd, self.sockets.as_str())
    }
}

impl PgCtl {
    /// The status of instance `id`, given what its data directory holds
    /// (`None` when there is no such directory).
    pub open spec fn status_of(&self, id: Seq<char>, files: Option<InstanceFiles>) -> Result<
        StatusView,
        ErrorView,
    > {
        match files {
            None => Err(ErrorView::DataDirNotFound(self.data_dir_of(id))),
            Some(f) => match f.metadata {
                None => Err(ErrorView::MetadataNotFound(self.metadata_file_of(id))),
                Some(text) => match record_fields(text@) {
                    None => Err(ErrorView::InvalidMetadata(self.metadata_file_of(id))),
                    Some((dbname, port)) => match f.pidfile {
                        None => Ok(StatusView { id, dbname, port, pid: None }),
                        Some(content) => match pid_of(content@) {
                            Some(pid) => Ok(StatusView { id, dbname, port, pid: Some(pid) }),
                            None => Err(ErrorView::InvalidPidFile(self.pidfile_of(id))),
                        },
                    },
                },
            },
        }
    }

    /// The status of instance `id`, from what its data directory holds
    /// (`None` when there is no such directory). An instance without a data
    /// directory is never reported stopped.
    pub fn status(&self, id: &str, files: &Option<InstanceFiles>) -> (r: Result<Status, Error>)
        ensures
            outcome(r) == self.status_of(id@, *files),
            *files is None ==> r is Err && r->Err_0@ == ErrorView::DataDirNotFound(
                self.data_dir_of(id@),
            ),
            *files is Some && files->0.metadata is Some ==> forall|dbname: Seq<char>, port: u32|
                #![trigger metadata_text(dbname, port)]
                files->0.metadata->0@ == metadata_text(dbname, port) ==> record_fields(
                    files->0.metadata->0@,
                ) == Some((dbname, port)),
    {
        match files {
            None => Err(Error::DataDirNotFound(self.data_dir(id))),
            Some(f) => self.status_in(id, f),
        }
    }

    fn status_in(&self, id: &str, f: &InstanceFiles) -> (r: Result<Status, Error>)
        ensures
            outcome(r) == self.status_of(id@, Some(*f)),
            f.metadata is Some ==> forall|dbname: Seq<char>, port: u32|
                #![trigger metadata_text(dbname, port)]
                f.metadata->0@ == metadata_text(dbname, port) ==> record_fields(
                    f.metadata->0@,
                ) == Some((dbname, port)),
    {
        let text = match &f.metadata {
            None => {
                return Err(Error::MetadataNotFound(self.metadata_file(id)));
            },
            Some(text) => text,
        };
        let meta = match Metadata::from_json(text.as_str()) {
            None => {
                return Err(Error::InvalidMetadata(self.metadata_file(id)));
            },
            Some(meta) => meta,
        };
        match &f.pidfile {
            None => Ok(Status::stopped(String::from_str(id), meta.dbname, meta.port)),
            Some(content) => match parse_pid(content.as_str()) {
                Some(pid) => Ok(Status::running(String::from_str(id), meta.dbname, meta.port, pid)),
                None => Err(Error::InvalidPidFile(self.pidfile(id))),
            },
        }
    }

    /// The statuses that listing `entries` gives, in their order; `None`
    /// when the status of one of them cannot be read.
    pub open spec fn list_of(&self, entries: Seq<(String, InstanceFiles)>) -> Option<Seq<StatusView>> {
        if forall|i: int|
            0 <= i < entries.len() ==> (#[trigger] self.status_of(
                entries[i].0@,
                Some(entries[i].1),
            )) is Ok {
            Some(
                Seq::new(
                    entries.len(),
                    |i: int| self.status_of(entries[i].0@, Some(entries[i].1))->Ok_0,
                ),
            )
        } else {
            None
        }
    }

    /// The status of every instance, given each data directory's name and
    /// what it holds, in the order given: the first instance whose status
    /// fails fails the whole list.
    pub fn list(&self, entries: &Vec<(String, InstanceFiles)>) -> (r: Result<Vec<Status>, Error>)
        ensures
            r is Ok <==> forall|i: int|
                0 <= i < entries@.len() ==> (#[trigger] self.status_of(
                    entries@[i].0@,
                    Some(entries@[i].1),
                )) is Ok,
            r is Ok ==> r->Ok_0@.len() == entries@.len() && forall|i: int|
                0 <= i < entries@.len() ==> Ok::<StatusView, ErrorView>((#[trigger] r->Ok_0@[i])@)
                    == self.status_of(entries@[i].0@, Some(entries@[i].1)),
            r is Err ==> exists|i: int|
                0 <= i < entries@.len() && Err::<StatusView, ErrorView>(r->Err_0@)
                    == #[trigger] self.status_of(entries@[i].0@, Some(entries@[i].1)),
            r is Ok <==> self.list_of(entries@) is Some,
            r is Ok ==> Seq::new(r->Ok_0@.len(), |i: int| r->Ok_0@[i]@) == self.list_of(entries@)->0,
            r is Ok ==> forall|i: int, dbname: Seq<char>, port: u32|
                0 <= i < entries@.len() && entries@[i].1.metadata is Some
                    && entries@[i].1.metadata->0@ == #[trigger] metadata_text(dbname, port)
                    ==> (#[trigger] r->Ok_0@[i]).id@ == entries@[i].0@ && r->Ok_0@[i].dbname@ == dbname
                    && r->Ok_0@[i].port == port,
    {
        let mut results: Vec<Status> = Vec::new();
        let mut i: usize = 0;
        while i < entries.len()
            invariant
                i <= entries@.len(),
                results@.len() == i,
                forall|j: int|
                    0 <= j < i ==> Ok::<StatusView, ErrorView>((#[trigger] results@[j])@)
                        == self.status_of(entries@[j].0@, Some(entries@[j].1)),
                forall|j: int, dbname: Seq<char>, port: u32|
                    0 <= j < i && entries@[j].1.metadata is Some && entries@[j].1.metadata->0@
                        == #[trigger] metadata_text(dbname, port) ==> (#[trigger] results@[j]).id@
                        == entries@[j].0@ && results@[j].dbname@ == dbname && results@[j].port == port,
            decreases entries@.len() - i,
        {
            let entry = &entries[i];
            match self.status_in(entry.0.as_str(), &entry.1) {
                Ok(st) => {
                    results.push(st);
                },
                Err(e) => {
                    assert(self.status_of(entries@[i as int].0@, Some(entries@[i as int].1)) is Err);
                    return Err(e);
                },
            }
            i = i + 1;
        }
        assert(Seq::new(results@.len(), |k: int| results@[k]@) =~= Seq::new(
            entries@.len(),
            |k: int| self.status_of(entries@[k].0@, Some(entries@[k].1))->Ok_0,
        ));
        assert forall|j: int| 0 <= j < entries@.len() implies (#[trigger] self.status_of(
            entries@[j].0@,
            Some(entries@[j].1),
        )) is Ok by {
            assert(Ok::<StatusView, ErrorView>(results@[j]@) == self.status_of(entries@[j].0@, Some(entries@[j].1)));
        }
        Ok(results)
    }
}

/// Listing does not depend on the order in which the data root is
/// enumerated: for two orders of the same instances (`b[i]` is
/// `a[perm[i]]`, and `back` undoes `perm`), one listing succeeds exactly
/// when the other does, and each instance's status appears in both, at its
/// own place in each order.
pub proof fn lemma_list_order_free(
    ctl: PgCtl,
    a: Seq<(String, InstanceFiles)>,
    b: Seq<(String, InstanceFiles)>,
    perm: Seq<int>,
    back: Seq<int>,
)
    requires
        b.len() == a.len(),
        perm.len() == a.len(),
        forall|i: int| 0 <= i < b.len() ==> 0 <= #[trigger] perm[i] < a.len() && b[i] == a[perm[i]],
        back.len() == a.len(),
        forall|j: int| 0 <= j < a.len() ==> 0 <= #[trigger] back[j] < b.len() && perm[back[j]] == j,
    ensures
        ctl.list_of(a) is Some <==> ctl.list_of(b) is Some,
        ctl.list_of(a) is Some ==> forall|i: int|
            0 <= i < b.len() ==> ctl.list_of(b)->0[i] == ctl.list_of(a)->0[#[trigger] perm[i]],
{
    if ctl.list_of(a) is Some {
        assert forall|i: int| 0 <= i < b.len() implies (#[trigger] ctl.status_of(
            b[i].0@,
            Some(b[i].1),
        )) is Ok by {
            assert(b[i] == a[perm[i]]);
            assert(ctl.status_of(a[perm[i]].0@, Some(a[perm[i]].1)) is Ok);
        }
    }
    if ctl.list_of(b) is Some {
        assert forall|j: int| 0 <= j < a.len() implies (#[trigger] ctl.status_of(
            a[j].0@,
            Some(a[j].1),
        )) is Ok by {
            let i = back[j];
            assert(b[i] == a[j]);
            assert(ctl.status_of(b[i].0@, Some(b[i].1)) is Ok);
        }
    }
}

} // verus!
