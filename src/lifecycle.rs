//! The lifecycle operations: which steps create, start, stop, fork and
//! destroy an instance, and the laws that tie them to its status.

use vstd::prelude::*;
use vstd::string::*;

use crate::config::{settings_text, PostgresqlConf};
use crate::metadata::{metadata_text, Metadata};
use crate::paths::join_path;
use crate::pg_ctl::{Error, ErrorView, InstanceFiles, PgCtl, Status, StatusView};

verus! {

/// One piece of outside work of a lifecycle operation. The steps of an
/// operation run in order; the first that fails ends it.
pub enum Step {
    /// Run the control program with these arguments; it must succeed.
    Run(Vec<String>),
    /// Write `content` to the file `path`, replacing it.
    WriteFile { path: String, content: String },
    /// Clone the data directory `source` into `destination`.
    Clone { source: String, destination: String },
    /// Connect as `user` to the server on `port` and run `statement`.
    CreateDatabase { port: u32, user: String, statement: String },
    /// Remove the directory `path` and everything under it.
    RemoveDir(String),
    /// Remove the file `path`, if there is one.
    RemoveFileIfExists(String),
}

pub enum StepView {
    Run(Seq<Seq<char>>),
    WriteFile { path: Seq<char>, content: Seq<char> },
    Clone { source: Seq<char>, destination: Seq<char> },
    CreateDatabase { port: u32, user: Seq<char>, statement: Seq<char> },
    RemoveDir(Seq<char>),
    RemoveFileIfExists(Seq<char>),
}

impl DeepView for Step {
    type V = StepView;

    open spec fn deep_view(&self) -> StepView {
        match self {
            Step::Run(args) => StepView::Run(args.deep_view()),
            Step::WriteFile { path, content } => StepView::WriteFile {
                path: path@,
                content: content@,
            },
            Step::Clone { source, destination } => StepView::Clone {
                source: source@,
                destination: destination@,
            },
            Step::CreateDatabase { port, user, statement } => StepView::CreateDatabase {
                port: *port,
                user: user@,
                statement: statement@,
            },
            Step::RemoveDir(path) => StepView::RemoveDir(path@),
            Step::RemoveFileIfExists(path) => StepView::RemoveFileIfExists(path@),
        }
    }
}

/// The view of the outcome of planning an operation.
pub open spec fn plan_outcome(r: Result<Vec<Step>, Error>) -> Result<Seq<StepView>, ErrorView> {
    match r {
        Ok(steps) => Ok(steps.deep_view()),
        Err(e) => Err(e@),
    }
}

/// The statement that creates database `dbname` owned by `user`.
pub open spec fn create_statement(dbname: Seq<char>, user: Seq<char>) -> Seq<char> {
    "CREATE DATABASE "@ + dbname + " OWNER "@ + user
}

/// The statement that creates database `dbname` owned by `user`.
pub fn create_database(dbname: &str, user: &str) -> (r: String)
    ensures
        r@ == create_statement(dbname@, user@),
{
    let mut out = String::from_str("CREATE DATABASE ");
    out.append(dbname);
    out.append(" OWNER ");
    out.append(user);
    out
}

impl PgCtl {
    /// Whether the control program succeeded: `Ok` when it did, otherwise a
    /// [`Error::CliError`] with what it wrote to standard error.
    pub fn check_output(success: bool, stderr: String) -> (r: Result<(), Error>)
        ensures
            success ==> r is Ok,
            !success ==> r is Err && r->Err_0@ == ErrorView::CliError(stderr@),
    {
        if success {
            Ok(())
        } else {
            Err(Error::CliError(stderr))
        }
    }

    pub open spec fn init_args_of(&self, id: Seq<char>) -> Seq<Seq<char>> {
        seq!["--pgdata"@, self.data_dir_of(id), "-o--no-sync"@, "init"@]
    }

    pub open spec fn start_args_of(&self, id: Seq<char>, cwd: Seq<char>) -> Seq<Seq<char>> {
        seq![
            "--pgdata"@,
            self.data_dir_of(id),
            "--log"@,
            self.log_file_of(id),
            "--options"@,
            "-k"@ + join_path(cwd, self.sockets@),
            "start"@,
        ]
    }

    pub open spec fn stop_args_of(&self, id: Seq<char>, wait: bool) -> Seq<Seq<char>> {
        if wait {
            seq!["--pgdata"@, self.data_dir_of(id), "stop"@]
        } else {
            seq!["--pgdata"@, self.data_dir_of(id), "--no-wait"@, "stop"@]
        }
    }

    /// The arguments that make the control program create a fresh data
    /// directory for `id`, without forced syncs.
    pub fn init_args(&self, id: &str) -> (r: Vec<String>)
        ensures
            r.deep_view() == self.init_args_of(id@),
    {
        let mut r: Vec<String> = Vec::new();
        r.push(String::from_str("--pgdata"));
        r.push(self.data_dir(id));
        r.push(String::from_str("-o--no-sync"));
        r.push(String::from_str("init"));
        assert(r.deep_view() =~= self.init_args_of(id@));
        r
    }

    /// The arguments that make the control program start the server of
    /// `id`, logging to its log file and listening on the socket directory,
    /// made absolute against the working directory `cwd`.
    pub fn start_args(&self, id: &str, cwd: &str) -> (r: Vec<String>)
        ensures
            r.deep_view() == self.start_args_of(id@, cwd@),
    {
        let mut options = String::from_str("-k");
        let sockets = self.socket_dir(cwd);
        options.append(sockets.as_str());
        let mut r: Vec<String> = Vec::new();
        r.push(String::from_str("--pgdata"));
        r.push(self.data_dir(id));
        r.push(String::from_str("--log"));
        r.push(self.log_file(id));
        r.push(String::from_str("--options"));
        r.push(options);
        r.push(String::from_str("start"));
        assert(r.deep_view() =~= self.start_args_of(id@, cwd@));
        r
    }

    /// The arguments that make the control program stop the server of `id`;
    /// without `wait` it does not wait for the shutdown to finish.
    pub fn stop_args(&self, id: &str, wait: bool) -> (r: Vec<String>)
        ensures
            r.deep_view() == self.stop_args_of(id@, wait),
    {
        let mut r: Vec<String> = Vec::new();
        r.push(String::from_str("--pgdata"));
        r.push(self.data_dir(id));
        if !wait {
            r.push(String::from_str("--no-wait"));
        }
        r.push(String::from_str("stop"));
        assert(r.deep_view() =~= self.stop_args_of(id@, wait));
        r
    }

    /// The arguments that make the control program report whether the
    /// server of `id` runs; [`parse_status_output`](crate::reports::parse_status_output)
    /// reads the report.
    pub fn status_args(&self, id: &str) -> (r: Vec<String>)
        ensures
            r.deep_view() == seq!["--pgdata"@, self.data_dir_of(id@), "status"@],
    {
        let mut r: Vec<String> = Vec::new();
        r.push(String::from_str("--pgdata"));
        r.push(self.data_dir(id));
        r.push(String::from_str("status"));
        assert(r.deep_view() =~= seq!["--pgdata"@, self.data_dir_of(id@), "status"@]);
        r
    }

    /// The steps that start the server of `id`.
    pub fn start(&self, id: &str, cwd: &str) -> (r: Vec<Step>)
        ensures
            r.deep_view() == seq![StepView::Run(self.start_args_of(id@, cwd@))],
    {
        let mut r: Vec<Step> = Vec::new();
        r.push(Step::Run(self.start_args(id, cwd)));
        assert(r.deep_view() =~= seq![StepView::Run(self.start_args_of(id@, cwd@))]);
        r
    }

    /// The steps that stop the server of `id`, waiting for the shutdown or
    /// not.
    pub fn stop(&self, id: &str, wait: bool) -> (r: Vec<Step>)
        ensures
            r.deep_view() == seq![StepView::Run(self.stop_args_of(id@, wait))],
    {
        let mut r: Vec<Step> = Vec::new();
        r.push(Step::Run(self.stop_args(id, wait)));
        assert(r.deep_view() =~= seq![StepView::Run(self.stop_args_of(id@, wait))]);
        r
    }

    /// The steps that put up instance `id` with database `dbname`.
    pub open spec fn init_steps(
        &self,
        id: Seq<char>,
        dbname: Seq<char>,
        conf: PostgresqlConf,
        cwd: Seq<char>,
    ) -> Seq<StepView> {
        seq![
            StepView::Run(self.init_args_of(id)),
            StepView::WriteFile { path: self.config_file_of(id), content: settings_text(conf.settings()) },
            StepView::WriteFile {
                path: self.metadata_file_of(id),
                content: metadata_text(dbname, conf.port),
            },
            StepView::Run(self.start_args_of(id, cwd)),
            StepView::CreateDatabase {
                port: conf.port,
                user: self.user@,
                statement: create_statement(dbname, self.user@),
            },
        ]
    }

    /// The steps that create instance `id` with database `dbname` and
    /// settings `conf`: a fresh data directory, its configuration and
    /// metadata, a started server, and the database inside it.
    pub fn init(&self, id: &str, dbname: &str, conf: &PostgresqlConf, cwd: &str) -> (r: Vec<Step>)
        ensures
            r.deep_view() == self.init_steps(id@, dbname@, *conf, cwd@),
    {
        let meta = Metadata { dbname: String::from_str(dbname), port: conf.port };
        let mut r: Vec<Step> = Vec::new();
        r.push(Step::Run(self.init_args(id)));
        r.push(Step::WriteFile { path: self.config_file(id), content: conf.file_text() });
        r.push(Step::WriteFile { path: self.metadata_file(id), content: meta.to_json() });
        r.push(Step::Run(self.start_args(id, cwd)));
        r.push(
            Step::CreateDatabase {
                port: conf.port,
                user: self.user.clone(),
                statement: create_database(dbname, self.user.as_str()),
            },
        );
        assert(r.deep_view() =~= self.init_steps(id@, dbname@, *conf, cwd@));
        r
    }

    /// The steps that make instance `target`, with database `dbname`, a
    /// clone of `template`.
    pub open spec fn fork_steps(
        &self,
        template: Seq<char>,
        target: Seq<char>,
        dbname: Seq<char>,
        conf: PostgresqlConf,
        cwd: Seq<char>,
    ) -> Seq<StepView> {
        seq![
            StepView::Clone { source: self.data_dir_of(template), destination: self.data_dir_of(target) },
            StepView::WriteFile { path: self.config_file_of(target), content: settings_text(conf.settings()) },
            StepView::WriteFile {
                path: self.metadata_file_of(target),
                content: metadata_text(dbname, conf.port),
            },
            StepView::Run(self.start_args_of(target, cwd)),
        ]
    }

    /// The steps that create instance `target` as a clone of `template`,
    /// with database `dbname` and settings `conf`, given the status of
    /// `template` taken just before: a template that cannot be read fails
    /// the fork with its error, a running one with
    /// [`Error::TemplateStillRunning`], and a stopped one is cloned.
    pub fn fork(
        &self,
        template: &str,
        target: &str,
        dbname: &str,
        conf: &PostgresqlConf,
        cwd: &str,
        template_status: Result<Status, Error>,
    ) -> (r: Result<Vec<Step>, Error>)
        ensures
            template_status is Err ==> r is Err && r->Err_0@ == template_status->Err_0@,
            template_status is Ok && template_status->Ok_0.pid is Some ==> r is Err && r->Err_0@
                == ErrorView::TemplateStillRunning(template@),
            template_status is Ok && template_status->Ok_0.pid is None ==> r is Ok
                && r->Ok_0.deep_view() == self.fork_steps(template@, target@, dbname@, *conf, cwd@),
    {
        match template_status {
            Err(e) => {
                return Err(e);
            },
            Ok(st) => {
                if st.is_running() {
                    return Err(Error::TemplateStillRunning(String::from_str(template)));
                }
            },
        }
        let meta = Metadata { dbname: String::from_str(dbname), port: conf.port };
        let mut r: Vec<Step> = Vec::new();
        r.push(Step::Clone { source: self.data_dir(template), destination: self.data_dir(target) });
        r.push(Step::WriteFile { path: self.config_file(target), content: conf.file_text() });
        r.push(Step::WriteFile { path: self.metadata_file(target), content: meta.to_json() });
        r.push(Step::Run(self.start_args(target, cwd)));
        assert(r.deep_view() =~= self.fork_steps(template@, target@, dbname@, *conf, cwd@));
        Ok(r)
    }

    /// What destroying instance `id` does, given what its data directory
    /// holds (`None` when there is no such directory).
    pub open spec fn destroy_of(&self, id: Seq<char>, files: Option<InstanceFiles>) -> Result<
        Seq<StepView>,
        ErrorView,
    > {
        match files {
            None => Err(ErrorView::DataDirNotFound(self.data_dir_of(id))),
            Some(f) => {
                let removal = seq![
                    StepView::RemoveDir(self.data_dir_of(id)),
                    StepView::RemoveFileIfExists(self.log_file_of(id)),
                ];
                Ok(if f.pidfile is Some {
                    seq![StepView::Run(self.stop_args_of(id, false))] + removal
                } else {
                    removal
                })
            },
        }
    }

    /// The steps that destroy instance `id`, given what its data directory
    /// holds (`None` when there is no such directory): a running server is
    /// told to stop without waiting, then the data directory and the log
    /// file go. A missing data directory is an error, a missing log file is
    /// not.
    pub fn destroy(&self, id: &str, files: &Option<InstanceFiles>) -> (r: Result<Vec<Step>, Error>)
        ensures
            plan_outcome(r) == self.destroy_of(id@, *files),
    {
        let f = match files {
            None => {
                return Err(Error::DataDirNotFound(self.data_dir(id)));
            },
            Some(f) => f,
        };
        let mut r: Vec<Step> = Vec::new();
        if f.pidfile.is_some() {
            r.push(Step::Run(self.stop_args(id, false)));
        }
        r.push(Step::RemoveDir(self.data_dir(id)));
        r.push(Step::RemoveFileIfExists(self.log_file(id)));
        let ghost removal = seq![
            StepView::RemoveDir(self.data_dir_of(id@)),
            StepView::RemoveFileIfExists(self.log_file_of(id@)),
        ];
        assert(r.deep_view() =~= if f.pidfile is Some {
            seq![StepView::Run(self.stop_args_of(id@, false))] + removal
        } else {
            removal
        });
        Ok(r)
    }
}

/// Destroying an existing instance removes its data directory; once that
/// directory is gone, the instance's status and a second destroy both report
/// the missing directory rather than a stopped instance or a crash.
pub proof fn lemma_destroy_then_gone(ctl: PgCtl, id: Seq<char>, files: InstanceFiles)
    ensures
        ctl.destroy_of(id, Some(files)) is Ok,
        ctl.destroy_of(id, Some(files))->Ok_0.contains(StepView::RemoveDir(ctl.data_dir_of(id))),
        ctl.status_of(id, None) == Err::<StatusView, ErrorView>(
            ErrorView::DataDirNotFound(ctl.data_dir_of(id)),
        ),
        ctl.destroy_of(id, None) == Err::<Seq<StepView>, ErrorView>(
            ErrorView::DataDirNotFound(ctl.data_dir_of(id)),
        ),
{
    let steps = ctl.destroy_of(id, Some(files))->Ok_0;
    if files.pidfile is Some {
        assert(steps[1] == StepView::RemoveDir(ctl.data_dir_of(id)));
    } else {
        assert(steps[0] == StepView::RemoveDir(ctl.data_dir_of(id)));
    }
}

/// Distinct instance ids name distinct data directories, so a fork's clone
/// lands in a directory of its own, apart from its template's.
pub proof fn lemma_distinct_data_dirs(ctl: PgCtl, a: Seq<char>, b: Seq<char>)
    requires
        a != b,
        a.len() > 0 ==> a[0] != '/',
        b.len() > 0 ==> b[0] != '/',
    ensures
        ctl.data_dir_of(a) != ctl.data_dir_of(b),
{
    let base = ctl.data@;
    let p = if base.len() > 0 && base.last() != '/' {
        base + seq!['/']
    } else {
        base
    };
    assert(ctl.data_dir_of(a) == p + a);
    assert(ctl.data_dir_of(b) == p + b);
    assert((p + a).skip(p.len() as int) =~= a);
    assert((p + b).skip(p.len() as int) =~= b);
}

} // verus!
