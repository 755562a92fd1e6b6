//! Cloning a data directory: which work is done, and in how many
//! independent tasks.
//!
//! A data directory has a fixed shape: a few small files at its root,
//! directories that are always empty, directories with a bounded number of
//! small files, and one directory that holds the bulk of the data. Each kind
//! is copied with its own grain of concurrency.

use vstd::prelude::*;
use vstd::string::*;

use crate::paths::{join_path, join_str};
use crate::pg_ctl::{Error, ErrorView};

verus! {

/// The permissions of every directory that a clone creates: the owner's
/// alone, since a data directory holds credentials.
pub const DIR_MODE: u32 = 0o700;

/// The files at the root of a data directory.
pub open spec fn root_files() -> Seq<Seq<char>> {
    seq!["pg_hba.conf"@, "pg_ident.conf"@, "PG_VERSION"@, "postmaster.opts"@]
}

/// The directories that a data directory holds empty.
pub open spec fn empty_dirs() -> Seq<Seq<char>> {
    seq!["pg_commit_ts"@, "pg_dynshmem"@, "pg_notify"@, "pg_replslot"@, "pg_serial"@, "pg_snapshots"@, "pg_stat_tmp"@, "pg_tblspc"@, "pg_twophase"@]
}

/// The directories with a bounded number of small files.
pub open spec fn small_dirs() -> Seq<Seq<char>> {
    seq!["global"@, "pg_logical"@, "pg_multixact"@, "pg_stat"@, "pg_subtrans"@, "pg_wal"@, "pg_xact"@]
}

/// The directory that holds the bulk of the data.
pub open spec fn large_dir() -> Seq<char> {
    "base"@
}

fn root_file_names() -> (r: Vec<String>)
    ensures
        r.deep_view() == root_files(),
{
    let mut r: Vec<String> = Vec::new();
    r.push(String::from_str("pg_hba.conf"));
    r.push(String::from_str("pg_ident.conf"));
    r.push(String::from_str("PG_VERSION"));
    r.push(String::from_str("postmaster.opts"));
    assert(r.deep_view() =~= root_files());
    r
}

fn empty_dir_names() -> (r: Vec<String>)
    ensures
        r.deep_view() == empty_dirs(),
{
    let mut r: Vec<String> = Vec::new();
    r.push(String::from_str("pg_commit_ts"));
    r.push(String::from_str("pg_dynshmem"));
    r.push(String::from_str("pg_notify"));
    r.push(String::from_str("pg_replslot"));
    r.push(String::from_str("pg_serial"));
    r.push(String::from_str("pg_snapshots"));
    r.push(String::from_str("pg_stat_tmp"));
    r.push(String::from_str("pg_tblspc"));
    r.push(String::from_str("pg_twophase"));
    assert(r.deep_view() =~= empty_dirs());
    r
}

fn small_dir_names() -> (r: Vec<String>)
    ensures
        r.deep_view() == small_dirs(),
{
    let mut r: Vec<String> = Vec::new();
    r.push(String::from_str("global"));
    r.push(String::from_str("pg_logical"));
    r.push(String::from_str("pg_multixact"));
    r.push(String::from_str("pg_stat"));
    r.push(String::from_str("pg_subtrans"));
    r.push(String::from_str("pg_wal"));
    r.push(String::from_str("pg_xact"));
    assert(r.deep_view() =~= small_dirs());
    r
}

/// One unit of copy work, run concurrently with the others.
pub enum CopyTask {
    /// Copy the files `names` from directory `source` into directory
    /// `destination`, one after another.
    Files { source: String, destination: String, names: Vec<String> },
    /// Create the directories `names` inside `destination`, owner-only and
    /// empty.
    EmptyDirs { destination: String, names: Vec<String> },
    /// Create directory `destination`, owner-only, and copy the tree under
    /// `source` into it.
    Tree { source: String, destination: String },
}

pub enum CopyTaskView {
    Files { source: Seq<char>, destination: Seq<char>, names: Seq<Seq<char>> },
    EmptyDirs { destination: Seq<char>, names: Seq<Seq<char>> },
    Tree { source: Seq<char>, destination: Seq<char> },
}

impl DeepView for CopyTask {
    type V = CopyTaskView;

    open spec fn deep_view(&self) -> CopyTaskView {
        match self {
            CopyTask::Files { source, destination, names } => CopyTaskView::Files {
                source: source@,
                destination: destination@,
                names: names.deep_view(),
            },
            CopyTask::EmptyDirs { destination, names } => CopyTaskView::EmptyDirs {
                destination: destination@,
                names: names.deep_view(),
            },
            CopyTask::Tree { source, destination } => CopyTaskView::Tree {
                source: source@,
                destination: destination@,
            },
        }
    }
}

/// The work of one clone: directories to create, in order, before any task
/// starts; then the tasks, which run concurrently. Every directory that the
/// clone creates, before or in a task, gets the permissions `dir_mode`.
pub struct ClonePlan {
    pub dir_mode: u32,
    pub create_dirs: Vec<String>,
    pub tasks: Vec<CopyTask>,
}

/// The tasks that copy every directory of fixed small size.
pub open spec fn small_dir_tasks(source: Seq<char>, destination: Seq<char>) -> Seq<CopyTaskView> {
    Seq::new(
        small_dirs().len(),
        |i: int|
            CopyTaskView::Tree {
                source: join_path(source, small_dirs()[i]),
                destination: join_path(destination, small_dirs()[i]),
            },
    )
}

/// The tasks that copy the entries `entries` of the large directory, one
/// task each.
pub open spec fn large_dir_tasks(
    source: Seq<char>,
    destination: Seq<char>,
    entries: Seq<Seq<char>>,
) -> Seq<CopyTaskView> {
    Seq::new(
        entries.len(),
        |i: int|
            CopyTaskView::Tree {
                source: join_path(join_path(source, large_dir()), entries[i]),
                destination: join_path(join_path(destination, large_dir()), entries[i]),
            },
    )
}

/// The tasks of cloning `source` into `destination`, given the names of the
/// entries of the large directory of `source`.
pub open spec fn clone_tasks(
    source: Seq<char>,
    destination: Seq<char>,
    entries: Seq<Seq<char>>,
) -> Seq<CopyTaskView> {
    seq![
        CopyTaskView::Files { source, destination, names: root_files() },
        CopyTaskView::EmptyDirs { destination, names: empty_dirs() },
    ] + small_dir_tasks(source, destination) + large_dir_tasks(source, destination, entries)
}

/// Plans the clone of the data directory `source` into `destination`, given
/// the names of the entries of the large directory of `source`: one task for
/// the root files, one for the empty directories, one per small directory,
/// and one per entry of the large directory.
pub fn copy_pgdata(source: &str, destination: &str, large_entries: &Vec<String>) -> (r: ClonePlan)
    ensures
        r.dir_mode == DIR_MODE,
        r.dir_mode & 0o077 == 0,
        r.create_dirs.deep_view() == seq![destination@, join_path(destination@, large_dir())],
        r.tasks.deep_view() == clone_tasks(source@, destination@, large_entries.deep_view()),
        r.tasks@.len() == 2 + small_dirs().len() + large_entries@.len(),
{
    let mut create_dirs: Vec<String> = Vec::new();
    create_dirs.push(String::from_str(destination));
    let large_source = join_str(source, "base");
    let large_destination = join_str(destination, "base");
    create_dirs.push(join_str(destination, "base"));
    assert(create_dirs.deep_view() =~= seq![destination@, join_path(destination@, large_dir())]);

    let mut tasks: Vec<CopyTask> = Vec::new();
    tasks.push(
        CopyTask::Files {
            source: String::from_str(source),
            destination: String::from_str(destination),
            names: root_file_names(),
        },
    );
    tasks.push(
        CopyTask::EmptyDirs { destination: String::from_str(destination), names: empty_dir_names() },
    );
    let small = small_dir_names();
    let ghost head = seq![
        CopyTaskView::Files { source: source@, destination: destination@, names: root_files() },
        CopyTaskView::EmptyDirs { destination: destination@, names: empty_dirs() },
    ];
    assert(tasks.deep_view() =~= head);
    let mut i: usize = 0;
    while i < small.len()
        invariant
            i <= small@.len(),
            small.deep_view() == small_dirs(),
            tasks.deep_view() == head + small_dir_tasks(source@, destination@).take(i as int),
        decreases small@.len() - i,
    {
        assert(small.deep_view()[i as int] == small@[i as int]@);
        let ghost prev = tasks.deep_view();
        tasks.push(
            CopyTask::Tree {
                source: join_str(source, small[i].as_str()),
                destination: join_str(destination, small[i].as_str()),
            },
        );
        assert(tasks.deep_view() =~= prev.push(small_dir_tasks(source@, destination@)[i as int]));
        assert(head + small_dir_tasks(source@, destination@).take(i + 1) =~= (head + small_dir_tasks(source@, destination@).take(i as int)).push(small_dir_tasks(source@, destination@)[i as int]));
        i = i + 1;
    }
    assert(small_dir_tasks(source@, destination@).take(i as int) =~= small_dir_tasks(source@, destination@));
    let ghost mid = head + small_dir_tasks(source@, destination@);
    let mut j: usize = 0;
    while j < large_entries.len()
        invariant
            j <= large_entries@.len(),
            large_source@ == join_path(source@, large_dir()),
            large_destination@ == join_path(destination@, large_dir()),
            tasks.deep_view() == mid + large_dir_tasks(source@, destination@, large_entries.deep_view()).take(j as int),
        decreases large_entries@.len() - j,
    {
        assert(large_entries.deep_view()[j as int] == large_entries@[j as int]@);
        let ghost prev = tasks.deep_view();
        let ghost lt = large_dir_tasks(source@, destination@, large_entries.deep_view());
        tasks.push(
            CopyTask::Tree {
                source: join_str(large_source.as_str(), large_entries[j].as_str()),
                destination: join_str(large_destination.as_str(), large_entries[j].as_str()),
            },
        );
        assert(tasks.deep_view() =~= prev.push(lt[j as int]));
        assert(mid + lt.take(j + 1) =~= (mid + lt.take(j as int)).push(lt[j as int]));
        j = j + 1;
    }
    assert(large_dir_tasks(source@, destination@, large_entries.deep_view()).take(j as int) =~= large_dir_tasks(source@, destination@, large_entries.deep_view()));
    assert(tasks.deep_view() =~= clone_tasks(source@, destination@, large_entries.deep_view()));
    assert(DIR_MODE & 0o077 == 0) by (bit_vector);
    ClonePlan { dir_mode: DIR_MODE, create_dirs, tasks }
}

/// What to do with one entry met while copying a tree.
pub enum TreeStep {
    /// Create directory `destination`, owner-only, then copy the tree under
    /// `source` into it.
    Descend { source: String, destination: String },
    /// Copy the file `source` to `destination`.
    CopyFile { source: String, destination: String },
}

/// The step for the entry `name` of directory `source`, copied into
/// directory `destination`: a subdirectory is descended into, anything else
/// is copied as a file.
pub fn copy_entry(source: &str, destination: &str, name: &str, is_dir: bool) -> (r: TreeStep)
    ensures
        is_dir ==> (r matches TreeStep::Descend { source: s, destination: d } && s@ == join_path(
            source@,
            name@,
        ) && d@ == join_path(destination@, name@)),
        !is_dir ==> (r matches TreeStep::CopyFile { source: s, destination: d } && s@ == join_path(
            source@,
            name@,
        ) && d@ == join_path(destination@, name@)),
{
    let from = join_str(source, name);
    let to = join_str(destination, name);
    if is_dir {
        TreeStep::Descend { source: from, destination: to }
    } else {
        TreeStep::CopyFile { source: from, destination: to }
    }
}

/// The outcome of a clone, from the outcomes of all its tasks in the order
/// they finished: it succeeds when every task did, and otherwise reports the
/// first failure.
pub fn clone_outcome(results: &Vec<Result<(), String>>) -> (r: Result<(), Error>)
    ensures
        r is Ok <==> forall|i: int| 0 <= i < results@.len() ==> (#[trigger] results@[i]) is Ok,
        r is Err ==> exists|i: int|
            0 <= i < results@.len() && (#[trigger] results@[i]) is Err && (forall|j: int|
                0 <= j < i ==> results@[j] is Ok) && r->Err_0@ == ErrorView::CloneFailed(
                results@[i]->Err_0@,
            ),
{
    let mut i: usize = 0;
    while i < results.len()
        invariant
            i <= results@.len(),
            forall|j: int| 0 <= j < i ==> (#[trigger] results@[j]) is Ok,
        decreases results@.len() - i,
    {
        match &results[i] {
            Ok(()) => {},
            Err(message) => {
                return Err(Error::CloneFailed(message.clone()));
            },
        }
        i = i + 1;
    }
    Ok(())
}

} // verus!
