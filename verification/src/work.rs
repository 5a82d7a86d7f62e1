//! The work of a run: where it starts and what a worker takes next.

use vstd::prelude::*;
use crate::config::{pair_views, SyncBuilder};
use crate::path::{views, PathModel, SyncPath};
use crate::task::{DirTask, DirTaskModel, IoOperation, OpModel};

verus! {

/// What a worker does next.
#[derive(Debug, PartialEq, Eq)]
pub enum Job {
    /// Carry out this file operation.
    Op(IoOperation),
    /// Scan this pair of directories.
    Dir(DirTask),
    /// There is no work: go to the barrier.
    Idle,
}

/// The mathematical value of a [`Job`].
pub enum JobModel {
    Op(OpModel),
    Dir(DirTaskModel),
    Idle,
}

impl View for Job {
    type V = JobModel;

    open spec fn view(&self) -> JobModel {
        match self {
            Job::Op(op) => JobModel::Op(op@),
            Job::Dir(task) => JobModel::Dir(task@),
            Job::Idle => JobModel::Idle,
        }
    }
}

/// The job of a worker that found `op` at the head of the operations and
/// `dir` at the head of the directories: file operations go first.
pub open spec fn job_of(op: Option<IoOperation>, dir: Option<DirTask>) -> JobModel {
    match op {
        Some(op) => JobModel::Op(op@),
        None => match dir {
            Some(task) => JobModel::Dir(task@),
            None => JobModel::Idle,
        },
    }
}

/// The directory pairs that a run starts from: one for each configured pair,
/// in configured order.
pub open spec fn root_tasks(directories: Seq<(Seq<char>, Seq<char>)>) -> Seq<DirTaskModel> {
    Seq::new(
        directories.len(),
        |i: int|
            DirTaskModel {
                src: PathModel { root: directories[i].0, parts: Seq::empty() },
                dest: PathModel { root: directories[i].1, parts: Seq::empty() },
            },
    )
}

/// The job of a worker that found `op` at the head of the operations and
/// `dir` at the head of the directories.
pub fn choose_job(op: Option<IoOperation>, dir: Option<DirTask>) -> (job: Job)
    ensures
        job@ == job_of(op, dir),
{
    match op {
        Some(op) => Job::Op(op),
        None => match dir {
            Some(task) => Job::Dir(task),
            None => Job::Idle,
        },
    }
}

/// The directory pairs that a run with this configuration starts from.
pub fn seeds(config: &SyncBuilder) -> (tasks: Vec<DirTask>)
    ensures
        views(tasks@) == root_tasks(config@.directories),
{
    let pairs = config.directory_pairs();
    let mut tasks: Vec<DirTask> = Vec::new();
    let mut i: usize = 0;
    while i < pairs.len()
        invariant
            i <= pairs.len(),
            pair_views(pairs@) == config@.directories,
            tasks@.len() == i,
            forall|j: int| 0 <= j < i ==> tasks@[j]@ == root_tasks(config@.directories)[j],
        decreases pairs.len() - i,
    {
        let pair = &pairs[i];
        let task = DirTask { src: SyncPath::new(pair.0.clone()), dest: SyncPath::new(pair.1.clone()) };
        proof {
            assert(pair_views(pairs@)[i as int] == (pair.0@, pair.1@));
            assert(task@ == root_tasks(config@.directories)[i as int]);
        }
        tasks.push(task);
        i = i + 1;
    }
    assert(views(tasks@) =~= root_tasks(config@.directories));
    tasks
}

} // verus!
