//! The handle on a run: the state that the workers and the observer share.

use vstd::prelude::*;
use std::sync::{Arc, Condvar, Mutex, MutexGuard};
use crossbeam::queue::SegQueue;
use crate::barrier::{BarrierAction, TerminationState};
use crate::config::{ConfigModel, SyncBuilder};
use crate::log::{LogNote, SyncLogEntry, SyncLogLevel};
use crate::work::{choose_job, seeds, Job};
use crate::scan::ScanPlan;
use crate::task::{DirTask, IoOperation};

verus! {

/// `SegQueue` of crossbeam: a queue without a bound that many threads push
/// to and pop from through a shared reference.
#[verifier::external_type_specification]
#[verifier::external_body]
#[verifier::reject_recursive_types(T)]
pub struct ExSegQueue<T>(SegQueue<T>);

/// `SegQueue::new` of crossbeam: a new queue without a bound.
#[verifier::external_body]
fn new_queue<T>() -> SegQueue<T> {
    SegQueue::new()
}

/// `SegQueue::push` of crossbeam: puts `item` at the tail. The queue is
/// shared, so nothing is claimed of what it holds afterwards.
#[verifier::external_body]
fn push<T>(queue: &SegQueue<T>, item: T) {
    queue.push(item)
}

/// `SegQueue::pop` of crossbeam: takes the item at the head, or gives `None`
/// where it finds the queue empty. The queue is shared, so nothing is claimed
/// of which it is.
#[verifier::external_body]
fn try_pop<T>(queue: &SegQueue<T>) -> Option<T> {
    queue.pop()
}

/// `Mutex` of std: a lock around a value.
#[verifier::external_type_specification]
#[verifier::external_body]
#[verifier::reject_recursive_types(T)]
pub struct ExMutex<T: ?Sized>(Mutex<T>);

/// `MutexGuard` of std: the lock while it is held.
#[verifier::external_type_specification]
#[verifier::external_body]
#[verifier::reject_recursive_types(T)]
pub struct ExMutexGuard<'a, T: ?Sized + 'a>(MutexGuard<'a, T>);

/// `Condvar` of std: where threads park until they are woken.
#[verifier::external_type_specification]
#[verifier::external_body]
pub struct ExCondvar(Condvar);

/// `Mutex::new` of std: a mutex around `state`.
#[verifier::external_body]
fn guard_state(state: TerminationState) -> Mutex<TerminationState> {
    Mutex::new(state)
}

/// `Mutex::lock` of std: blocks until the lock is held. A lock that a
/// panicking thread left behind is taken all the same. Other threads change
/// the state between two locks, so nothing is claimed of what the guard holds.
#[verifier::external_body]
fn lock<'a>(mutex: &'a Mutex<TerminationState>) -> MutexGuard<'a, TerminationState> {
    match mutex.lock() {
        Ok(guard) => guard,
        Err(poisoned) => poisoned.into_inner(),
    }
}

/// `DerefMut::deref_mut` of std on the guard: the state that the lock
/// protects, for as long as the guard is borrowed.
#[verifier::external_body]
fn state_of<'a, 'b>(guard: &'a mut MutexGuard<'b, TerminationState>) -> &'a mut TerminationState {
    &mut *guard
}

/// `Condvar::new` of std.
#[verifier::external_body]
fn new_condvar() -> Condvar {
    Condvar::new()
}

/// `Condvar::wait` of std: gives the lock up, parks the thread until it is
/// woken, and takes the lock again. The thread may wake without a
/// notification.
#[verifier::external_body]
fn wait<'a>(condvar: &Condvar, guard: MutexGuard<'a, TerminationState>) -> MutexGuard<
    'a,
    TerminationState,
> {
    match condvar.wait(guard) {
        Ok(guard) => guard,
        Err(poisoned) => poisoned.into_inner(),
    }
}

/// `Condvar::notify_one` of std: wakes one parked thread, if there is one.
#[verifier::external_body]
fn notify_one(condvar: &Condvar) {
    condvar.notify_one()
}

/// `Condvar::notify_all` of std: wakes every parked thread.
#[verifier::external_body]
fn notify_all(condvar: &Condvar) {
    condvar.notify_all()
}

/// What all handles on one run share.
struct SyncOperationData {
    options: SyncBuilder,
    log_queue: SegQueue<SyncLogEntry>,
    sync_dir_queue: SegQueue<DirTask>,
    op_queue: SegQueue<IoOperation>,
    done_data: Mutex<TerminationState>,
    done_condvar: Condvar,
}

/// A handle on a run. All clones share one state, which lives as long as any
/// of them.
#[derive(Clone)]
pub struct SyncOperation(Arc<SyncOperationData>);

impl SyncOperation {
    /// The configuration of the run.
    pub closed spec fn config(&self) -> ConfigModel {
        self.0.options@
    }

    /// The state of a run with the configuration `sync_builder`, before any
    /// work is queued.
    pub fn new(sync_builder: &SyncBuilder) -> (r: Self)
        ensures
            r.config() == sync_builder@,
    {
        let options = sync_builder.clone();
        let state = TerminationState::new(options.worker_count());
        SyncOperation(
            Arc::new(
                SyncOperationData {
                    options,
                    log_queue: new_queue(),
                    sync_dir_queue: new_queue(),
                    op_queue: new_queue(),
                    done_data: guard_state(state),
                    done_condvar: new_condvar(),
                },
            ),
        )
    }

    /// Whether the run was declared done. The answer is read under the lock
    /// from state that the workers change, so nothing is promised of it here;
    /// [`TerminationState::is_done`] says what it is for each state.
    pub fn is_done(&self) -> (done: bool) {
        let mut guard = lock(&self.0.done_data);
        state_of(&mut guard).is_done()
    }

    /// Takes the oldest entry off the log stream, if it holds one. The stream
    /// is shared with the workers, so the entry is whatever the queue gives.
    pub fn read_log(&self) -> (entry: Option<SyncLogEntry>) {
        try_pop(&self.0.log_queue)
    }

    /// The configuration of the run.
    pub fn options(&self) -> (options: &SyncBuilder)
        ensures
            options@ == self.config(),
    {
        &self.0.options
    }

    /// Puts a note on the log stream, stamped with the time of the call.
    pub fn log(&self, note: LogNote) {
        push(&self.0.log_queue, SyncLogEntry::stamp(note));
    }

    /// Queues a pair of directories and wakes a parked worker for it.
    pub fn add_to_sync_dir_queue(&self, task: DirTask) {
        push(&self.0.sync_dir_queue, task);
        notify_one(&self.0.done_condvar);
    }

    /// Queues a file operation and wakes a parked worker for it.
    pub fn add_to_op_queue(&self, op: IoOperation) {
        push(&self.0.op_queue, op);
        notify_one(&self.0.done_condvar);
    }

    /// Queues the configured pairs of directories, in configured order. The
    /// workers are started after this.
    pub fn seed(&self) {
        let tasks = seeds(&self.0.options);
        for task in tasks {
            push(&self.0.sync_dir_queue, task);
        }
    }

    /// Queues everything that a scan asked for: the file operations, the
    /// subdirectories, and the notes for the log, each in the order of the
    /// plan, and wakes a parked worker for each piece of work.
    pub fn submit(&self, plan: ScanPlan) {
        for op in plan.ops {
            self.add_to_op_queue(op);
        }
        for task in plan.dirs {
            self.add_to_sync_dir_queue(task);
        }
        for note in plan.notes {
            self.log(note);
        }
    }

    /// Takes the next piece of work: a file operation if one is queued, else
    /// a pair of directories if one is queued. The queues are shared, so what
    /// they give is open; [`choose_job`] says which job follows from it.
    pub fn next_job(&self) -> (job: Job) {
        let op = try_pop(&self.0.op_queue);
        if op.is_some() {
            choose_job(op, None)
        } else {
            choose_job(None, try_pop(&self.0.sync_dir_queue))
        }
    }

    /// The worker at the barrier, where it goes when it found no work. Gives
    /// `true` where the worker is to leave: the run is done, or this worker
    /// found all the others parked, declared it done and woke them. Gives
    /// `false` where the worker was parked and woke up: it looks for work
    /// again. Which of them it is depends on the state that the worker finds
    /// under the lock: [`TerminationState::arrive`] says what it is told for
    /// each state, and [`BarrierAction::leaves`] whether it leaves on that.
    pub fn await_work(&self) -> (leave: bool) {
        let mut guard = lock(&self.0.done_data);
        let action = state_of(&mut guard).arrive();
        match action {
            BarrierAction::Exit => {},
            BarrierAction::WakeAllAndExit => {
                notify_all(&self.0.done_condvar);
            },
            BarrierAction::Park => {
                let mut guard = wait(&self.0.done_condvar, guard);
                state_of(&mut guard).resume();
            },
        }
        let leave = action.leaves();
        if leave {
            self.log(LogNote::new(SyncLogLevel::Debug, "Thread exiting"));
        }
        leave
    }
}

} // verus!
