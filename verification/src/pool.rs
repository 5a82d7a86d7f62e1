//! The pool of workers as a transition system, and what the barrier
//! guarantees of it.
//!
//! The model has one step for each thing that a worker does between two looks
//! at shared state: it looks at the file operations, it looks at the
//! directories, it finishes a piece of work, it arrives at the barrier, it
//! wakes up. Steps of different workers interleave in any order, and a parked
//! worker may wake at any time. The file system is finite: a piece of work
//! queues no more work than there are entries that no scan has seen.

use vstd::prelude::*;
use crate::barrier::{
    action_on_arrival, settled, state_after_arrival, state_after_wakeup, BarrierAction,
    TerminationModel,
};

verus! {

/// What a worker is doing.
pub enum Phase {
    /// About to look at the file operations.
    Running,
    /// Found no file operation and is about to look at the directories.
    Searching,
    /// Carrying out a piece of work that it took off a queue.
    Busy,
    /// Found both queues empty and is about to arrive at the barrier.
    Idle,
    /// Parked at the barrier.
    Parked,
    /// Gone.
    Exited,
}

/// The state of a run.
pub struct Pool {
    pub barrier: TerminationModel,
    /// The phase of each worker.
    pub phases: Seq<Phase>,
    /// How many file operations are queued.
    pub ops: nat,
    /// How many directories are queued.
    pub dirs: nat,
    /// How many entries of the file system no scan has seen yet.
    pub unseen: nat,
}

/// One step of one worker.
pub enum Step {
    /// The worker looks at the file operations and takes one if there is
    /// one.
    LookAtOps(int),
    /// The worker looks at the directories and takes one if there is one.
    LookAtDirs(int),
    /// The worker finishes its piece of work, which queued this many file
    /// operations and this many directories.
    Finish(int, nat, nat),
    /// The worker arrives at the barrier.
    Arrive(int),
    /// The worker wakes up.
    Wake(int),
}

/// The run before its first step: the configured directories are queued,
/// nobody is parked and every worker is about to look for work.
pub open spec fn pool_start(workers: u8, dirs: nat, unseen: nat) -> Pool {
    Pool {
        barrier: TerminationModel { workers, waiting: 0, done: false },
        phases: Seq::new(workers as nat, |i: int| Phase::Running),
        ops: 0,
        dirs,
        unseen,
    }
}

/// Whether the worker of a step exists and is in the phase for it. A piece
/// of work queues no more than the file system still holds.
pub open spec fn enabled(pool: Pool, step: Step) -> bool {
    match step {
        Step::LookAtOps(i) => 0 <= i < pool.phases.len() && pool.phases[i] == Phase::Running,
        Step::LookAtDirs(i) => 0 <= i < pool.phases.len() && pool.phases[i] == Phase::Searching,
        Step::Finish(i, ops, dirs) => 0 <= i < pool.phases.len() && pool.phases[i] == Phase::Busy
            && ops + dirs <= pool.unseen,
        Step::Arrive(i) => 0 <= i < pool.phases.len() && pool.phases[i] == Phase::Idle,
        Step::Wake(i) => 0 <= i < pool.phases.len() && pool.phases[i] == Phase::Parked,
    }
}

/// The run after a step.
pub open spec fn pool_after(pool: Pool, step: Step) -> Pool {
    match step {
        Step::LookAtOps(i) => if pool.ops > 0 {
            Pool {
                phases: pool.phases.update(i, Phase::Busy),
                ops: (pool.ops - 1) as nat,
                ..pool
            }
        } else {
            Pool { phases: pool.phases.update(i, Phase::Searching), ..pool }
        },
        Step::LookAtDirs(i) => if pool.dirs > 0 {
            Pool {
                phases: pool.phases.update(i, Phase::Busy),
                dirs: (pool.dirs - 1) as nat,
                ..pool
            }
        } else {
            Pool { phases: pool.phases.update(i, Phase::Idle), ..pool }
        },
        Step::Finish(i, ops, dirs) => Pool {
            phases: pool.phases.update(i, Phase::Running),
            ops: pool.ops + ops,
            dirs: pool.dirs + dirs,
            unseen: (pool.unseen - (ops + dirs)) as nat,
            ..pool
        },
        Step::Arrive(i) => Pool {
            barrier: state_after_arrival(pool.barrier),
            phases: pool.phases.update(
                i,
                if action_on_arrival(pool.barrier) == BarrierAction::Park {
                    Phase::Parked
                } else {
                    Phase::Exited
                },
            ),
            ..pool
        },
        Step::Wake(i) => Pool {
            barrier: state_after_wakeup(pool.barrier),
            phases: pool.phases.update(i, Phase::Running),
            ..pool
        },
    }
}

/// The worker that takes a step.
pub open spec fn worker_of(step: Step) -> int {
    match step {
        Step::LookAtOps(i) => i,
        Step::LookAtDirs(i) => i,
        Step::Finish(i, _, _) => i,
        Step::Arrive(i) => i,
        Step::Wake(i) => i,
    }
}

/// How many workers are in `phase`.
pub open spec fn tally(phases: Seq<Phase>, phase: Phase) -> nat
    decreases phases.len(),
{
    if phases.len() == 0 {
        0
    } else {
        tally(phases.drop_last(), phase) + if phases.last() == phase {
            1nat
        } else {
            0nat
        }
    }
}

/// What holds of every state that a run can reach: the barrier counts the
/// parked workers; nobody has left before the run is declared done; once it
/// is, nothing is queued and nobody is at work; and what is queued has a worker
/// that is at work or has yet to look: for a file operation one that is busy
/// or about to look at the file operations, for a directory one that is busy or
/// anywhere in its look.
pub open spec fn consistent(pool: Pool) -> bool {
    &&& pool.phases.len() == pool.barrier.workers
    &&& settled(pool.barrier)
    &&& pool.barrier.waiting == tally(pool.phases, Phase::Parked)
    &&& !pool.barrier.done ==> tally(pool.phases, Phase::Exited) == 0
    &&& pool.barrier.done ==> pool.ops == 0 && pool.dirs == 0 && tally(pool.phases, Phase::Busy)
        == 0
    &&& tally(pool.phases, Phase::Busy) == 0 && tally(pool.phases, Phase::Running) == 0
        ==> pool.ops == 0
    &&& tally(pool.phases, Phase::Busy) == 0 && tally(pool.phases, Phase::Running) == 0 && tally(
        pool.phases,
        Phase::Searching,
    ) == 0 ==> pool.dirs == 0
}

/// How much work is left: what is queued, what is being carried out, and
/// what the file system still holds.
pub open spec fn work_left(pool: Pool) -> nat {
    pool.unseen + pool.ops + pool.dirs + tally(pool.phases, Phase::Busy)
}

/// How far the workers are from having left: four steps for a parked
/// worker, three for one that is about to look at the file operations, two for
/// one that is about to look at the directories, one for one that is about to
/// arrive.
pub open spec fn steps_to_exit(phases: Seq<Phase>) -> nat {
    4 * tally(phases, Phase::Parked) + 3 * tally(phases, Phase::Running) + 2 * tally(
        phases,
        Phase::Searching,
    ) + tally(phases, Phase::Idle)
}

proof fn lemma_tally_update(phases: Seq<Phase>, i: int, to: Phase, phase: Phase)
    requires
        0 <= i < phases.len(),
    ensures
        tally(phases.update(i, to), phase) + (if phases[i] == phase {
            1nat
        } else {
            0nat
        }) == tally(phases, phase) + (if to == phase {
            1nat
        } else {
            0nat
        }),
    decreases phases.len(),
{
    let changed = phases.update(i, to);
    if i == phases.len() - 1 {
        assert(changed.drop_last() =~= phases.drop_last());
    } else {
        assert(changed.drop_last() =~= phases.drop_last().update(i, to));
        lemma_tally_update(phases.drop_last(), i, to, phase);
    }
}

proof fn lemma_tally_sum(phases: Seq<Phase>)
    ensures
        tally(phases, Phase::Running) + tally(phases, Phase::Searching) + tally(
            phases,
            Phase::Busy,
        ) + tally(phases, Phase::Idle) + tally(phases, Phase::Parked) + tally(
            phases,
            Phase::Exited,
        ) == phases.len(),
    decreases phases.len(),
{
    if phases.len() > 0 {
        lemma_tally_sum(phases.drop_last());
    }
}

proof fn lemma_tally_member(phases: Seq<Phase>, i: int)
    requires
        0 <= i < phases.len(),
    ensures
        tally(phases, phases[i]) >= 1,
    decreases phases.len(),
{
    if i < phases.len() - 1 {
        lemma_tally_member(phases.drop_last(), i);
    }
}

proof fn lemma_tally_witness(phases: Seq<Phase>, phase: Phase) -> (i: int)
    requires
        tally(phases, phase) >= 1,
    ensures
        0 <= i < phases.len(),
        phases[i] == phase,
    decreases phases.len(),
{
    if phases.last() == phase {
        phases.len() - 1
    } else {
        lemma_tally_witness(phases.drop_last(), phase)
    }
}

proof fn lemma_tally_start(workers: nat, phase: Phase)
    ensures
        tally(Seq::new(workers, |i: int| Phase::Running), phase) == if phase == Phase::Running {
            workers
        } else {
            0
        },
    decreases workers,
{
    if workers > 0 {
        let all = Seq::new(workers, |i: int| Phase::Running);
        assert(all.drop_last() =~= Seq::new((workers - 1) as nat, |i: int| Phase::Running));
        lemma_tally_start((workers - 1) as nat, phase);
    }
}

proof fn lemma_tally_all(phases: Seq<Phase>, phase: Phase)
    requires
        forall|k: int| 0 <= k < phases.len() ==> phases[k] == phase,
    ensures
        tally(phases, phase) == phases.len(),
    decreases phases.len(),
{
    if phases.len() > 0 {
        lemma_tally_all(phases.drop_last(), phase);
    }
}

/// A run starts in a consistent state, however many directories are
/// configured and whatever the file system holds.
pub proof fn lemma_start_is_consistent(workers: u8, dirs: nat, unseen: nat)
    requires
        workers >= 1,
    ensures
        consistent(pool_start(workers, dirs, unseen)),
{
    lemma_tally_start(workers as nat, Phase::Parked);
    lemma_tally_start(workers as nat, Phase::Exited);
    lemma_tally_start(workers as nat, Phase::Busy);
    lemma_tally_start(workers as nat, Phase::Running);
    lemma_tally_start(workers as nat, Phase::Searching);
}

/// Every step leads from a consistent state to a consistent state.
pub proof fn lemma_step_keeps_consistent(pool: Pool, step: Step)
    requires
        consistent(pool),
        enabled(pool, step),
    ensures
        consistent(pool_after(pool, step)),
{
    let after = pool_after(pool, step);
    let i = worker_of(step);
    let to = after.phases[i];
    assert(after.phases == pool.phases.update(i, to));
    lemma_tally_update(pool.phases, i, to, Phase::Running);
    lemma_tally_update(pool.phases, i, to, Phase::Searching);
    lemma_tally_update(pool.phases, i, to, Phase::Busy);
    lemma_tally_update(pool.phases, i, to, Phase::Idle);
    lemma_tally_update(pool.phases, i, to, Phase::Parked);
    lemma_tally_update(pool.phases, i, to, Phase::Exited);
    lemma_tally_member(pool.phases, i);
    lemma_tally_sum(pool.phases);
}

/// When the run is declared done, nothing is queued and nobody is at work:
/// it is declared done only by a worker that found the queues empty while all
/// the others were parked.
pub proof fn lemma_done_means_quiet(pool: Pool)
    requires
        consistent(pool),
        pool.barrier.done,
    ensures
        pool.ops == 0,
        pool.dirs == 0,
        forall|i: int| 0 <= i < pool.phases.len() ==> pool.phases[i] != Phase::Busy,
{
    assert forall|i: int| 0 <= i < pool.phases.len() implies pool.phases[i] != Phase::Busy by {
        lemma_tally_member(pool.phases, i);
    }
}

/// Until the run is declared done, nobody has left, and somebody is neither
/// parked nor gone: the pool never waits for a wakeup that nobody is left to
/// give.
pub proof fn lemma_never_all_parked(pool: Pool) -> (i: int)
    requires
        consistent(pool),
        !pool.barrier.done,
    ensures
        0 <= i < pool.phases.len(),
        pool.phases[i] != Phase::Parked,
        forall|k: int| 0 <= k < pool.phases.len() ==> pool.phases[k] != Phase::Exited,
{
    lemma_tally_sum(pool.phases);
    assert forall|k: int| 0 <= k < pool.phases.len() implies pool.phases[k] != Phase::Exited by {
        lemma_tally_member(pool.phases, k);
    }
    if tally(pool.phases, Phase::Running) >= 1 {
        lemma_tally_witness(pool.phases, Phase::Running)
    } else if tally(pool.phases, Phase::Searching) >= 1 {
        lemma_tally_witness(pool.phases, Phase::Searching)
    } else if tally(pool.phases, Phase::Busy) >= 1 {
        lemma_tally_witness(pool.phases, Phase::Busy)
    } else {
        lemma_tally_witness(pool.phases, Phase::Idle)
    }
}

/// Once the run is declared done, every step brings the workers closer to
/// having left, so at most four steps for each worker are left.
pub proof fn lemma_shutdown_makes_progress(pool: Pool, step: Step)
    requires
        consistent(pool),
        pool.barrier.done,
        enabled(pool, step),
    ensures
        pool_after(pool, step).barrier.done,
        steps_to_exit(pool_after(pool, step).phases) < steps_to_exit(pool.phases),
        steps_to_exit(pool.phases) <= 4 * pool.barrier.workers,
{
    let after = pool_after(pool, step);
    let i = worker_of(step);
    let to = after.phases[i];
    assert(after.phases == pool.phases.update(i, to));
    lemma_tally_update(pool.phases, i, to, Phase::Running);
    lemma_tally_update(pool.phases, i, to, Phase::Searching);
    lemma_tally_update(pool.phases, i, to, Phase::Idle);
    lemma_tally_update(pool.phases, i, to, Phase::Parked);
    lemma_tally_member(pool.phases, i);
    lemma_tally_sum(pool.phases);
}

/// Once the run is declared done and no step is left, every worker has left.
pub proof fn lemma_all_workers_exit(pool: Pool)
    requires
        consistent(pool),
        pool.barrier.done,
        steps_to_exit(pool.phases) == 0,
    ensures
        tally(pool.phases, Phase::Exited) == pool.barrier.workers,
        forall|i: int| 0 <= i < pool.phases.len() ==> pool.phases[i] == Phase::Exited,
{
    lemma_tally_sum(pool.phases);
    assert forall|i: int| 0 <= i < pool.phases.len() implies pool.phases[i] == Phase::Exited by {
        lemma_tally_member(pool.phases, i);
    }
}

/// The work of a run is finite: no step adds to the work that is left, and
/// every piece of work that is finished takes one off. So no run finishes more
/// pieces of work than were left at its start.
pub proof fn lemma_work_runs_out(pool: Pool, step: Step)
    requires
        enabled(pool, step),
    ensures
        work_left(pool_after(pool, step)) <= work_left(pool),
        step is Finish ==> work_left(pool_after(pool, step)) < work_left(pool),
{
    let after = pool_after(pool, step);
    let i = worker_of(step);
    let to = after.phases[i];
    assert(after.phases == pool.phases.update(i, to));
    lemma_tally_update(pool.phases, i, to, Phase::Busy);
}

/// The worker that finds the queues empty while all the others are parked
/// ends the run: quiescence never goes unnoticed.
pub proof fn lemma_last_arrival_ends_the_run(pool: Pool, i: int)
    requires
        consistent(pool),
        !pool.barrier.done,
        enabled(pool, Step::Arrive(i)),
        forall|k: int| 0 <= k < pool.phases.len() && k != i ==> pool.phases[k] == Phase::Parked,
    ensures
        pool_after(pool, Step::Arrive(i)).barrier.done,
        pool_after(pool, Step::Arrive(i)).phases[i] == Phase::Exited,
{
    let parked = pool.phases.update(i, Phase::Parked);
    lemma_tally_all(parked, Phase::Parked);
    lemma_tally_update(pool.phases, i, Phase::Parked, Phase::Parked);
}

} // verus!
