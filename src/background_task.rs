//! The background-task engine: shared progress statistics, the task
//! interface, and the state machine that drives one run at a time.
//!
//! The machine never blocks and never spawns threads itself: the caller polls
//! it once per frame and hands it the operations that touch threads (start a
//! worker, test whether it is done, join it) as closures.
pub mod progress;

pub use progress::{nat_of, Progress, StatsView, SynchedStats};
use vstd::prelude::*;

verus! {

/// Work that can be run in the background.
///
/// `exec_with_expected_steps` is polled every frame while no run is going on:
/// `None` means "do not start yet"; `Some(steps)` means "start now", where
/// `steps` is `Some(n)` when `n` ticks are expected and `None` when the number
/// is not known. It must be cheap and free of side effects.
///
/// `on_exec` runs on the worker thread and calls `progress.increment()` once
/// per unit of work.
pub trait Task: Sized + Default + Send + 'static {
    type Return;

    fn exec_with_expected_steps(&self) -> Option<Option<usize>>;

    fn on_exec(&mut self, progress: Progress) -> Self::Return;
}

/// A task and the one run of it that may be going on.
///
/// `H` is the handle on the worker that runs the task (a thread's join handle).
///
/// Restarts begin from `T::default()`: the parameters of a run go to its
/// worker, and a finished run leaves default ones to be edited for the next.
pub enum BackgroundTask<T: Task, H> {
    /// Not started yet: the parameters of the first run.
    Starting { task: T },
    /// A worker runs the task; `join_handle` is `Some` until it is joined.
    Ongoing { progress: Progress, join_handle: Option<H> },
    /// The last run is over, with its value or the description of its panic,
    /// beside fresh parameters for the next run.
    Finished { result: Result<T::Return, String>, task: T },
}

/// What there is to show of a task: nothing yet, the progress of the run
/// (`None` where the worker held the lock at that moment), or the outcome of
/// the last run.
pub enum TaskStatus<'a, R> {
    Inactive,
    Running(Option<SynchedStats>),
    Done(&'a Result<R, String>),
}

/// The description given to a worker that failed without saying why.
pub const UNDESCRIBED_FAILURE: &'static str = "the worker failed without a description";

/// Whether `kept` is how the outcome `joined` of a worker is kept: a value
/// stays as it is, and a failure always carries a description that is not
/// empty.
pub open spec fn kept_as<R>(joined: Result<R, String>, kept: Result<R, String>) -> bool {
    match joined {
        Ok(v) => kept == Ok::<R, String>(v),
        Err(d) => kept is Err && if d@.len() == 0 {
            kept->Err_0@ == UNDESCRIBED_FAILURE@
        } else {
            kept->Err_0 == d
        },
    }
}

/// Gives an empty failure description a fixed text, so that no failure
/// reads as empty.
pub fn describe_failure<R>(joined: Result<R, String>) -> (r: Result<R, String>)
    ensures
        kept_as(joined, r),
        r is Err ==> r->Err_0@.len() > 0,
{
    proof {
        reveal_strlit("the worker failed without a description");
    }
    match joined {
        Ok(v) => Ok(v),
        Err(d) => if d.as_str().is_empty() {
            Err(UNDESCRIBED_FAILURE.to_owned())
        } else {
            Err(d)
        },
    }
}

/// Which of the three states a `BackgroundTask` is in.
pub ghost enum Phase {
    Starting,
    Ongoing,
    Finished,
}

/// The phase after a readiness poll that saw `readiness`.
pub open spec fn ready_step(p: Phase, readiness: Option<Option<usize>>) -> Phase {
    match p {
        Phase::Ongoing => Phase::Ongoing,
        _ => if readiness is Some {
            Phase::Ongoing
        } else {
            p
        },
    }
}

/// The phase after a result poll that saw the worker done (`done`) or not.
pub open spec fn result_step(p: Phase, done: bool) -> Phase {
    match p {
        Phase::Ongoing => if done {
            Phase::Finished
        } else {
            Phase::Ongoing
        },
        _ => p,
    }
}

impl<T: Task, H> BackgroundTask<T, H> {
    pub open spec fn phase(&self) -> Phase {
        match self {
            BackgroundTask::Starting { .. } => Phase::Starting,
            BackgroundTask::Ongoing { .. } => Phase::Ongoing,
            BackgroundTask::Finished { .. } => Phase::Finished,
        }
    }

    /// A run that is going on has a handle on its worker.
    pub open spec fn wf(&self) -> bool {
        self is Ongoing ==> self->join_handle is Some
    }

    /// The parameters that the next run would start from.
    pub open spec fn pending_task(&self) -> T
        recommends
            !(self is Ongoing),
    {
        match self {
            BackgroundTask::Starting { task } => *task,
            BackgroundTask::Finished { task, .. } => *task,
            BackgroundTask::Ongoing { .. } => arbitrary(),
        }
    }

    /// The handle on the worker of the run that is going on.
    pub open spec fn worker(&self) -> H
        recommends
            self is Ongoing,
    {
        match self {
            BackgroundTask::Ongoing { join_handle: Some(h), .. } => *h,
            _ => arbitrary(),
        }
    }

    /// A task in its first state, with default parameters.
    pub fn new() -> (r: Self)
        ensures
            r is Starting,
            r.wf(),
            call_ensures(T::default, (), r.pending_task()),
    {
        BackgroundTask::Starting { task: T::default() }
    }

    /// Starts a run where the state allows it and `readiness` says so.
    ///
    /// From `Starting` or `Finished`, `Some(steps)` hands the pending task and
    /// a second handle on fresh progress statistics to `spawn`, and keeps the
    /// handle that `spawn` returns. Anything else leaves the state unchanged.
    pub fn start_if_ready<S>(&mut self, readiness: Option<Option<usize>>, spawn: S) -> (started: bool)
        where
            S: FnOnce(T, Progress) -> H,
        requires
            old(self).wf(),
            forall|t: T, p: Progress| call_requires(spawn, (t, p)),
        ensures
            final(self).wf(),
            final(self).phase() == ready_step(old(self).phase(), readiness),
            started == (old(self).phase() != Phase::Ongoing && readiness is Some),
            !started ==> *final(self) == *old(self),
            started ==> match *final(self) {
                BackgroundTask::Ongoing { progress, join_handle } => {
                    &&& progress.initial().count == 0
                    &&& progress.initial().elapsed_ms == 0
                    &&& progress.initial().expected_len == nat_of(readiness->0)
                    &&& join_handle is Some
                    &&& call_ensures(spawn, (old(self).pending_task(), progress), join_handle->0)
                },
                _ => false,
            },
    {
        let steps = match readiness {
            Some(steps) => steps,
            None => return false,
        };
        if let BackgroundTask::Ongoing { .. } = self {
            return false;
        }
        let progress = Progress::new(steps);
        let mut previous = BackgroundTask::Ongoing { progress: progress.share(), join_handle: None };
        std::mem::swap(self, &mut previous);
        let task = match previous {
            BackgroundTask::Starting { task } => task,
            BackgroundTask::Finished { task, .. } => task,
            BackgroundTask::Ongoing { .. } => {
                proof {
                    assert(false);
                }
                return false;
            },
        };
        let handle = spawn(task, progress.share());
        *self = BackgroundTask::Ongoing { progress, join_handle: Some(handle) };
        true
    }

    /// Polls the task for readiness and starts a run where it says so; see
    /// `start_if_ready`. While a run is going on the task is not polled and
    /// nothing changes.
    pub fn poll_ready<S>(&mut self, spawn: S) -> (started: bool)
        where
            S: FnOnce(T, Progress) -> H,
        requires
            old(self).wf(),
            forall|t: T, p: Progress| call_requires(spawn, (t, p)),
        ensures
            final(self).wf(),
            started == (final(self).phase() != old(self).phase()),
            !started ==> *final(self) == *old(self),
            started ==> old(self).phase() != Phase::Ongoing,
            old(self).phase() != Phase::Ongoing ==> exists|r: Option<Option<usize>>| {
                &&& call_ensures(T::exec_with_expected_steps, (&old(self).pending_task(),), r)
                &&& started == (r is Some)
                &&& started ==> final(self)->progress.initial().expected_len == nat_of(r->0)
            },
            started ==> match *final(self) {
                BackgroundTask::Ongoing { progress, join_handle } => {
                    &&& progress.initial().count == 0
                    &&& progress.initial().elapsed_ms == 0
                    &&& join_handle is Some
                    &&& call_ensures(spawn, (old(self).pending_task(), progress), join_handle->0)
                },
                _ => false,
            },
    {
        let readiness = match self {
            BackgroundTask::Starting { task } => task.exec_with_expected_steps(),
            BackgroundTask::Finished { task, .. } => task.exec_with_expected_steps(),
            BackgroundTask::Ongoing { .. } => None,
        };
        self.start_if_ready(readiness, spawn)
    }

    /// Harvests the run that is going on, where its worker is done.
    ///
    /// In `Ongoing`, `is_finished` is asked once, without waiting, whether the
    /// worker is done; where it is, the worker is handed to `join` exactly
    /// once, and the state becomes `Finished` with what `join` returned (a
    /// failure without a description gets `UNDESCRIBED_FAILURE`) and default
    /// parameters for the next run. In any other case nothing changes.
    pub fn poll_result<F, J>(&mut self, is_finished: F, join: J) -> (done: bool)
        where
            F: Fn(&H) -> bool,
            J: FnOnce(H) -> Result<T::Return, String>,
        requires
            old(self).wf(),
            forall|h: &H| call_requires(is_finished, (h,)),
            forall|h: H| call_requires(join, (h,)),
        ensures
            final(self).wf(),
            final(self).phase() == result_step(old(self).phase(), done),
            !done ==> *final(self) == *old(self),
            done ==> old(self).phase() == Phase::Ongoing,
            old(self).phase() == Phase::Ongoing ==> call_ensures(is_finished, (&old(self).worker(),), done),
            done ==> match *final(self) {
                BackgroundTask::Finished { result, task } => {
                    &&& result is Err ==> result->Err_0@.len() > 0
                    &&& exists|joined: Result<T::Return, String>|
                        call_ensures(join, (old(self).worker(),), joined) && kept_as(joined, result)
                    &&& call_ensures(T::default, (), task)
                },
                _ => false,
            },
    {
        let finished = match self {
            BackgroundTask::Ongoing { join_handle: Some(h), .. } => is_finished(h),
            _ => false,
        };
        if !finished {
            return false;
        }
        let mut previous = BackgroundTask::Starting { task: T::default() };
        std::mem::swap(self, &mut previous);
        match previous {
            BackgroundTask::Ongoing { join_handle: Some(h), .. } => {
                let result = describe_failure(join(h));
                *self = BackgroundTask::Finished { result, task: T::default() };
                true
            },
            _ => {
                proof {
                    assert(false);
                }
                false
            },
        }
    }

    /// What to show of the task, read without waiting on the worker.
    pub fn status(&self) -> (r: TaskStatus<'_, T::Return>)
        ensures
            match *self {
                BackgroundTask::Starting { .. } => r is Inactive,
                BackgroundTask::Ongoing { progress, .. } => r matches TaskStatus::Running(o) && (o matches Some(
                    st,
                ) ==> st@.expected_len == progress.initial().expected_len && st@.start == progress.initial().start),
                BackgroundTask::Finished { result, .. } => r == TaskStatus::Done(&result),
            },
    {
        match self {
            BackgroundTask::Starting { .. } => TaskStatus::Inactive,
            BackgroundTask::Ongoing { progress, .. } => TaskStatus::Running(progress.snapshot()),
            BackgroundTask::Finished { result, .. } => TaskStatus::Done(result),
        }
    }
}

impl<T: Task, H> Default for BackgroundTask<T, H> {
    fn default() -> (r: Self)
        ensures
            r is Starting,
            r.wf(),
            call_ensures(T::default, (), r.pending_task()),
    {
        BackgroundTask::new()
    }
}

/// What a poll hands the machine: a readiness outcome, or whether the
/// worker was seen done.
pub ghost enum PollEvent {
    Ready(Option<Option<usize>>),
    Result(bool),
}

pub open spec fn event_step(p: Phase, e: PollEvent) -> Phase {
    match e {
        PollEvent::Ready(r) => ready_step(p, r),
        PollEvent::Result(done) => result_step(p, done),
    }
}

/// Whether the event starts a worker in phase `p`.
pub open spec fn spawns(p: Phase, e: PollEvent) -> bool {
    p != Phase::Ongoing && e matches PollEvent::Ready(Some(_))
}

/// Whether the event joins the worker in phase `p`.
pub open spec fn joins(p: Phase, e: PollEvent) -> bool {
    p == Phase::Ongoing && e == PollEvent::Result(true)
}

/// The phase after the events, one by one from `p`.
pub open spec fn phase_after(p: Phase, es: Seq<PollEvent>) -> Phase
    decreases es.len(),
{
    if es.len() == 0 {
        p
    } else {
        event_step(phase_after(p, es.drop_last()), es.last())
    }
}

/// How many workers the events start, from phase `p`.
pub open spec fn spawn_count(p: Phase, es: Seq<PollEvent>) -> nat
    decreases es.len(),
{
    if es.len() == 0 {
        0
    } else {
        spawn_count(p, es.drop_last()) + if spawns(phase_after(p, es.drop_last()), es.last()) {
            1nat
        } else {
            0nat
        }
    }
}

/// How many workers the events join, from phase `p`.
pub open spec fn join_count(p: Phase, es: Seq<PollEvent>) -> nat
    decreases es.len(),
{
    if es.len() == 0 {
        0
    } else {
        join_count(p, es.drop_last()) + if joins(phase_after(p, es.drop_last()), es.last()) {
            1nat
        } else {
            0nat
        }
    }
}

/// Readiness polls alone, from `Starting`: the machine stays in `Starting`
/// while every outcome is `None`, and is `Ongoing` from the first `Some` on.
pub proof fn lemma_starts_on_first_ready(rs: Seq<Option<Option<usize>>>)
    ensures
        phase_after(Phase::Starting, rs.map_values(|r| PollEvent::Ready(r))) == if exists|i: int|
            0 <= i < rs.len() && rs[i] is Some {
            Phase::Ongoing
        } else {
            Phase::Starting
        },
    decreases rs.len(),
{
    let es = rs.map_values(|r| PollEvent::Ready(r));
    if rs.len() > 0 {
        let front = rs.drop_last();
        lemma_starts_on_first_ready(front);
        assert(es.drop_last() =~= front.map_values(|r| PollEvent::Ready(r)));
        if exists|i: int| 0 <= i < front.len() && front[i] is Some {
            let i = choose|i: int| 0 <= i < front.len() && front[i] is Some;
            assert(rs[i] is Some);
        }
        if exists|i: int| 0 <= i < rs.len() && rs[i] is Some {
            let i = choose|i: int| 0 <= i < rs.len() && rs[i] is Some;
            if i < front.len() {
                assert(front[i] is Some);
            }
        }
    }
}

/// Every worker that is started is joined exactly once: from `Starting`,
/// after any events, the workers started are those joined plus the one that
/// is running, if any.
pub proof fn lemma_one_join_per_worker(es: Seq<PollEvent>)
    ensures
        spawn_count(Phase::Starting, es) == join_count(Phase::Starting, es) + if phase_after(
            Phase::Starting,
            es,
        ) == Phase::Ongoing {
            1nat
        } else {
            0nat
        },
    decreases es.len(),
{
    if es.len() > 0 {
        lemma_one_join_per_worker(es.drop_last());
    }
}

/// Once a run is over, polls that bring no readiness outcome `Some` leave the
/// machine in `Finished`, and start or join nothing.
pub proof fn lemma_finished_is_stable(es: Seq<PollEvent>)
    requires
        forall|i: int| 0 <= i < es.len() ==> !(#[trigger] es[i] matches PollEvent::Ready(Some(_))),
    ensures
        phase_after(Phase::Finished, es) == Phase::Finished,
        spawn_count(Phase::Finished, es) == 0,
        join_count(Phase::Finished, es) == 0,
    decreases es.len(),
{
    if es.len() > 0 {
        lemma_finished_is_stable(es.drop_last());
    }
}

} // verus!
