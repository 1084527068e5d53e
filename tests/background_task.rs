use egui_inspect::background_task::{
    describe_failure, BackgroundTask, Progress, SynchedStats, Task, TaskStatus, UNDESCRIBED_FAILURE,
};

#[derive(Clone)]
struct Summation {
    iters: usize,
    announce: Option<usize>,
    panic_after: Option<usize>,
    ready: bool,
}

impl Default for Summation {
    fn default() -> Self {
        Summation { iters: 5, announce: Some(5), panic_after: None, ready: true }
    }
}

impl Task for Summation {
    type Return = u64;

    fn exec_with_expected_steps(&self) -> Option<Option<usize>> {
        if self.ready {
            Some(self.announce)
        } else {
            None
        }
    }

    fn on_exec(&mut self, progress: Progress) -> u64 {
        let mut sum = 0u64;
        for i in 0..self.iters {
            if self.panic_after == Some(i) {
                break;
            }
            progress.increment();
            sum += i as u64;
        }
        sum
    }
}

/// A worker that has run to its end: what joining it gives, and whether it
/// reports itself done yet.
struct Worker {
    outcome: Result<u64, String>,
    polls_left: std::cell::Cell<u32>,
}

type Machine = BackgroundTask<Summation, Worker>;

/// Runs the task at once; a task told to stop early stands for one that panicked there.
fn spawn(mut task: Summation, progress: Progress) -> Worker {
    let stop = task.panic_after;
    let value = task.on_exec(progress);
    let outcome = match stop {
        Some(n) => Err(format!("worker panicked after {n} steps")),
        None => Ok(value),
    };
    Worker { outcome, polls_left: std::cell::Cell::new(2) }
}

fn is_finished(w: &Worker) -> bool {
    let left = w.polls_left.get();
    if left == 0 {
        true
    } else {
        w.polls_left.set(left - 1);
        false
    }
}

fn join(w: Worker) -> Result<u64, String> {
    w.outcome
}

fn progress_of(m: &Machine) -> Progress {
    match m {
        BackgroundTask::Ongoing { progress, .. } => progress.share(),
        _ => panic!("not running"),
    }
}

fn run_to_end(m: &mut Machine) {
    for _ in 0..10 {
        if m.poll_result(is_finished, join) {
            return;
        }
        assert!(matches!(m, BackgroundTask::Ongoing { .. }));
    }
    panic!("the worker did not finish");
}

fn read(p: &Progress) -> SynchedStats {
    loop {
        if let Some(s) = p.snapshot() {
            return s;
        }
    }
}

#[test]
fn completes_with_all_ticks_counted() {
    let mut m = Machine::new();
    assert!(matches!(m, BackgroundTask::Starting { .. }));
    assert!(m.poll_ready(spawn));
    let p = progress_of(&m);
    run_to_end(&mut m);
    match &m {
        BackgroundTask::Finished { result, .. } => assert_eq!(result, &Ok(10)),
        _ => panic!("not finished"),
    }
    let s = read(&p);
    assert_eq!(s.count(), 5);
    assert_eq!(s.expected_len(), Some(5));
    assert_eq!(s.fraction_per_mille(), Some(1000));
}

#[test]
fn panic_becomes_failure() {
    let mut m: Machine = BackgroundTask::Starting {
        task: Summation { panic_after: Some(3), ..Summation::default() },
    };
    assert!(m.poll_ready(spawn));
    let p = progress_of(&m);
    run_to_end(&mut m);
    match &m {
        BackgroundTask::Finished { result, .. } => {
            let e = result.as_ref().unwrap_err();
            assert!(!e.is_empty());
        }
        _ => panic!("not finished"),
    }
    assert_eq!(read(&p).count(), 3);
}

#[test]
fn never_ready_never_spawns() {
    let mut m: Machine = BackgroundTask::Starting {
        task: Summation { ready: false, ..Summation::default() },
    };
    for _ in 0..100 {
        let started = m.poll_ready(|_t: Summation, _p: Progress| -> Worker {
            panic!("no worker may start")
        });
        assert!(!started);
        assert!(!m.poll_result(|_h: &Worker| true, join));
        assert!(matches!(m, BackgroundTask::Starting { .. }));
    }
}

#[test]
fn indeterminate_length_gives_no_fraction() {
    let mut m: Machine = BackgroundTask::Starting {
        task: Summation { announce: None, ..Summation::default() },
    };
    assert!(m.poll_ready(spawn));
    let p = progress_of(&m);
    run_to_end(&mut m);
    let s = read(&p);
    assert_eq!(s.count(), 5);
    assert_eq!(s.expected_len(), None);
    assert_eq!(s.fraction_per_mille(), None);
    let _ = s.elapsed_ms();
}

#[test]
fn restart_starts_from_zero() {
    let mut m = Machine::new();
    assert!(m.poll_ready(spawn));
    let first = progress_of(&m);
    run_to_end(&mut m);
    assert_eq!(read(&first).count(), 5);
    // the fresh default parameters are ready again; this worker has not begun
    assert!(m.poll_ready(|_t: Summation, _p: Progress| Worker {
        outcome: Ok(0),
        polls_left: std::cell::Cell::new(0),
    }));
    let second = progress_of(&m);
    assert_eq!(read(&second).count(), 0);
    assert_eq!(read(&second).expected_len(), Some(5));
    assert_eq!(read(&first).count(), 5);
    run_to_end(&mut m);
    assert!(matches!(m, BackgroundTask::Finished { result: Ok(0), .. }));
}

#[test]
fn polls_out_of_turn_change_nothing() {
    let mut m = Machine::new();
    // no run yet: nothing to harvest
    assert!(!m.poll_result(|_h: &Worker| true, join));
    assert!(matches!(m, BackgroundTask::Starting { .. }));
    assert!(m.poll_ready(spawn));
    // a run is going on: readiness is not asked again
    assert!(!m.poll_ready(|_t: Summation, _p: Progress| -> Worker {
        panic!("second worker")
    }));
    run_to_end(&mut m);
    // finished: further result polls leave it as it is
    for _ in 0..10 {
        assert!(!m.poll_result(|_h: &Worker| true, join));
        assert!(matches!(m, BackgroundTask::Finished { result: Ok(10), .. }));
    }
}

#[test]
fn finished_stays_without_readiness() {
    let mut m = Machine::new();
    assert!(m.poll_ready(spawn));
    run_to_end(&mut m);
    if let BackgroundTask::Finished { task, .. } = &mut m {
        task.ready = false;
    }
    for _ in 0..10 {
        assert!(!m.poll_ready(spawn));
        assert!(matches!(m, BackgroundTask::Finished { result: Ok(10), .. }));
    }
}

#[test]
fn start_if_ready_follows_the_outcome() {
    let mut m = Machine::new();
    assert!(!m.start_if_ready(None, spawn));
    assert!(matches!(m, BackgroundTask::Starting { .. }));
    assert!(m.start_if_ready(Some(Some(7)), spawn));
    let p = progress_of(&m);
    run_to_end(&mut m);
    let s = read(&p);
    assert_eq!(s.expected_len(), Some(7));
    assert_eq!(s.count(), 5);
    assert_eq!(s.fraction_per_mille(), Some(714));
}

#[test]
fn stats_tick_and_fraction() {
    let mut s = SynchedStats::new(Some(4));
    assert_eq!(s.count(), 0);
    assert_eq!(s.fraction_per_mille(), Some(0));
    s.tick();
    assert_eq!(s.count(), 1);
    assert_eq!(s.fraction_per_mille(), Some(250));
    for _ in 0..5 {
        s.tick();
    }
    assert_eq!(s.count(), 6);
    assert_eq!(s.fraction_per_mille(), Some(1000));
    let mut z = SynchedStats::new(Some(0));
    z.tick();
    assert_eq!(z.fraction_per_mille(), None);
}

#[test]
fn shared_handle_sees_increments() {
    let p = Progress::new(Some(3));
    let q = p.share();
    q.increment();
    q.increment();
    assert_eq!(read(&p).count(), 2);
    assert_eq!(read(&p).expected_len(), Some(3));
}

#[test]
fn status_follows_the_state() {
    let mut m = Machine::new();
    assert!(matches!(m.status(), TaskStatus::Inactive));
    assert!(m.poll_ready(spawn));
    assert!(matches!(m.status(), TaskStatus::Running(_)));
    run_to_end(&mut m);
    assert!(matches!(m.status(), TaskStatus::Done(Ok(10))));
}

#[test]
fn empty_failure_gets_a_description() {
    assert_eq!(describe_failure::<u64>(Ok(3)), Ok(3));
    assert_eq!(describe_failure::<u64>(Err("boom".to_string())), Err("boom".to_string()));
    assert_eq!(
        describe_failure::<u64>(Err(String::new())),
        Err(UNDESCRIBED_FAILURE.to_string())
    );
    let mut m = Machine::new();
    assert!(m.poll_ready(|_t: Summation, _p: Progress| Worker {
        outcome: Err(String::new()),
        polls_left: std::cell::Cell::new(0),
    }));
    run_to_end(&mut m);
    match &m {
        BackgroundTask::Finished { result: Err(d), .. } => assert_eq!(d, UNDESCRIBED_FAILURE),
        _ => panic!("not a failure"),
    }
}

#[test]
fn fresh_stats_have_no_time_elapsed() {
    let s = SynchedStats::new(None);
    assert_eq!(s.elapsed_ms(), 0);
    assert_eq!(s.count(), 0);
    let mut t = SynchedStats::new(Some(2));
    t.tick_saturating();
    assert_eq!(t.count(), 1);
}

#[test]
fn default_starts_with_default_parameters() {
    let m = Machine::default();
    match m {
        BackgroundTask::Starting { task } => {
            assert_eq!(task.iters, 5);
            assert!(task.ready);
        }
        _ => panic!("not starting"),
    }
}

#[test]
fn increment_returns_what_it_wrote() {
    let p = Progress::new(Some(2));
    let a = p.increment().unwrap();
    assert_eq!(a.count(), 1);
    assert_eq!(a.expected_len(), Some(2));
    let b = p.share().increment().unwrap();
    assert_eq!(b.count(), 2);
    let s = read(&p);
    assert_eq!(s.count(), 2);
    assert_eq!(s.expected_len(), Some(2));
}

#[test]
fn running_status_shows_the_announced_length() {
    let mut m: Machine = BackgroundTask::Starting {
        task: Summation { announce: Some(9), ..Summation::default() },
    };
    assert!(m.poll_ready(spawn));
    match m.status() {
        TaskStatus::Running(Some(s)) => {
            assert_eq!(s.expected_len(), Some(9));
            assert_eq!(s.count(), 5);
        }
        _ => panic!("expected a readable running status"),
    }
}
