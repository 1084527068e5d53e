use std::ops::{Deref, DerefMut};
use std::sync::{Arc, Mutex, MutexGuard};
use std::time::{Duration, Instant};
use vstd::prelude::*;

verus! {

/// `std::time::Instant`, carried through opaque.
#[verifier::external_type_specification]
#[verifier::external_body]
pub struct ExInstant(std::time::Instant);

/// Relies on `Instant::now`: a reading of the monotonic clock; nothing is known of its value.
pub assume_specification[ Instant::now ]() -> Instant;

/// Relies on `Instant::elapsed`: the time since the instant; nothing is known of its value.
pub assume_specification[ Instant::elapsed ](i: &Instant) -> Duration;

/// Relies on `Duration::as_millis`: the whole milliseconds of the duration;
/// nothing is stated of its value here.
pub assume_specification[ Duration::as_millis ](d: &Duration) -> u128;

/// Counter and timer of one run. Written by the worker thread only.
#[derive(Clone, Copy)]
pub struct SynchedStats {
    count: usize,
    expected_len: Option<usize>,
    start: Instant,
    elapsed_ms: u128,
}

/// What a reader of the statistics sees: how many ticks were made, how many
/// were announced, when the run began, and how long it had run at the last
/// tick, in milliseconds.
pub ghost struct StatsView {
    pub count: nat,
    pub expected_len: Option<nat>,
    pub start: Instant,
    pub elapsed_ms: nat,
}

pub open spec fn nat_of(o: Option<usize>) -> Option<nat> {
    match o {
        Some(n) => Some(n as nat),
        None => None,
    }
}

/// The statistics after `k` more ticks, the last of them `elapsed_ms`
/// milliseconds into the run.
pub open spec fn after_ticks(s: StatsView, k: nat, elapsed_ms: nat) -> StatsView {
    StatsView { count: s.count + k, elapsed_ms, ..s }
}

/// The share of the announced work that is done, in thousandths, where a
/// positive number of ticks was announced; more ticks than announced count
/// as all of it.
pub open spec fn per_mille(s: StatsView) -> Option<nat> {
    match s.expected_len {
        Some(n) => if n > 0 {
            Some((if s.count < n { s.count } else { n }) * 1000 / n)
        } else {
            None
        },
        None => None,
    }
}

/// Over one run the count only grows, and where `n` ticks were announced and
/// at most `n` (positive) were made, it stays within `0..=n` and a fraction
/// of it can be given.
pub proof fn lemma_count_within_expected(s: StatsView, n: nat, j: nat, k: nat, tj: nat, tk: nat)
    requires
        s.count == 0,
        s.expected_len == Some(n),
        n > 0,
        j <= k <= n,
    ensures
        after_ticks(s, j, tj).count <= after_ticks(s, k, tk).count <= n,
        after_ticks(s, k, tk).expected_len == Some(n),
        per_mille(after_ticks(s, k, tk)) is Some,
{
}

impl View for SynchedStats {
    type V = StatsView;

    closed spec fn view(&self) -> StatsView {
        StatsView {
            count: self.count as nat,
            expected_len: nat_of(self.expected_len),
            start: self.start,
            elapsed_ms: self.elapsed_ms as nat,
        }
    }
}

/// What statistics hold fits the machine: the count and the announced
/// length in a `usize`, the elapsed time in a `u128`.
pub proof fn lemma_stats_bounds(s: SynchedStats)
    ensures
        s@.count <= usize::MAX,
        s@.expected_len matches Some(n) ==> n <= usize::MAX,
        s@.elapsed_ms <= u128::MAX,
{
}

impl SynchedStats {
    /// Fresh statistics for a run that expects `expected_len` ticks
    /// (`None`: the number of steps is not known).
    pub fn new(expected_len: Option<usize>) -> (r: Self)
        ensures
            r@.count == 0,
            r@.expected_len == nat_of(expected_len),
            r@.elapsed_ms == 0,
    {
        let start = Instant::now();
        SynchedStats { count: 0, expected_len, start, elapsed_ms: 0 }
    }

    pub fn count(&self) -> (r: usize)
        ensures
            r == self@.count,
    {
        self.count
    }

    pub fn expected_len(&self) -> (r: Option<usize>)
        ensures
            nat_of(r) == self@.expected_len,
    {
        self.expected_len
    }

    /// The share of the announced work that is done, in thousandths; `None`
    /// where the number of steps is unknown or zero, so that no fraction is
    /// computed.
    pub fn fraction_per_mille(&self) -> (r: Option<usize>)
        ensures
            nat_of(r) == per_mille(self@),
    {
        match self.expected_len {
            Some(n) => if n > 0 {
                let done: usize = if self.count < n { self.count } else { n };
                let wide: u128 = done as u128 * 1000;
                assert(wide <= n * 1000) by (nonlinear_arith)
                    requires wide == done * 1000, done <= n;
                let q: u128 = wide / (n as u128);
                assert(q <= 1000) by (nonlinear_arith)
                    requires q == wide as int / n as int, wide <= n * 1000, n > 0;
                Some(q as usize)
            } else {
                None
            },
            None => None,
        }
    }

    /// How long the run had gone on at the last tick, in milliseconds.
    pub fn elapsed_ms(&self) -> (r: u128)
        ensures
            r == self@.elapsed_ms,
    {
        self.elapsed_ms
    }

    /// One unit of work is done: the count goes up by one and the elapsed
    /// time is refreshed.
    pub fn tick(&mut self)
        requires
            old(self)@.count < usize::MAX,
        ensures
            final(self)@ == after_ticks(old(self)@, 1, final(self)@.elapsed_ms),
    {
        self.count = self.count + 1;
        self.elapsed_ms = self.start.elapsed().as_millis();
    }

    /// Ticks where the count can still grow; at `usize::MAX` nothing changes.
    pub fn tick_saturating(&mut self)
        ensures
            old(self)@.count < usize::MAX ==> final(self)@ == after_ticks(old(self)@, 1, final(self)@.elapsed_ms),
            old(self)@.count == usize::MAX ==> *final(self) == *old(self),
    {
        if self.count < usize::MAX {
            self.tick();
        }
    }
}

/// `std::sync::Mutex`, carried through opaque.
#[verifier::external_type_specification]
#[verifier::external_body]
#[verifier::reject_recursive_types(T)]
pub struct ExMutex<T: ?Sized>(std::sync::Mutex<T>);

/// `std::sync::MutexGuard`, carried through opaque; dropping it unlocks.
#[verifier::external_type_specification]
#[verifier::external_body]
#[verifier::reject_recursive_types(T)]
pub struct ExMutexGuard<'a, T: ?Sized + 'a>(std::sync::MutexGuard<'a, T>);

/// Relies on `Mutex::new`: a fresh, unlocked mutex around the value.
pub assume_specification<T>[ Mutex::<T>::new ](t: T) -> Mutex<T>;

/// Relies on `MutexGuard`'s `Deref`: a view of the value under the lock.
pub assume_specification<'a, 'b, T: ?Sized>[ <MutexGuard<'a, T> as Deref>::deref ](g: &'b MutexGuard<'a, T>) -> &'b T;

/// Relies on `MutexGuard`'s `DerefMut`: the value under the lock, to be changed in place.
pub assume_specification<'a, 'b, T: ?Sized>[ <MutexGuard<'a, T> as DerefMut>::deref_mut ](g: &'b mut MutexGuard<'a, T>) -> &'b mut T;

/// Relies on `Mutex::lock`: waits until the lock is free; `None` where it is poisoned.
#[verifier::external_body]
fn lock_tally(m: &Mutex<Tally>) -> Option<MutexGuard<'_, Tally>> {
    m.lock().ok()
}

/// Relies on `Mutex::try_lock`: takes the lock only where it is free right now;
/// `None` where it is held or poisoned.
#[verifier::external_body]
fn try_lock_tally(m: &Mutex<Tally>) -> Option<MutexGuard<'_, Tally>> {
    m.try_lock().ok()
}

/// Relies on `Arc::clone`: a second handle on the same mutex.
#[verifier::external_body]
fn share_tally(a: &Arc<Mutex<Tally>>) -> (r: Arc<Mutex<Tally>>)
    ensures
        r == *a,
{
    Arc::clone(a)
}

/// The part of a run's statistics that changes as it goes: the ticks made
/// and the time of the last one. The only state under the lock.
#[derive(Clone, Copy)]
struct Tally {
    count: usize,
    elapsed_ms: u128,
}

/// Handle on the statistics of one run, shared between the worker thread,
/// which ticks it, and the controller, which only reads it. The announced
/// length and the start of the run are fixed when the handle is made and
/// sit beside the lock; only the tally is under it.
pub struct Progress {
    shared: Arc<Mutex<Tally>>,
    expected_len: Option<usize>,
    start: Instant,
    created_with: Ghost<(nat, nat)>,
}

impl Progress {
    /// The statistics that this handle was created with. The announced length
    /// and the start hold for the whole run; the count and the elapsed time
    /// are those the lock was filled with when the handle was made (what it
    /// holds later is written by the worker alone, and is not tracked).
    pub closed spec fn initial(&self) -> StatsView {
        StatsView {
            count: self.created_with@.0,
            expected_len: nat_of(self.expected_len),
            start: self.start,
            elapsed_ms: self.created_with@.1,
        }
    }

    /// A handle on fresh statistics, made from `SynchedStats::new(expected_len)`.
    pub fn new(expected_len: Option<usize>) -> (r: Progress)
        ensures
            r.initial().count == 0,
            r.initial().expected_len == nat_of(expected_len),
            r.initial().elapsed_ms == 0,
    {
        let stats = SynchedStats::new(expected_len);
        let tally = Tally { count: stats.count, elapsed_ms: stats.elapsed_ms };
        Progress {
            shared: Arc::new(Mutex::new(tally)),
            expected_len: stats.expected_len,
            start: stats.start,
            created_with: Ghost((0, 0)),
        }
    }

    /// A second handle on the same statistics, for the worker thread.
    pub fn share(&self) -> (r: Progress)
        ensures
            r == *self,
    {
        Progress {
            shared: share_tally(&self.shared),
            expected_len: self.expected_len,
            start: self.start,
            created_with: self.created_with,
        }
    }

    /// The statistics of this run, with the tally `t`.
    fn with_tally(&self, t: Tally) -> (r: SynchedStats)
        ensures
            r@.count == t.count,
            r@.elapsed_ms == t.elapsed_ms,
            r@.expected_len == self.initial().expected_len,
            r@.start == self.initial().start,
    {
        SynchedStats { count: t.count, expected_len: self.expected_len, start: self.start, elapsed_ms: t.elapsed_ms }
    }

    /// Records one unit of work, and returns the statistics it wrote. Called
    /// by the worker thread only; a poisoned lock gives `None` and changes
    /// nothing, and a count that cannot grow further stays as it is.
    pub fn increment(&self) -> (r: Option<SynchedStats>)
        ensures
            r matches Some(s) ==> {
                &&& s@.count >= 1
                &&& s@.expected_len == self.initial().expected_len
                &&& s@.start == self.initial().start
            },
    {
        match lock_tally(&self.shared) {
            Some(mut guard) => {
                let tally = guard.deref_mut();
                let mut stats = self.with_tally(*tally);
                stats.tick_saturating();
                *tally = Tally { count: stats.count, elapsed_ms: stats.elapsed_ms };
                Some(stats)
            },
            None => None,
        }
    }

    /// A copy of the statistics for display, taken without waiting: `None`
    /// where the worker holds the lock at this moment.
    pub fn snapshot(&self) -> (r: Option<SynchedStats>)
        ensures
            r matches Some(s) ==> {
                &&& s@.expected_len == self.initial().expected_len
                &&& s@.start == self.initial().start
            },
    {
        match try_lock_tally(&self.shared) {
            Some(guard) => Some(self.with_tally(*guard.deref())),
            None => None,
        }
    }
}

} // verus!
