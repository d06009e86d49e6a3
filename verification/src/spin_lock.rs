//! A busy-wait mutual-exclusion lock over a protected value.
//!
//! A running spin lock keeps the value in shared storage behind an atomic
//! flag: `lock` test-and-sets the flag (acquire) until it observes it clear,
//! and the guard clears it again (release) when the critical section ends.
//! The model here keeps the same protocol with the flag as a plain boolean:
//! while a [`Guard`] is out, the lock is flagged and the value is held by the
//! guard alone, so a second guard cannot be constructed.
//!
//! The module also proves the property the lock exists for: in any
//! interleaving of complete lock/increment/unlock rounds, no increment is
//! ever lost ([`lemma_rounds_count`], [`lemma_counter_n_times_m`]).

use vstd::prelude::*;

verus! {

/// Mutual exclusion over a value of type `T`.
pub struct SpinLock<T> {
    locked: bool,
    value: Option<T>,
}

/// Exclusive access to the value protected by a [`SpinLock`].
///
/// The guard's existence is the proof of exclusivity: the lock hands the
/// value itself out with the guard and takes both back in
/// [`SpinLock::unlock`], so no second guard can exist for the same lock. A
/// running implementation releases the flag in the guard's destructor, on
/// every exit from the critical section, normal or abnormal.
pub struct Guard<T> {
    value: T,
}

impl<T> SpinLock<T> {
    /// The lock flag: true exactly while a guard is outstanding.
    pub closed spec fn is_locked(&self) -> bool {
        self.locked
    }

    /// The value currently in the lock's storage (nothing while a guard
    /// holds it).
    pub closed spec fn stored(&self) -> Option<T> {
        self.value
    }

    /// The flag and the storage agree: the value is out exactly while the
    /// lock is flagged.
    pub open spec fn wf(&self) -> bool {
        self.is_locked() <==> self.stored() is None
    }

    /// A fresh, unlocked lock protecting `value`.
    pub fn new(value: T) -> (lock: SpinLock<T>)
        ensures
            lock.wf(),
            !lock.is_locked(),
            lock.stored() == Some(value),
    {
        SpinLock { locked: false, value: Some(value) }
    }

    /// Acquire the lock and take exclusive access to the value.
    ///
    /// A running system spins on the flag until it observes it clear; the
    /// call cannot fail, it can only wait. Under exclusive access to the lock
    /// the flag must already be clear, since the one guard that could clear
    /// it again would otherwise never come back: a flagged lock here is the
    /// spin that never ends.
    pub fn lock(&mut self) -> (guard: Guard<T>)
        requires
            old(self).wf(),
            !old(self).is_locked(),
        ensures
            final(self).wf(),
            final(self).is_locked(),
            old(self).stored() == Some(guard.value()),
    {
        self.locked = true;
        let v = self.value.take();
        Guard { value: v.unwrap() }
    }

    /// Release the lock, returning the (possibly updated) value to storage.
    pub fn unlock(&mut self, guard: Guard<T>)
        requires
            old(self).wf(),
            old(self).is_locked(),
        ensures
            final(self).wf(),
            !final(self).is_locked(),
            final(self).stored() == Some(guard.value()),
    {
        self.value = Some(guard.value);
        self.locked = false;
    }
}

impl<T> Guard<T> {
    /// The value the guard holds.
    pub closed spec fn value(&self) -> T {
        self.value
    }

    /// Read the protected value.
    pub fn get(&self) -> (r: &T)
        ensures
            *r == self.value(),
    {
        &self.value
    }

    /// Write access to the protected value.
    pub fn get_mut(&mut self) -> (r: &mut T)
        ensures
            *r == old(self).value(),
            final(self).value() == *final(r),
    {
        &mut self.value
    }

    /// Replace the protected value.
    pub fn set(&mut self, value: T)
        ensures
            final(self).value() == value,
    {
        self.value = value;
    }
}

/// One scheduling event in a history of threads contending for a lock that
/// protects a counter: thread `t` acquires the lock, loads the counter into
/// its private register, stores the incremented register back, or releases
/// the lock. Load and store are kept separate so that a lost update — two
/// threads loading the same value and each storing it plus one — is
/// expressible, and provably excluded by the lock discipline.
pub enum LockEvent {
    Acquire(int),
    Load(int),
    Store(int),
    Release(int),
}

/// The state a history of [`LockEvent`]s acts on: which thread holds the
/// lock, the shared counter, and each thread's private register.
pub struct LockHistory {
    pub holder: Option<int>,
    pub counter: nat,
    pub regs: Map<int, nat>,
}

/// The lock discipline: only one thread holds the lock at a time, and only
/// the holder may touch the counter. This is exactly what the exec interface
/// enforces — [`SpinLock::lock`] is the acquire, the guard's accessors are
/// the loads and stores, and [`SpinLock::unlock`] is the release.
pub open spec fn step_allowed(s: LockHistory, e: LockEvent) -> bool {
    match e {
        LockEvent::Acquire(t) => s.holder is None,
        LockEvent::Load(t) => s.holder == Some(t),
        LockEvent::Store(t) => s.holder == Some(t),
        LockEvent::Release(t) => s.holder == Some(t),
    }
}

/// The effect of one event on the shared state.
pub open spec fn step(s: LockHistory, e: LockEvent) -> LockHistory {
    match e {
        LockEvent::Acquire(t) => LockHistory { holder: Some(t), counter: s.counter, regs: s.regs },
        LockEvent::Load(t) => LockHistory {
            holder: s.holder,
            counter: s.counter,
            regs: s.regs.insert(t, s.counter),
        },
        LockEvent::Store(t) => LockHistory {
            holder: s.holder,
            counter: (s.regs[t] + 1) as nat,
            regs: s.regs,
        },
        LockEvent::Release(t) => LockHistory { holder: None, counter: s.counter, regs: s.regs },
    }
}

/// Every event of the history respects the lock discipline.
pub open spec fn trace_allowed(s: LockHistory, es: Seq<LockEvent>) -> bool
    decreases es.len(),
{
    es.len() == 0 || (step_allowed(s, es.first()) && trace_allowed(
        step(s, es.first()),
        es.drop_first(),
    ))
}

/// The state after the whole history has run.
pub open spec fn run(s: LockHistory, es: Seq<LockEvent>) -> LockHistory
    decreases es.len(),
{
    if es.len() == 0 {
        s
    } else {
        run(step(s, es.first()), es.drop_first())
    }
}

/// One complete critical section of thread `t`: acquire, read the counter,
/// write it back incremented, release.
pub open spec fn round(t: int) -> Seq<LockEvent> {
    seq![LockEvent::Acquire(t), LockEvent::Load(t), LockEvent::Store(t), LockEvent::Release(t)]
}

/// A history made of complete rounds, one per entry of `tids`, in that order.
/// Because the guard keeps the four events of a round contiguous, every
/// schedule of competing threads is some such sequence of rounds; `tids`
/// ranges over all of them.
pub open spec fn rounds(tids: Seq<int>) -> Seq<LockEvent>
    decreases tids.len(),
{
    if tids.len() == 0 {
        Seq::empty()
    } else {
        round(tids.first()) + rounds(tids.drop_first())
    }
}

proof fn lemma_run_append(s: LockHistory, a: Seq<LockEvent>, b: Seq<LockEvent>)
    ensures
        run(s, a + b) == run(run(s, a), b),
        trace_allowed(s, a + b) <==> (trace_allowed(s, a) && trace_allowed(run(s, a), b)),
    decreases a.len(),
{
    if a.len() == 0 {
        assert(a + b =~= b);
    } else {
        assert((a + b).first() == a.first());
        assert((a + b).drop_first() =~= a.drop_first() + b);
        lemma_run_append(step(s, a.first()), a.drop_first(), b);
    }
}

proof fn lemma_round_adds_one(s: LockHistory, t: int)
    requires
        s.holder is None,
    ensures
        trace_allowed(s, round(t)),
        run(s, round(t)).holder is None,
        run(s, round(t)).counter == s.counter + 1,
{
    let es = round(t);
    let e1 = es.drop_first();
    let e2 = e1.drop_first();
    let e3 = e2.drop_first();
    let e4 = e3.drop_first();
    assert(e1 =~= seq![LockEvent::Load(t), LockEvent::Store(t), LockEvent::Release(t)]);
    assert(e2 =~= seq![LockEvent::Store(t), LockEvent::Release(t)]);
    assert(e3 =~= seq![LockEvent::Release(t)]);
    assert(e4 =~= Seq::<LockEvent>::empty());
    assert(es.first() == LockEvent::Acquire(t));
    assert(e1.first() == LockEvent::Load(t));
    assert(e2.first() == LockEvent::Store(t));
    assert(e3.first() == LockEvent::Release(t));
    let s1 = step(s, LockEvent::Acquire(t));
    let s2 = step(s1, LockEvent::Load(t));
    let s3 = step(s2, LockEvent::Store(t));
    let s4 = step(s3, LockEvent::Release(t));
    assert(s2.regs[t] == s.counter);
    assert(s4.counter == s.counter + 1);
    assert(s4.holder is None);
    assert(trace_allowed(s4, e4));
    assert(trace_allowed(s3, e3));
    assert(trace_allowed(s2, e2));
    assert(trace_allowed(s1, e1));
    assert(trace_allowed(s, es));
    assert(run(s4, e4) == s4);
    assert(run(s3, e3) == s4);
    assert(run(s2, e2) == s4);
    assert(run(s1, e1) == s4);
    assert(run(s, es) == s4);
}

/// No lost updates: however the threads interleave, a history of complete
/// rounds raises the counter by exactly the number of rounds, and leaves the
/// lock free.
pub proof fn lemma_rounds_count(s: LockHistory, tids: Seq<int>)
    requires
        s.holder is None,
    ensures
        trace_allowed(s, rounds(tids)),
        run(s, rounds(tids)).holder is None,
        run(s, rounds(tids)).counter == s.counter + tids.len(),
    decreases tids.len(),
{
    if tids.len() != 0 {
        lemma_round_adds_one(s, tids.first());
        lemma_run_append(s, round(tids.first()), rounds(tids.drop_first()));
        lemma_rounds_count(run(s, round(tids.first())), tids.drop_first());
    }
}

/// N threads each incrementing a shared counter M times under the lock end
/// at exactly N×M, whatever order they won the lock in.
pub proof fn lemma_counter_n_times_m(s: LockHistory, tids: Seq<int>, n: nat, m: nat)
    requires
        s.holder is None,
        s.counter == 0,
        tids.len() == n * m,
    ensures
        trace_allowed(s, rounds(tids)),
        run(s, rounds(tids)).counter == n * m,
{
    lemma_rounds_count(s, tids);
}

} // verus!
