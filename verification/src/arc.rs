//! An atomically reference-counted shared-ownership block.
//!
//! A running implementation allocates one block per `new`, holding a counter
//! and the payload; handles are pointers to the block, cloning increments the
//! counter (relaxed), destruction decrements it (release), and the payload is
//! finalized when — and only when — the counter falls from one to zero, under
//! an acquire fence. What makes that protocol correct is the counter
//! bookkeeping, and that is what this module states and proves: the block is
//! modelled as a value carrying its counter and its payload, each handle
//! operation is a contracted transition on it, and
//! [`lemma_finalize_exactly_once`] shows that every allowed interleaving of
//! clone and destroy finalizes the payload exactly once, at the destruction
//! of the last handle and never before.

use vstd::prelude::*;

verus! {

/// The largest number of handles a block may reach before a further clone
/// must terminate the process: letting the counter wrap would corrupt the
/// ownership accounting and permit a premature free.
pub const MAX_HANDLES: usize = usize::MAX / 2;

/// A shared-ownership block: the handle counter together with the payload it
/// guards. The payload is present exactly while at least one handle exists.
pub struct Arc<T> {
    count: usize,
    payload: Option<T>,
}

impl<T> Arc<T> {
    /// How many handles to the block are outstanding.
    pub closed spec fn handle_count(&self) -> nat {
        self.count as nat
    }

    /// The payload, until the last handle has been destroyed.
    pub closed spec fn value(&self) -> Option<T> {
        self.payload
    }

    /// The block's invariant: the payload lives exactly as long as a handle
    /// does.
    pub open spec fn wf(&self) -> bool {
        self.value() is Some <==> self.handle_count() >= 1
    }

    /// Allocate a block with one handle.
    pub fn new(data: T) -> (a: Arc<T>)
        ensures
            a.wf(),
            a.handle_count() == 1,
            a.value() == Some(data),
    {
        Arc { count: 1, payload: Some(data) }
    }

    /// Clone a handle: one more owner of the same block.
    ///
    /// A clone that would push the counter past [`MAX_HANDLES`] terminates
    /// the whole process rather than wrap around, so that bound is demanded
    /// here rather than handled.
    pub fn clone_handle(&mut self)
        requires
            old(self).wf(),
            old(self).handle_count() >= 1,
            old(self).handle_count() <= MAX_HANDLES,
        ensures
            final(self).wf(),
            final(self).handle_count() == old(self).handle_count() + 1,
            final(self).value() == old(self).value(),
    {
        self.count = self.count + 1;
    }

    /// Destroy a handle. When the last one goes, the payload is surrendered
    /// to be finalized — exactly once, and only at that moment; with other
    /// handles still out, the block keeps it.
    pub fn drop_handle(&mut self) -> (finalized: Option<T>)
        requires
            old(self).wf(),
            old(self).handle_count() >= 1,
        ensures
            final(self).wf(),
            final(self).handle_count() == old(self).handle_count() - 1,
            old(self).handle_count() == 1 ==> finalized == old(self).value()
                && final(self).value() is None,
            old(self).handle_count() > 1 ==> finalized is None
                && final(self).value() == old(self).value(),
    {
        self.count = self.count - 1;
        if self.count == 0 {
            self.payload.take()
        } else {
            None
        }
    }

    /// Read the shared payload through a handle.
    pub fn read(&self) -> (r: &T)
        requires
            self.wf(),
            self.handle_count() >= 1,
        ensures
            self.value() == Some(*r),
    {
        self.payload.as_ref().unwrap()
    }

    /// Exclusive access to the payload, granted only when exactly one handle
    /// exists; with the counter above one some other handle could observe
    /// the payload, and no view is handed out.
    pub fn get_mut(arc: &mut Arc<T>) -> (r: Option<&mut T>)
        requires
            old(arc).wf(),
            old(arc).handle_count() >= 1,
        ensures
            r is Some <==> old(arc).handle_count() == 1,
            final(arc).wf(),
            final(arc).handle_count() == old(arc).handle_count(),
            r is None ==> final(arc).value() == old(arc).value(),
            r matches Some(v) ==> old(arc).value() == Some(*v)
                && final(arc).value() == Some(*final(v)),
    {
        if arc.count == 1 {
            Some(arc.payload.as_mut().unwrap())
        } else {
            None
        }
    }
}

/// One handle operation in a history: a clone or a destruction.
pub enum HandleEvent {
    Clone,
    Destroy,
}

/// Whether the operation is possible at a given counter value: both act
/// through an existing handle, and a clone past [`MAX_HANDLES`] terminates
/// the process instead of continuing the history.
pub open spec fn handle_step_allowed(count: nat, e: HandleEvent) -> bool {
    match e {
        HandleEvent::Clone => 1 <= count <= MAX_HANDLES,
        HandleEvent::Destroy => count >= 1,
    }
}

/// The counter after one operation.
pub open spec fn handle_step(count: nat, e: HandleEvent) -> nat {
    match e {
        HandleEvent::Clone => count + 1,
        HandleEvent::Destroy => (count - 1) as nat,
    }
}

/// The operation that finalizes the payload: the destruction that takes the
/// counter from one to zero.
pub open spec fn step_finalizes(count: nat, e: HandleEvent) -> bool {
    e is Destroy && count == 1
}

/// Every operation of the history is possible when its turn comes.
pub open spec fn handle_trace_allowed(count: nat, es: Seq<HandleEvent>) -> bool
    decreases es.len(),
{
    es.len() == 0 || (handle_step_allowed(count, es.first()) && handle_trace_allowed(
        handle_step(count, es.first()),
        es.drop_first(),
    ))
}

/// The counter after the whole history.
pub open spec fn count_after(count: nat, es: Seq<HandleEvent>) -> nat
    decreases es.len(),
{
    if es.len() == 0 {
        count
    } else {
        count_after(handle_step(count, es.first()), es.drop_first())
    }
}

/// How many operations of the history finalized the payload.
pub open spec fn finalize_count(count: nat, es: Seq<HandleEvent>) -> nat
    decreases es.len(),
{
    if es.len() == 0 {
        0
    } else {
        (if step_finalizes(count, es.first()) {
            1nat
        } else {
            0nat
        }) + finalize_count(handle_step(count, es.first()), es.drop_first())
    }
}

/// Once the counter has reached zero no clone or destroy is possible any
/// more — every operation acts through an existing handle — so the
/// destruction that finalizes the payload is necessarily the last event of
/// the block's history.
pub proof fn lemma_dead_block_has_no_history(es: Seq<HandleEvent>)
    requires
        handle_trace_allowed(0, es),
    ensures
        es.len() == 0,
{
}

/// However clone and destroy interleave on a live block, the payload is
/// finalized exactly once if the history destroys the last handle, and not
/// at all as long as one remains — never twice, never early, never omitted.
/// Applied to a prefix of a history, the same statement says no finalize
/// happens before the last destruction.
pub proof fn lemma_finalize_exactly_once(count: nat, es: Seq<HandleEvent>)
    requires
        count >= 1,
        handle_trace_allowed(count, es),
    ensures
        finalize_count(count, es) == if count_after(count, es) == 0 {
            1nat
        } else {
            0nat
        },
    decreases es.len(),
{
    if es.len() != 0 {
        let next = handle_step(count, es.first());
        let rest = es.drop_first();
        if step_finalizes(count, es.first()) {
            lemma_dead_block_has_no_history(rest);
            assert(next == 0);
            assert(finalize_count(next, rest) == 0);
            assert(count_after(next, rest) == 0);
        } else {
            assert(next >= 1);
            lemma_finalize_exactly_once(next, rest);
        }
    }
}

} // verus!
