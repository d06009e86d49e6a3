//! Message channels: a multi-use queue channel and three one-shot variants.
//!
//! Each one-shot variant realizes the same handoff contract — a slot written
//! once and read at most once, guarded by a `ready` flag — with a different
//! tradeoff: [`OneShotChannelWithPanic`] is a single caller-polled object
//! that treats misuse as a fatal violation; the shared-ownership pair
//! ([`SenderWithArc`], [`ReceiverWithArc`]) makes reuse impossible by
//! consuming single-use capabilities, with the slot's lifetime managed by
//! the reference-counted block of [`crate::arc`]; the borrow-scoped pair
//! ([`SenderWithBorrows`], [`ReceiverWithBorrows`]) borrows caller-owned
//! storage and wakes the receiving thread instead of being polled.
//!
//! In a running system the slot is shared storage, `ready` is an atomic flag
//! (release store on the sending side, acquire swap on the receiving side),
//! and the capabilities are what make a second send or receive unreachable.
//! The model keeps the slot as plain data and the capabilities as opaque
//! tokens, and carries two ghost history bits, `sent` and `received`, so
//! that every contract can say precisely where in its lifecycle a slot is:
//! `ready` holds if and only if a send has completed and no receive has yet
//! consumed the message.

use vstd::prelude::*;
use core::marker::PhantomData;

verus! {

/// A multi-use channel: a queue of messages protected by a lock, with a
/// condition variable to wake receivers. The model keeps the queue; the
/// blocking wait of a running receiver appears here as the demand that a
/// message be present, which is exactly the condition under which the wait
/// returns.
pub struct Channel<T> {
    queue: Vec<T>,
}

impl<T> View for Channel<T> {
    type V = Seq<T>;

    closed spec fn view(&self) -> Seq<T> {
        self.queue@
    }
}

impl<T> Channel<T> {
    /// An empty channel.
    pub fn new() -> (c: Channel<T>)
        ensures
            c@ == Seq::<T>::empty(),
    {
        Channel { queue: Vec::new() }
    }

    /// Enqueue a message and wake one waiting receiver.
    pub fn send(&mut self, message: T)
        ensures
            final(self)@ == old(self)@.push(message),
    {
        self.queue.push(message);
    }

    /// Dequeue the oldest message. A running receiver sleeps on the
    /// condition variable until the queue is non-empty; the demand below is
    /// the condition it wakes to.
    pub fn receive(&mut self) -> (message: T)
        requires
            old(self)@.len() > 0,
        ensures
            message == old(self)@.first(),
            final(self)@ == old(self)@.drop_first(),
    {
        self.queue.remove(0)
    }

    /// How many messages are waiting.
    pub fn len(&self) -> (n: usize)
        ensures
            n == self@.len(),
    {
        self.queue.len()
    }
}

/// The one-shot slot without separate capabilities: one object holding the
/// message cell and the `in_use`/`ready` flags. Misuse — a second send, or a
/// receive before a message is ready — is a fatal contract violation in a
/// running system, so the contracts here demand that it never happens.
pub struct OneShotChannelWithPanic<T> {
    message: Option<T>,
    in_use: bool,
    ready: bool,
    did_send: Ghost<bool>,
    did_receive: Ghost<bool>,
}

impl<T> OneShotChannelWithPanic<T> {
    /// Whether a send has completed on this slot.
    pub closed spec fn sent(&self) -> bool {
        self.did_send@
    }

    /// Whether a receive has consumed the message.
    pub closed spec fn received(&self) -> bool {
        self.did_receive@
    }

    /// The `ready` flag: the message is fully written and not yet consumed.
    pub closed spec fn ready(&self) -> bool {
        self.ready
    }

    /// What the slot holds.
    pub closed spec fn stored(&self) -> Option<T> {
        self.message
    }

    /// Whether a send has started (set even after the message is consumed).
    pub closed spec fn in_use(&self) -> bool {
        self.in_use
    }

    /// The slot's lifecycle invariant. In particular: `ready` holds if and
    /// only if a send has completed and no receive has consumed the message,
    /// and the cell holds a message exactly then.
    pub open spec fn wf(&self) -> bool {
        &&& self.ready() <==> (self.sent() && !self.received())
        &&& self.stored() is Some <==> self.ready()
        &&& self.in_use() == self.sent()
        &&& self.received() ==> self.sent()
    }

    /// A fresh, empty slot.
    pub fn new() -> (c: OneShotChannelWithPanic<T>)
        ensures
            c.wf(),
            !c.sent(),
            !c.received(),
            !c.ready(),
    {
        OneShotChannelWithPanic {
            message: None,
            in_use: false,
            ready: false,
            did_send: Ghost(false),
            did_receive: Ghost(false),
        }
    }

    /// Write the message and publish it. A second send finds `in_use`
    /// already set and is a fatal violation ("can't send more than one
    /// message"), so a send is only possible on a slot never sent to.
    pub fn send(&mut self, message: T)
        requires
            old(self).wf(),
            !old(self).sent(),
        ensures
            final(self).wf(),
            final(self).sent(),
            !final(self).received(),
            final(self).ready(),
            final(self).stored() == Some(message),
    {
        self.in_use = true;
        self.message = Some(message);
        self.ready = true;
        proof {
            self.did_send@ = true;
        }
    }

    /// Whether a message is ready to be received: true if and only if a
    /// send has completed and no receive has yet consumed the message.
    pub fn is_ready(&self) -> (r: bool)
        requires
            self.wf(),
        ensures
            r == self.ready(),
            r == (self.sent() && !self.received()),
    {
        self.ready
    }

    /// Take the message out. Without a ready message — nothing sent yet, or
    /// already consumed — this is a fatal violation ("no message
    /// available"), so it demands readiness; poll [`Self::is_ready`] first.
    pub fn receive(&mut self) -> (message: T)
        requires
            old(self).wf(),
            old(self).ready(),
        ensures
            final(self).wf(),
            Some(message) == old(self).stored(),
            final(self).received(),
            final(self).sent(),
            !final(self).ready(),
    {
        self.ready = false;
        proof {
            self.did_receive@ = true;
        }
        self.message.take().unwrap()
    }

    /// Tear the slot down, surrendering any message that was sent but never
    /// received so the caller's drop glue finalizes it — exactly the unread
    /// message, and nothing otherwise.
    pub fn finalize(self) -> (unread: Option<T>)
        requires
            self.wf(),
        ensures
            unread == self.stored(),
            unread is Some <==> (self.sent() && !self.received()),
    {
        self.message
    }
}

/// The shared-ownership one-shot slot: the storage cell and `ready` flag
/// that, in a running system, live in one reference-counted block (the
/// [`crate::arc`] model) so that each capability can move to its own thread.
/// The model returns the slot to the caller alongside the two capabilities;
/// the block's counter bookkeeping is proved in [`crate::arc`].
pub struct OneShotChannelWithArc<T> {
    message: Option<T>,
    ready: bool,
    did_send: Ghost<bool>,
    did_receive: Ghost<bool>,
}

/// The sending capability: single-use, consumed by its one send, so a second
/// send is unreachable by construction rather than checked at run time.
pub struct SenderWithArc<T> {
    _slot: PhantomData<T>,
}

/// The receiving capability: single-use, consumed by its one receive.
pub struct ReceiverWithArc<T> {
    _slot: PhantomData<T>,
}

impl<T> OneShotChannelWithArc<T> {
    /// Whether the send has completed on this slot.
    pub closed spec fn sent(&self) -> bool {
        self.did_send@
    }

    /// Whether the receive has consumed the message.
    pub closed spec fn received(&self) -> bool {
        self.did_receive@
    }

    /// The `ready` flag.
    pub closed spec fn ready(&self) -> bool {
        self.ready
    }

    /// What the slot holds.
    pub closed spec fn stored(&self) -> Option<T> {
        self.message
    }

    /// The slot's lifecycle invariant: `ready` holds if and only if the
    /// send has completed and the receive has not, and the cell holds a
    /// message exactly then.
    pub open spec fn wf(&self) -> bool {
        &&& self.ready() <==> (self.sent() && !self.received())
        &&& self.stored() is Some <==> self.ready()
        &&& self.received() ==> self.sent()
    }

    /// Create a channel: the slot and the two single-use capabilities. In a
    /// running system each capability owns a handle to the heap-allocated
    /// block holding the slot; here the slot itself travels with them.
    pub fn channel() -> (r: (OneShotChannelWithArc<T>, SenderWithArc<T>, ReceiverWithArc<T>))
        ensures
            r.0.wf(),
            !r.0.sent(),
            !r.0.received(),
            !r.0.ready(),
    {
        (
            OneShotChannelWithArc {
                message: None,
                ready: false,
                did_send: Ghost(false),
                did_receive: Ghost(false),
            },
            SenderWithArc { _slot: PhantomData },
            ReceiverWithArc { _slot: PhantomData },
        )
    }
}

impl<T> SenderWithArc<T> {
    /// Write the message and publish it with a release store of `ready`.
    /// The sender is consumed: this slot can never be sent to again, which
    /// is what entitles the write to demand an untouched slot.
    pub fn send(self, slot: &mut OneShotChannelWithArc<T>, message: T)
        requires
            old(slot).wf(),
            !old(slot).sent(),
        ensures
            final(slot).wf(),
            final(slot).sent(),
            !final(slot).received(),
            final(slot).ready(),
            final(slot).stored() == Some(message),
    {
        slot.message = Some(message);
        slot.ready = true;
        proof {
            slot.did_send@ = true;
        }
    }
}

impl<T> ReceiverWithArc<T> {
    /// Whether the message has arrived: true if and only if the send has
    /// completed and the message is still unconsumed.
    pub fn is_ready(&self, slot: &OneShotChannelWithArc<T>) -> (r: bool)
        requires
            slot.wf(),
        ensures
            r == slot.ready(),
            r == (slot.sent() && !slot.received()),
    {
        slot.ready
    }

    /// Take the message, consuming the receiver. A receive before the
    /// message is ready is a fatal violation ("no message available"), so
    /// readiness is demanded; poll [`Self::is_ready`] first.
    pub fn receive(self, slot: &mut OneShotChannelWithArc<T>) -> (message: T)
        requires
            old(slot).wf(),
            old(slot).ready(),
        ensures
            final(slot).wf(),
            Some(message) == old(slot).stored(),
            final(slot).received(),
            !final(slot).ready(),
    {
        slot.ready = false;
        proof {
            slot.did_receive@ = true;
        }
        slot.message.take().unwrap()
    }
}

impl<T> OneShotChannelWithArc<T> {
    /// Tear the slot down when the last handle to its block goes,
    /// surrendering a sent-but-unread message to be finalized — exactly
    /// once, and only if no receive consumed it.
    pub fn finalize(self) -> (unread: Option<T>)
        requires
            self.wf(),
        ensures
            unread == self.stored(),
            unread is Some <==> (self.sent() && !self.received()),
    {
        self.message
    }
}

/// The borrow-scoped one-shot slot: caller-owned storage, borrowed by the
/// two capabilities for a bounded scope, with no heap allocation. The
/// sender records, at split time, which thread to wake; the receiver must
/// stay on the thread that owns the slot, and only the sender crosses
/// threads.
pub struct OneShotChannelWithBorrows<T> {
    message: Option<T>,
    ready: bool,
    woken: bool,
    did_send: Ghost<bool>,
    did_receive: Ghost<bool>,
}

/// The sending capability of the borrow-scoped channel; it carries the
/// descriptor of the receiving thread, captured at split time, and wakes it
/// after publishing the message. Single-use by consumption.
pub struct SenderWithBorrows<T> {
    _slot: PhantomData<T>,
}

/// The receiving capability of the borrow-scoped channel. It must remain on
/// the thread that owns the borrowed slot — it is the thread the sender
/// will wake — so it is the one capability that may not be handed across a
/// thread boundary. Single-use by consumption.
pub struct ReceiverWithBorrows<T> {
    _slot: PhantomData<T>,
}

impl<T> OneShotChannelWithBorrows<T> {
    /// Whether the send has completed on this slot.
    pub closed spec fn sent(&self) -> bool {
        self.did_send@
    }

    /// Whether the receive has consumed the message.
    pub closed spec fn received(&self) -> bool {
        self.did_receive@
    }

    /// The `ready` flag.
    pub closed spec fn ready(&self) -> bool {
        self.ready
    }

    /// What the slot holds.
    pub closed spec fn stored(&self) -> Option<T> {
        self.message
    }

    /// Whether the sender has issued the wake for the receiving thread.
    pub closed spec fn wake_sent(&self) -> bool {
        self.woken
    }

    /// The slot's lifecycle invariant. The wake is issued only after the
    /// message is published, so a receiver woken by this sender finds
    /// `ready` set or the message already in its hands.
    pub open spec fn wf(&self) -> bool {
        &&& self.ready() <==> (self.sent() && !self.received())
        &&& self.stored() is Some <==> self.ready()
        &&& self.received() ==> self.sent()
        &&& self.wake_sent() ==> self.sent()
    }

    /// Fresh caller-owned storage for one handoff.
    pub fn new() -> (c: OneShotChannelWithBorrows<T>)
        ensures
            c.wf(),
            !c.sent(),
            !c.received(),
            !c.ready(),
            !c.wake_sent(),
    {
        OneShotChannelWithBorrows {
            message: None,
            ready: false,
            woken: false,
            did_send: Ghost(false),
            did_receive: Ghost(false),
        }
    }

    /// Reset the slot to a fresh empty state and borrow it out as a
    /// sender/receiver pair, the sender capturing the calling thread as the
    /// one to wake. Each capability is consumed by its one operation, so
    /// reuse is impossible by construction.
    pub fn split(&mut self) -> (r: (SenderWithBorrows<T>, ReceiverWithBorrows<T>))
        ensures
            final(self).wf(),
            !final(self).sent(),
            !final(self).received(),
            !final(self).ready(),
            !final(self).wake_sent(),
    {
        self.message = None;
        self.ready = false;
        self.woken = false;
        proof {
            self.did_send@ = false;
            self.did_receive@ = false;
        }
        (SenderWithBorrows { _slot: PhantomData }, ReceiverWithBorrows { _slot: PhantomData })
    }

    /// Tear the slot down, surrendering a sent-but-unread message to be
    /// finalized — exactly once, and only if no receive consumed it.
    pub fn finalize(self) -> (unread: Option<T>)
        requires
            self.wf(),
        ensures
            unread == self.stored(),
            unread is Some <==> (self.sent() && !self.received()),
    {
        self.message
    }
}

/// A receiver woken by its sender never wakes to an empty slot: the wake is
/// issued only after the message is published, so as long as no receive has
/// consumed the message, `ready` holds and the re-check after parking
/// succeeds. A parked receiver therefore never returns prematurely and never
/// waits past the wake.
pub proof fn lemma_wake_finds_message_ready<T>(slot: OneShotChannelWithBorrows<T>)
    requires
        slot.wf(),
        slot.wake_sent(),
        !slot.received(),
    ensures
        slot.ready(),
        slot.stored() is Some,
{
}

impl<T> SenderWithBorrows<T> {
    /// Write the message, publish it with a release store of `ready`, then
    /// wake the thread recorded at split time. Consuming the sender makes a
    /// second send on this slot unreachable.
    pub fn send(self, slot: &mut OneShotChannelWithBorrows<T>, message: T)
        requires
            old(slot).wf(),
            !old(slot).sent(),
        ensures
            final(slot).wf(),
            final(slot).sent(),
            !final(slot).received(),
            final(slot).ready(),
            final(slot).wake_sent(),
            final(slot).stored() == Some(message),
    {
        slot.message = Some(message);
        slot.ready = true;
        slot.woken = true;
        proof {
            slot.did_send@ = true;
        }
    }
}

impl<T> ReceiverWithBorrows<T> {
    /// Whether the message has arrived: true if and only if the send has
    /// completed and the message is still unconsumed.
    pub fn is_ready(&self, slot: &OneShotChannelWithBorrows<T>) -> (r: bool)
        requires
            slot.wf(),
        ensures
            r == slot.ready(),
            r == (slot.sent() && !slot.received()),
    {
        slot.ready
    }

    /// Take the message, consuming the receiver. A running receiver that
    /// finds `ready` clear parks its thread and re-checks the flag when
    /// woken, tolerating spurious or early wakes, so it returns exactly
    /// under the readiness demanded here.
    pub fn receive(self, slot: &mut OneShotChannelWithBorrows<T>) -> (message: T)
        requires
            old(slot).wf(),
            old(slot).ready(),
        ensures
            final(slot).wf(),
            Some(message) == old(slot).stored(),
            final(slot).received(),
            !final(slot).ready(),
    {
        slot.ready = false;
        proof {
            slot.did_receive@ = true;
        }
        slot.message.take().unwrap()
    }
}

} // verus!

