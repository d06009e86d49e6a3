use sync_primitives::channel::Channel;
use sync_primitives::channel::OneShotChannelWithArc;
use sync_primitives::channel::OneShotChannelWithBorrows;
use sync_primitives::channel::OneShotChannelWithPanic;

use std::cell::Cell;
use std::rc::Rc;

/// A payload that records how many times it has been finalized.
struct FinalizeProbe {
    hits: Rc<Cell<u32>>,
}

impl Drop for FinalizeProbe {
    fn drop(&mut self) {
        self.hits.set(self.hits.get() + 1);
    }
}

#[test]
fn mutex_channel_works() {}

#[test]
fn one_shot_channel_with_panic_works() {
    let mut channel = OneShotChannelWithPanic::new();
    channel.send("hello world!");
    while !channel.is_ready() {}
    println!("Hello, world!");
    assert_eq!(channel.receive(), "hello world!");
}

#[test]
fn one_shot_channel_with_arc_works() {
    let (mut slot, sender, receiver) = OneShotChannelWithArc::channel();
    sender.send(&mut slot, "hello world!");
    assert_eq!(receiver.receive(&mut slot), "hello world!");
}

#[test]
fn one_shot_channel_with_borrow_works() {
    let mut channel = OneShotChannelWithBorrows::new();
    let (sender, receiver) = channel.split();
    sender.send(&mut channel, "hello world!");
    while !receiver.is_ready(&channel) {}
    assert_eq!(receiver.receive(&mut channel), "hello world!");
}

#[test]
fn one_shot_channel_with_borrow_block_works() {
    let mut channel = OneShotChannelWithBorrows::new();
    let (sender, receiver) = channel.split();
    sender.send(&mut channel, "hello world!");
    assert_eq!(receiver.receive(&mut channel), "hello world!");
}

#[test]
fn queue_channel_is_first_in_first_out() {
    let mut channel = Channel::new();
    channel.send(1u32);
    channel.send(2u32);
    channel.send(3u32);
    assert_eq!(channel.len(), 3);
    assert_eq!(channel.receive(), 1);
    assert_eq!(channel.receive(), 2);
    channel.send(4u32);
    assert_eq!(channel.receive(), 3);
    assert_eq!(channel.receive(), 4);
    assert_eq!(channel.len(), 0);
}

#[test]
fn panic_variant_ready_tracks_send_and_receive() {
    let mut channel = OneShotChannelWithPanic::new();
    assert!(!channel.is_ready());
    channel.send(41u64);
    assert!(channel.is_ready());
    assert_eq!(channel.receive(), 41);
    assert!(!channel.is_ready());
}

#[test]
fn arc_variant_ready_tracks_send_and_receive() {
    let (mut slot, sender, receiver) = OneShotChannelWithArc::channel();
    assert!(!receiver.is_ready(&slot));
    sender.send(&mut slot, 7i32);
    assert!(receiver.is_ready(&slot));
    assert_eq!(receiver.receive(&mut slot), 7);
}

#[test]
fn unread_message_is_finalized_exactly_once() {
    let hits = Rc::new(Cell::new(0u32));
    let mut channel = OneShotChannelWithPanic::new();
    channel.send(FinalizeProbe { hits: Rc::clone(&hits) });
    let unread = channel.finalize();
    assert!(unread.is_some());
    assert_eq!(hits.get(), 0);
    drop(unread);
    assert_eq!(hits.get(), 1);
}

#[test]
fn received_message_is_not_finalized_by_the_slot() {
    let hits = Rc::new(Cell::new(0u32));
    let mut channel = OneShotChannelWithPanic::new();
    channel.send(FinalizeProbe { hits: Rc::clone(&hits) });
    let message = channel.receive();
    assert!(channel.finalize().is_none());
    assert_eq!(hits.get(), 0);
    drop(message);
    assert_eq!(hits.get(), 1);
}

#[test]
fn arc_variant_finalizes_unread_message() {
    let hits = Rc::new(Cell::new(0u32));
    let (mut slot, sender, _receiver) = OneShotChannelWithArc::channel();
    sender.send(&mut slot, FinalizeProbe { hits: Rc::clone(&hits) });
    drop(slot.finalize());
    assert_eq!(hits.get(), 1);
}

#[test]
fn split_resets_the_borrowed_slot() {
    let mut channel = OneShotChannelWithBorrows::new();
    let (sender, receiver) = channel.split();
    sender.send(&mut channel, 5u8);
    assert!(receiver.is_ready(&channel));
    drop(receiver);
    let (sender, receiver) = channel.split();
    assert!(!receiver.is_ready(&channel));
    sender.send(&mut channel, 6u8);
    assert_eq!(receiver.receive(&mut channel), 6);
}
