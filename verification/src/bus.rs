//! The bus and its send-only handle.

use std::sync::Arc;
use vstd::prelude::*;
use crate::link::{LinkSlot, Node, NodeLink};
use crate::subscription::{AtomicSubscription, MutSubscription};

verus! {

/// A bus, which sends data to every subscription that exists at the time of sending.
#[verifier::reject_recursive_types(T)]
pub struct AtomicBus<T> {
    end: Arc<LinkSlot<T>>,
}

/// The send side of an `AtomicBus`: sends on the same underlying bus, but cannot subscribe.
#[verifier::reject_recursive_types(T)]
pub struct AtomicSender<T> {
    end: Arc<LinkSlot<T>>,
}

impl<T> AtomicBus<T> {
    /// The shared slot that holds the end of this bus's list.
    pub closed spec fn end_slot(&self) -> LinkSlot<T> {
        *self.end
    }

    /// Creates a bus with no messages.
    pub fn new() -> Self {
        AtomicBus { end: Arc::new(LinkSlot::new(Arc::new(NodeLink::new()))) }
    }

    /// Sends `data` to every current subscription.
    pub fn send<A: Into<Arc<T>>>(&self, data: A) {
        append_tail(&self.end, data.into());
    }

    /// A send-only handle on this bus.
    pub fn create_sender(&self) -> (sender: AtomicSender<T>)
        ensures
            sender.end_slot() == self.end_slot(),
    {
        AtomicSender::new(Arc::clone(&self.end))
    }

    /// A subscription that can be shared between threads; it starts after the last
    /// message sent so far.
    pub fn subscribe(&self) -> AtomicSubscription<T> {
        AtomicSubscription::new(&self.end)
    }

    /// A subscription polled through `&mut self`; it starts after the last message
    /// sent so far.
    pub fn subscribe_mut(&self) -> MutSubscription<T> {
        MutSubscription::new(&self.end)
    }
}

impl<T> Default for AtomicBus<T> {
    /// Same as `AtomicBus::new`.
    fn default() -> Self {
        AtomicBus::new()
    }
}

impl<T> AtomicSender<T> {
    /// The shared slot that holds the end of the list this sender appends to.
    pub closed spec fn end_slot(&self) -> LinkSlot<T> {
        *self.end
    }

    fn new(end: Arc<LinkSlot<T>>) -> (sender: Self)
        ensures
            sender.end_slot() == *end,
    {
        AtomicSender { end }
    }

    /// Sends `data`, as `AtomicBus::send` does.
    pub fn send<A: Into<Arc<T>>>(&self, data: A) {
        append_tail(&self.end, data.into());
    }
}

impl<T> Clone for AtomicSender<T> {
    /// A sender on the same underlying bus.
    fn clone(&self) -> (sender: Self)
        ensures
            sender.end_slot() == self.end_slot(),
    {
        AtomicSender::new(Arc::clone(&self.end))
    }
}

/// Appends a node with `data` at the end held in `end`: installs the new node's link as
/// the end, then publishes the node after the end it replaced.
fn append_tail<T>(end: &LinkSlot<T>, data: Arc<T>) {
    let node = Arc::new(Node::new(data));
    let new_end = Arc::clone(&node.link);
    let old_end = end.swap(new_end);
    old_end.store_next(node);
}

} // verus!
