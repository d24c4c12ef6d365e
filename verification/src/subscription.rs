//! Subscriptions: the shared one, and the one owned by a single poller.

use std::sync::Arc;
use vstd::prelude::*;
use crate::link::{LinkSlot, Node, NodeLink, payload, successor};

verus! {

/// A subscription that threads can share; each message is delivered to one poller.
#[verifier::reject_recursive_types(T)]
pub struct AtomicSubscription<T> {
    position: Arc<LinkSlot<T>>,
}

impl<T> AtomicSubscription<T> {
    pub(crate) fn new(position: &LinkSlot<T>) -> Self {
        AtomicSubscription { position: Arc::new(LinkSlot::new(position.load())) }
    }

    /// The next message, or `None` at once if none is pending.
    pub fn poll(&self) -> Option<Arc<T>> {
        payload(self.position.take_next())
    }
}

impl<T> Clone for AtomicSubscription<T> {
    /// A new subscription at the position this one has now.
    fn clone(&self) -> Self {
        AtomicSubscription::new(&self.position)
    }
}

/// A subscription that keeps its position itself and is polled through `&mut self`.
#[verifier::reject_recursive_types(T)]
pub struct MutSubscription<T> {
    position: Arc<NodeLink<T>>,
}

impl<T> MutSubscription<T> {
    /// The link after the last message received.
    pub closed spec fn position(&self) -> NodeLink<T> {
        *self.position
    }

    pub(crate) fn new(position: &LinkSlot<T>) -> Self {
        MutSubscription { position: position.load() }
    }

    /// Moves past what was found after the current position: with a node, its message
    /// is returned and the position becomes the node's link; with nothing, nothing moves.
    /// Only `poll` calls it, with what it loaded after the current position.
    fn advance(&mut self, loaded: Option<Arc<Node<T>>>) -> (r: Option<Arc<T>>)
        ensures
            match loaded {
                None => r is None && final(self).position() == old(self).position(),
                Some(node) => r == Some(node.data) && final(self).position() == *node.link,
            },
    {
        let (next, taken) = successor(&self.position, loaded);
        self.position = next;
        payload(taken)
    }

    /// The next message, or `None` at once if none is pending.
    ///
    /// Which message comes depends on what other threads have sent, which is not visible
    /// here; what is stated is that an empty poll leaves the position where it was. The
    /// step itself, from what was loaded, is `successor` followed by `payload`.
    pub fn poll(&mut self) -> (r: Option<Arc<T>>)
        ensures
            r is None ==> final(self).position() == old(self).position(),
    {
        let loaded = self.position.load_next();
        self.advance(loaded)
    }

    /// Same as `poll`: its body is that call, and it states the same.
    pub fn next(&mut self) -> (r: Option<Arc<T>>)
        ensures
            r is None ==> final(self).position() == old(self).position(),
    {
        self.poll()
    }
}

impl<T> Clone for MutSubscription<T> {
    /// A new subscription at the same position.
    fn clone(&self) -> (s: Self)
        ensures
            s.position() == self.position(),
    {
        MutSubscription { position: Arc::clone(&self.position) }
    }
}

} // verus!
