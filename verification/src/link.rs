//! The linked list that carries the messages, and the shared slots that point into it.

use std::sync::Arc;
use arc_swap::{ArcSwap, ArcSwapOption};
use vstd::prelude::*;

verus! {

/// One message on the bus, and the link at which the message after it will appear.
#[verifier::reject_recursive_types(T)]
pub struct Node<T> {
    pub data: Arc<T>,
    pub link: Arc<NodeLink<T>>,
}

impl<T> Node<T> {
    /// A node that carries `data` and whose link has no successor yet.
    pub fn new(data: Arc<T>) -> (node: Self)
        ensures
            node.data == data,
    {
        Node { data, link: Arc::new(NodeLink::new()) }
    }
}

/// The place after a node: empty until the next node is published into it, shared by
/// every thread that reads or appends.
///
/// Its content changes behind shared references and is kept out of the spec value of the
/// link, so the methods below promise nothing of what they load.
#[verifier::external_body]
#[verifier::reject_recursive_types(T)]
pub struct NodeLink<T> {
    next: ArcSwapOption<Node<T>>,
}

impl<T> NodeLink<T> {
    /// Calls `ArcSwapAny::new` with `None`: a link that holds no node.
    /// No clause is stated: what the link holds later depends on other threads.
    #[verifier::external_body]
    pub(crate) fn new() -> Self {
        NodeLink { next: ArcSwapOption::new(None) }
    }

    /// Calls `ArcSwapAny::load_full` on the link: the node published into it, if any, at
    /// the moment of the call. Nothing is claimed of the outcome, which depends on timing.
    #[verifier::external_body]
    pub(crate) fn load_next(&self) -> Option<Arc<Node<T>>> {
        self.next.load_full()
    }

    /// Calls `ArcSwapAny::store` with `Some(node)`: publishes `node` after this link.
    #[verifier::external_body]
    pub(crate) fn store_next(&self, node: Arc<Node<T>>) {
        self.next.store(Some(node))
    }
}

/// A shared, atomically replaceable pointer to a link of the list: the end of a bus, or
/// the position of a subscription that several threads poll.
///
/// As for `NodeLink`, the link it holds is kept out of its spec value.
#[verifier::external_body]
#[verifier::reject_recursive_types(T)]
pub struct LinkSlot<T> {
    current: ArcSwap<NodeLink<T>>,
}

impl<T> LinkSlot<T> {
    /// Calls `ArcSwapAny::new` with `link`. No clause is stated of the new slot.
    #[verifier::external_body]
    pub(crate) fn new(link: Arc<NodeLink<T>>) -> Self {
        LinkSlot { current: ArcSwap::new(link) }
    }

    /// Calls `ArcSwapAny::load_full`: the link held at the moment of the call.
    /// Nothing is claimed of it, since other threads may replace it at any time.
    #[verifier::external_body]
    pub(crate) fn load(&self) -> Arc<NodeLink<T>> {
        self.current.load_full()
    }

    /// Calls `ArcSwapAny::swap`: installs `link` and returns the link it replaced.
    /// Nothing is claimed of the returned link, which depends on other threads.
    #[verifier::external_body]
    pub(crate) fn swap(&self, link: Arc<NodeLink<T>>) -> Arc<NodeLink<T>> {
        self.current.swap(link)
    }

    /// Calls `ArcSwapAny::rcu` with a closure that runs the verified `step_from` on the
    /// current link and installs the link it returns; hands back the node that the
    /// successful run of the closure read. Nothing is claimed of it: which node that is
    /// depends on other threads.
    #[verifier::external_body]
    pub(crate) fn take_next(&self) -> Option<Arc<Node<T>>> {
        let mut taken = None;
        self.current.rcu(|current| {
            let (next, node) = step_from(current);
            taken = node;
            next
        });
        taken
    }
}

/// Where a reader stands after it has looked past `position` and found `loaded`: at the
/// link of the loaded node, or at `position` still when nothing was there; the loaded
/// node is handed on unchanged.
pub fn successor<T>(position: &Arc<NodeLink<T>>, loaded: Option<Arc<Node<T>>>) -> (r: (
    Arc<NodeLink<T>>,
    Option<Arc<Node<T>>>,
))
    ensures
        r.1 == loaded,
        match loaded {
            None => r.0 == *position,
            Some(node) => r.0 == node.link,
        },
{
    match loaded {
        None => (Arc::clone(position), None),
        Some(node) => (Arc::clone(&node.link), Some(node)),
    }
}

/// Looks once past `position` and steps as `successor` says.
pub fn step_from<T>(position: &Arc<NodeLink<T>>) -> (r: (Arc<NodeLink<T>>, Option<Arc<Node<T>>>))
    ensures
        match r.1 {
            None => r.0 == *position,
            Some(node) => r.0 == node.link,
        },
{
    let loaded = position.load_next();
    successor(position, loaded)
}

/// The message carried by a taken node, if one was taken.
pub fn payload<T>(taken: Option<Arc<Node<T>>>) -> (r: Option<Arc<T>>)
    ensures
        match taken {
            None => r is None,
            Some(node) => r == Some(node.data),
        },
{
    match taken {
        None => None,
        Some(node) => Some(Arc::clone(&node.data)),
    }
}

} // verus!
