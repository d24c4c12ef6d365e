//! A lock-free, unbounded, multi-producer, multi-consumer publish/subscribe bus.
//!
//! Messages are kept in a singly linked list of nodes. Every node carries one message
//! and a link that will later hold the node sent after it. A bus holds a shared slot
//! with the last link of the list; a subscription holds the link after the last
//! message that it has received.

pub mod link;
pub mod bus;
pub mod subscription;

pub use link::{Node, NodeLink, LinkSlot, successor, step_from, payload};
pub use bus::{AtomicBus, AtomicSender};
pub use subscription::{AtomicSubscription, MutSubscription};
