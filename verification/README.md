# atomic-bus

An unbounded, lock-free, multi-producer, multi-consumer publish/subscribe bus built on
`arc-swap`, written in Verus.

- `src/link.rs`: the linked list of messages (`Node`, `NodeLink`), the shared slots that
  point into it (`LinkSlot`), the trusted calls into `arc-swap`, and the verified stepping
  logic that a poller runs on what it loads.
- `src/bus.rs`: `AtomicBus` and `AtomicSender`.
- `src/subscription.rs`: `AtomicSubscription` (shared between threads) and
  `MutSubscription` (polled through `&mut self`).
- `app/lib.rs`: an `Iterator` adapter over `MutSubscription`.

The shared cells change behind shared references, so their contents are not visible to
the verifier: the contracts state how a poller steps from what it loads, and which
handles share one bus, not what other threads have published.
