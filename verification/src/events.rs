//! Event publishing.
use crate::model::openrtb::AdEvent;
use vstd::prelude::*;

verus! {

/// Synchronous, non-blocking event publisher.
///
/// `publish` must return immediately. If the underlying queue is full, the
/// implementation drops the event and records the drop.
pub trait EventPublisher {
    /// Enqueue an event for async delivery. Must never block.
    fn publish(&self, topic: &str, key: &[u8], event: AdEvent);
}

/// A publisher that drops every event.
pub struct NoOpEventPublisher;

impl EventPublisher for NoOpEventPublisher {
    fn publish(&self, _topic: &str, _key: &[u8], _event: AdEvent) {
    }
}

} // verus!
