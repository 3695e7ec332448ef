use vstd::prelude::*;

use crate::address::Address;

verus! {

/// The creation event observed by off-chain consumers: which client state
/// was created, the bound as the caller supplied it (before normalization),
/// and when.
#[derive(Clone, Copy)]
pub struct VrfClientCreated {
    pub vrf_client: Address,
    pub max_result: u64,
    pub timestamp: i64,
}

/// A best-effort notification channel: emission only records the intent to
/// deliver, it acknowledges nothing.
pub struct EventSink {
    pub events: Vec<VrfClientCreated>,
}

impl EventSink {
    /// A sink with nothing emitted yet.
    pub fn new() -> (r: EventSink)
        ensures
            r.events@ == Seq::<VrfClientCreated>::empty(),
    {
        EventSink { events: Vec::new() }
    }

    /// Emit one event: fire-and-forget, the payload is appended and nothing
    /// is awaited.
    pub fn emit(&mut self, event: VrfClientCreated)
        ensures
            final(self).events@ == old(self).events@.push(event),
    {
        self.events.push(event);
    }
}

} // verus!
