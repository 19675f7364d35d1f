//! What the dashboard shows: one record per completed request, and the most
//! recent of them kept for the history view.
use vstd::prelude::*;

use std::collections::VecDeque;

verus! {

/// Token counts of one request.
#[derive(Debug, Clone, Copy, PartialEq, Eq, Structural)]
pub struct DashboardUsage {
    pub prompt_tokens: u64,
    pub completion_tokens: u64,
    pub reasoning_tokens: u64,
    pub cached_tokens: Option<u64>,
}

/// One completed request as the dashboard shows it.
#[derive(Debug)]
pub struct DashboardEvent {
    /// Milliseconds since the epoch.
    pub timestamp: u64,
    pub model: String,
    pub status: u16,
    pub streamed: bool,
    pub duration_ms: u128,
    pub ttfb_ms: Option<u128>,
    pub usage: Option<DashboardUsage>,
}

impl Clone for DashboardEvent {
    fn clone(&self) -> (r: DashboardEvent)
        ensures
            r == *self,
    {
        DashboardEvent {
            timestamp: self.timestamp,
            model: self.model.clone(),
            status: self.status,
            streamed: self.streamed,
            duration_ms: self.duration_ms,
            ttfb_ms: self.ttfb_ms,
            usage: self.usage,
        }
    }
}

/// How many events the history keeps.
pub const HISTORY_CAPACITY: usize = 200;

/// The last `HISTORY_CAPACITY` events of `s` (all of them when there are
/// no more).
pub open spec fn most_recent(s: Seq<DashboardEvent>) -> Seq<DashboardEvent> {
    if s.len() > HISTORY_CAPACITY {
        s.subrange(s.len() - HISTORY_CAPACITY, s.len() as int)
    } else {
        s
    }
}

/// The most recent events, oldest first, at most `HISTORY_CAPACITY` of them.
pub struct RecentEvents {
    events: VecDeque<DashboardEvent>,
}

impl RecentEvents {
    #[verifier::type_invariant]
    spec fn bounded(self) -> bool {
        self.events@.len() <= HISTORY_CAPACITY
    }

    /// The events held, oldest first.
    pub closed spec fn events(self) -> Seq<DashboardEvent> {
        self.events@
    }

    /// No event yet.
    pub fn new() -> (r: RecentEvents)
        ensures
            r.events() == Seq::<DashboardEvent>::empty(),
    {
        RecentEvents { events: VecDeque::with_capacity(HISTORY_CAPACITY) }
    }

    /// Records a completed request, dropping the oldest event when the
    /// history is full.
    pub fn record(&mut self, event: DashboardEvent)
        ensures
            final(self).events() == most_recent(old(self).events().push(event)),
    {
        proof {
            use_type_invariant(&*self);
        }
        let mut events: VecDeque<DashboardEvent> = VecDeque::new();
        std::mem::swap(&mut events, &mut self.events);
        let ghost before = events@;
        if events.len() >= HISTORY_CAPACITY {
            events.pop_front();
        }
        events.push_back(event);
        assert(events@ =~= most_recent(before.push(event)));
        self.events = events;
    }

    /// A copy of the events held, oldest first.
    pub fn history(&self) -> (r: Vec<DashboardEvent>)
        ensures
            r@ == self.events(),
    {
        let n = self.events.len();
        let mut out: Vec<DashboardEvent> = Vec::new();
        let mut i: usize = 0;
        while i < n
            invariant
                n == self.events@.len(),
                i <= n,
                out@ == self.events@.take(i as int),
            decreases n - i,
        {
            out.push(self.events[i].clone());
            assert(out@ =~= self.events@.take(i + 1));
            i = i + 1;
        }
        assert(self.events@.take(n as int) =~= self.events@);
        out
    }

    /// How many events are held.
    pub fn len(&self) -> (r: usize)
        ensures
            r == self.events().len(),
            r <= HISTORY_CAPACITY,
    {
        proof {
            use_type_invariant(self);
        }
        self.events.len()
    }
}

/// Recording events one at a time keeps exactly the most recent
/// `HISTORY_CAPACITY` of all events recorded.
pub proof fn law_history_keeps_latest(seen: Seq<DashboardEvent>, event: DashboardEvent)
    ensures
        most_recent(most_recent(seen).push(event)) == most_recent(seen.push(event)),
{
    let a = most_recent(most_recent(seen).push(event));
    let b = most_recent(seen.push(event));
    assert(a =~= b);
}

} // verus!
