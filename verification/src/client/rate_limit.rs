//! Client-side spacing of API requests.
//!
//! Times are nanoseconds on a monotonic clock, counted from an instant that is
//! no later than the creation of the limit; intervals are nanoseconds too.

use vstd::prelude::*;

verus! {

/// Minimum spacing between the API requests of one client.
#[derive(Debug, Clone, Copy, PartialEq, Eq)]
pub struct RequestRateLimit {
    /// Minimum interval between two requests.
    pub interval: u128,
    /// The earliest time at which the next request may be sent.
    pub next_request_at: u128,
}

/// The time at which a request that asks at `now` is sent.
pub open spec fn send_time(limit: RequestRateLimit, now: u128) -> int {
    if limit.next_request_at > now {
        limit.next_request_at as int
    } else {
        now as int
    }
}

/// The limit after a request that asks at `now` has been scheduled.
pub open spec fn after_wait(limit: RequestRateLimit, now: u128) -> RequestRateLimit {
    RequestRateLimit {
        interval: limit.interval,
        next_request_at: (send_time(limit, now) + limit.interval) as u128,
    }
}

/// Whether scheduling a request that asks at `now` stays within the clock's range.
pub open spec fn can_wait(limit: RequestRateLimit, now: u128) -> bool {
    send_time(limit, now) + limit.interval <= u128::MAX
}

impl RequestRateLimit {
    /// A limit that lets the first request go at once.
    pub fn new(interval: u128) -> (limit: Self)
        ensures
            limit.interval == interval,
            limit.next_request_at == 0,
    {
        RequestRateLimit { interval, next_request_at: 0 }
    }

    /// Schedule a request that asks at `now`: it goes at once when the
    /// previous request was at least one interval ago, and otherwise the caller
    /// sleeps until the returned time. Either way the next request may go one
    /// interval after this one.
    pub fn wait(&mut self, now: u128) -> (sleep_until: Option<u128>)
        requires
            can_wait(*old(self), now),
        ensures
            *final(self) == after_wait(*old(self), now),
            old(self).next_request_at > now ==> sleep_until == Some(old(self).next_request_at),
            old(self).next_request_at <= now ==> sleep_until is None,
    {
        if self.next_request_at > now {
            let scheduled_at = self.next_request_at;
            self.next_request_at = self.next_request_at + self.interval;
            Some(scheduled_at)
        } else {
            self.next_request_at = now + self.interval;
            None
        }
    }
}

/// A request is never sent before it asks to be.
pub proof fn lemma_send_not_early(limit: RequestRateLimit, now: u128)
    ensures
        send_time(limit, now) >= now,
{
}

/// Two consecutive requests, the second asking no earlier than the first, are
/// sent at least one interval apart.
pub proof fn lemma_requests_spaced(limit: RequestRateLimit, first: u128, second: u128)
    requires
        first <= second,
        can_wait(limit, first),
    ensures
        send_time(after_wait(limit, first), second) >= send_time(limit, first) + limit.interval,
{
}

/// A request goes at the later of the time it asks and the earliest time the
/// limit allows, so it waits only as long as it must; afterwards the next
/// request may go one interval after it, and the interval stays as it is.
pub proof fn lemma_wait_only_as_needed(limit: RequestRateLimit, now: u128)
    requires
        can_wait(limit, now),
    ensures
        send_time(limit, now) >= now,
        send_time(limit, now) >= limit.next_request_at,
        send_time(limit, now) == now || send_time(limit, now) == limit.next_request_at,
        after_wait(limit, now).next_request_at == send_time(limit, now) + limit.interval,
        after_wait(limit, now).interval == limit.interval,
{
}

} // verus!
