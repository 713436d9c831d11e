use vstd::prelude::*;

verus! {

/// Time in milliseconds that must pass between two handshake attempts while
/// the receiver is not connected.
pub const RETRY_INTERVAL_MS: u64 = 3000;

/// Time in milliseconds without a keep-alive ping after which the receiver
/// counts as gone.
pub const KEEPALIVE_TIMEOUT_MS: u64 = 3000;

/// Milliseconds from `since` to `now` on a monotonic clock; a `now` that lies
/// before `since` counts as no time at all.
pub open spec fn elapsed(now: u64, since: u64) -> int {
    if now >= since {
        now - since
    } else {
        0
    }
}

/// Connection state against the receiver. Times are readings of one
/// monotonic clock, in milliseconds.
#[derive(Debug, Clone, Copy, PartialEq, Eq, Structural)]
pub struct Link {
    /// Whether the receiver is taken to be listening.
    pub connected: bool,
    /// When the last handshake was sent, if one ever was.
    pub last_handshake: Option<u64>,
    /// When the last keep-alive ping arrived (the start, before any did).
    pub last_ping: u64,
}

impl Link {
    pub open spec fn spec_new(now: u64) -> Link {
        Link { connected: false, last_handshake: None, last_ping: now }
    }

    /// A handshake is owed when the receiver is not connected and no attempt
    /// was made in the last retry interval.
    pub open spec fn spec_handshake_due(self, now: u64) -> bool {
        !self.connected && match self.last_handshake {
            None => true,
            Some(t) => elapsed(now, t) >= RETRY_INTERVAL_MS,
        }
    }

    pub open spec fn spec_record_handshake(self, now: u64) -> Link {
        Link { last_handshake: Some(now), ..self }
    }

    /// Any datagram marks the receiver as connected; a ping also restarts the
    /// keep-alive timer.
    pub open spec fn spec_on_datagram(self, now: u64, is_ping: bool) -> Link {
        Link {
            connected: true,
            last_ping: if is_ping { now } else { self.last_ping },
            ..self
        }
    }

    /// The receiver is dropped once a whole keep-alive timeout passed without a ping.
    pub open spec fn spec_expire(self, now: u64) -> Link {
        if self.connected && elapsed(now, self.last_ping) >= KEEPALIVE_TIMEOUT_MS {
            Link { connected: false, ..self }
        } else {
            self
        }
    }

    /// A link that has sent nothing and heard nothing, started at `now`.
    pub fn new(now: u64) -> (r: Link)
        ensures
            r == Link::spec_new(now),
    {
        Link { connected: false, last_handshake: None, last_ping: now }
    }

    pub fn handshake_due(&self, now: u64) -> (r: bool)
        ensures
            r == self.spec_handshake_due(now),
    {
        if self.connected {
            return false;
        }
        match self.last_handshake {
            None => true,
            Some(t) => elapsed_ms(now, t) >= RETRY_INTERVAL_MS,
        }
    }

    pub fn record_handshake(&mut self, now: u64)
        ensures
            *final(self) == old(self).spec_record_handshake(now),
    {
        self.last_handshake = Some(now);
    }

    pub fn on_datagram(&mut self, now: u64, is_ping: bool)
        ensures
            *final(self) == old(self).spec_on_datagram(now, is_ping),
    {
        self.connected = true;
        if is_ping {
            self.last_ping = now;
        }
    }

    pub fn expire(&mut self, now: u64)
        ensures
            *final(self) == old(self).spec_expire(now),
    {
        if self.connected && elapsed_ms(now, self.last_ping) >= KEEPALIVE_TIMEOUT_MS {
            self.connected = false;
        }
    }
}

fn elapsed_ms(now: u64, since: u64) -> (r: u64)
    ensures
        r == elapsed(now, since),
{
    if now >= since {
        now - since
    } else {
        0
    }
}

/// After a handshake sent at `sent`, no other is owed before a whole retry
/// interval has passed.
pub proof fn lemma_handshake_spacing(l: Link, sent: u64, now: u64)
    requires
        sent <= now,
        l.spec_record_handshake(sent).spec_handshake_due(now),
    ensures
        now - sent >= RETRY_INTERVAL_MS,
{
}

/// Receiving datagrams and expiring the keep-alive timer never touch the
/// time of the last handshake, so only a new handshake can make one due sooner.
pub proof fn lemma_handshake_time_kept(l: Link, now: u64, is_ping: bool)
    ensures
        l.spec_on_datagram(now, is_ping).last_handshake == l.last_handshake,
        l.spec_expire(now).last_handshake == l.last_handshake,
{
}

/// Any datagram makes the link connected at once.
pub proof fn lemma_datagram_connects(l: Link, now: u64, is_ping: bool)
    ensures
        l.spec_on_datagram(now, is_ping).connected,
{
}

/// After a ping at `pinged`, datagrams that are not pings leave the
/// keep-alive timer where it was, and at any check a whole timeout later
/// the link is disconnected.
pub proof fn lemma_keepalive_expiry(l: Link, pinged: u64, others: Seq<u64>, now: u64)
    requires
        pinged <= now,
        now - pinged >= KEEPALIVE_TIMEOUT_MS,
    ensures
        !after_non_pings(l.spec_on_datagram(pinged, true), others).spec_expire(now).connected,
{
    lemma_non_pings_keep_timer(l.spec_on_datagram(pinged, true), others);
}

/// The link after datagrams that are not pings, arriving at the given times.
pub open spec fn after_non_pings(l: Link, times: Seq<u64>) -> Link
    decreases times.len(),
{
    if times.len() == 0 {
        l
    } else {
        after_non_pings(l, times.drop_last()).spec_on_datagram(times.last(), false)
    }
}

proof fn lemma_non_pings_keep_timer(l: Link, times: Seq<u64>)
    requires
        l.connected,
    ensures
        after_non_pings(l, times).last_ping == l.last_ping,
        after_non_pings(l, times).connected,
    decreases times.len(),
{
    if times.len() > 0 {
        lemma_non_pings_keep_timer(l, times.drop_last());
    }
}

} // verus!
