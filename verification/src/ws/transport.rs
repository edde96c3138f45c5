//! The life cycle of the one connection to the exchange.
//!
//! [`WsTransport`] decides; the embedding program acts. It opens and closes
//! the socket, reports what happened through the methods below, and sends
//! what they hand back. The transport keeps the authoritative list of
//! subscriptions, so that every one of them is asked for again, in the order
//! in which it was first requested, whenever a connection is established.

use crate::errors::Error;
use crate::ws::ws_manager::{Feed, Subscription};
use vstd::prelude::*;

verus! {

/// Where the connection stands.
#[derive(Debug, Clone, Copy, PartialEq, Eq, Structural)]
pub enum ConnectionState {
    /// No socket, and none being opened.
    Disconnected,
    /// A socket is being opened, or the next attempt is being waited for.
    Connecting,
    /// The socket is open.
    Connected,
    /// Shut down for good.
    Closed,
}

/// Bounds of the wait between two attempts to open the socket.
#[derive(Debug, Clone, Copy, PartialEq, Eq, Structural)]
pub struct Backoff {
    /// Wait after the first failure, in milliseconds.
    pub base_ms: u64,
    /// Longest wait, in milliseconds.
    pub cap_ms: u64,
}

/// When to ping, and how long to wait for the pong.
#[derive(Debug, Clone, Copy, PartialEq, Eq, Structural)]
pub struct Heartbeat {
    /// Time between the last ping, or the start of the connection, and the
    /// next ping, in milliseconds.
    pub interval_ms: u64,
    /// Time a ping may stay unanswered, in milliseconds.
    pub timeout_ms: u64,
}

/// What the heartbeat asks for.
#[derive(Debug, Clone, Copy, PartialEq, Eq, Structural)]
pub enum Beat {
    /// Nothing to do.
    Idle,
    /// Send a ping now.
    SendPing,
    /// The last ping went unanswered for too long: the connection counts
    /// as lost.
    Lost,
}

/// `x` doubled `n` times.
pub open spec fn doubled(x: int, n: nat) -> int
    decreases n,
{
    if n == 0 {
        x
    } else {
        2 * doubled(x, (n - 1) as nat)
    }
}

/// The wait before the next attempt after `failures` earlier attempts have
/// failed in a row: the base wait doubled once per earlier failure, and
/// never more than the cap.
pub open spec fn retry_delay(backoff: Backoff, failures: nat) -> int {
    if doubled(backoff.base_ms as int, failures) < backoff.cap_ms {
        doubled(backoff.base_ms as int, failures)
    } else {
        backoff.cap_ms as int
    }
}

/// Time from `then` to `now`; zero when the clock has gone backwards.
pub open spec fn elapsed(now: u64, then: u64) -> int {
    if now >= then {
        now - then
    } else {
        0
    }
}

/// The identities of the given subscriptions, in order.
pub open spec fn feeds_of(subscriptions: Seq<Subscription>) -> Seq<Feed> {
    subscriptions.map_values(|s: Subscription| s@)
}

/// `feeds` without `feed`.
pub open spec fn without(feeds: Seq<Feed>, feed: Feed) -> Seq<Feed> {
    if feeds.contains(feed) {
        feeds.remove(feeds.index_of(feed))
    } else {
        feeds
    }
}

proof fn lemma_doubled_grows(x: int, n: nat, m: nat)
    requires
        0 <= x,
        n <= m,
    ensures
        0 <= doubled(x, n) <= doubled(x, m),
    decreases m,
{
    if n == 0 {
        if m > 0 {
            lemma_doubled_grows(x, 0, (m - 1) as nat);
        }
    } else {
        lemma_doubled_grows(x, (n - 1) as nat, (m - 1) as nat);
    }
}

impl Backoff {
    /// The wait before the next attempt after `failures` earlier attempts
    /// have failed in a row.
    pub fn delay_after(&self, failures: u32) -> (delay: u64)
        ensures
            delay == retry_delay(*self, failures as nat),
    {
        if self.base_ms == 0 {
            proof {
                lemma_doubled_zero(failures as nat);
            }
            return 0;
        }
        if self.base_ms >= self.cap_ms {
            proof {
                lemma_doubled_grows(self.base_ms as int, 0, failures as nat);
            }
            return self.cap_ms;
        }
        let mut delay: u64 = self.base_ms;
        let mut k: u32 = 0;
        while k < failures && delay < self.cap_ms
            invariant
                k <= failures,
                self.base_ms > 0,
                delay <= self.cap_ms,
                delay < self.cap_ms ==> delay == doubled(self.base_ms as int, k as nat),
                delay == self.cap_ms ==> doubled(self.base_ms as int, k as nat) >= self.cap_ms,
                delay > 0,
            decreases self.cap_ms - delay,
        {
            if delay > self.cap_ms - delay {
                delay = self.cap_ms;
            } else {
                delay = delay + delay;
            }
            k += 1;
        }
        proof {
            lemma_doubled_grows(self.base_ms as int, k as nat, failures as nat);
        }
        delay
    }
}

proof fn lemma_doubled_zero(n: nat)
    ensures
        doubled(0, n) == 0,
    decreases n,
{
    if n > 0 {
        lemma_doubled_zero((n - 1) as nat);
    }
}

/// The connection's state machine together with the list of subscriptions.
#[derive(Debug)]
pub struct WsTransport {
    state: ConnectionState,
    subscriptions: Vec<Subscription>,
    failed_opens: u32,
    backoff: Backoff,
    heartbeat: Heartbeat,
    last_ping_ms: u64,
    ping_outstanding: bool,
}

impl WsTransport {
    /// Where the connection stands.
    pub closed spec fn state(&self) -> ConnectionState {
        self.state
    }

    /// The subscriptions in force, in the order in which they were first
    /// requested.
    pub closed spec fn feeds(&self) -> Seq<Feed> {
        feeds_of(self.subscriptions@)
    }

    /// Attempts to open the socket that have failed in a row.
    pub closed spec fn failed_opens(&self) -> nat {
        self.failed_opens as nat
    }

    /// The bounds on the wait between attempts.
    pub closed spec fn backoff(&self) -> Backoff {
        self.backoff
    }

    /// The heartbeat's timing.
    pub closed spec fn heartbeat(&self) -> Heartbeat {
        self.heartbeat
    }

    /// When the last ping was sent or, before the first ping of a
    /// connection, when the connection was established.
    pub closed spec fn last_ping_ms(&self) -> u64 {
        self.last_ping_ms
    }

    /// Whether a ping is waiting for its pong.
    pub closed spec fn ping_outstanding(&self) -> bool {
        self.ping_outstanding
    }

    /// No subscription is listed twice.
    pub open spec fn wf(&self) -> bool {
        self.feeds().no_duplicates()
    }

    /// Whether `other` differs from `self` in nothing but the state.
    pub open spec fn same_but_state(&self, other: &WsTransport) -> bool {
        &&& self.feeds() == other.feeds()
        &&& self.failed_opens() == other.failed_opens()
        &&& self.backoff() == other.backoff()
        &&& self.heartbeat() == other.heartbeat()
        &&& self.last_ping_ms() == other.last_ping_ms()
        &&& self.ping_outstanding() == other.ping_outstanding()
    }

    /// Whether `other` has the same count of failures and the same
    /// heartbeat state as `self`.
    pub open spec fn same_timing(&self, other: &WsTransport) -> bool {
        &&& self.failed_opens() == other.failed_opens()
        &&& self.last_ping_ms() == other.last_ping_ms()
        &&& self.ping_outstanding() == other.ping_outstanding()
    }

    /// Whether `other` is `self` in every respect.
    pub open spec fn unchanged(&self, other: &WsTransport) -> bool {
        self.state() == other.state() && self.same_but_state(other)
    }

    /// A transport that is disconnected and has no subscriptions.
    pub fn new(backoff: Backoff, heartbeat: Heartbeat) -> (transport: WsTransport)
        ensures
            transport.wf(),
            transport.state() == ConnectionState::Disconnected,
            transport.feeds() == Seq::<Feed>::empty(),
            transport.failed_opens() == 0,
            transport.backoff() == backoff,
            transport.heartbeat() == heartbeat,
            !transport.ping_outstanding(),
            transport.last_ping_ms() == 0,
    {
        let transport = WsTransport {
            state: ConnectionState::Disconnected,
            subscriptions: Vec::new(),
            failed_opens: 0,
            backoff,
            heartbeat,
            last_ping_ms: 0,
            ping_outstanding: false,
        };
        assert(transport.feeds() =~= Seq::<Feed>::empty());
        transport
    }

    /// Where the connection stands.
    pub fn current_state(&self) -> (state: ConnectionState)
        ensures
            state == self.state(),
    {
        self.state
    }

    /// Whether the socket is open.
    pub fn is_connected(&self) -> (connected: bool)
        ensures
            connected == (self.state() == ConnectionState::Connected),
    {
        match self.state {
            ConnectionState::Connected => true,
            _ => false,
        }
    }

    /// Whether the transport was shut down.
    pub fn is_closed(&self) -> (closed: bool)
        ensures
            closed == (self.state() == ConnectionState::Closed),
    {
        match self.state {
            ConnectionState::Closed => true,
            _ => false,
        }
    }

    /// Number of subscriptions in force.
    pub fn subscription_count(&self) -> (count: usize)
        ensures
            count == self.feeds().len(),
    {
        self.subscriptions.len()
    }

    /// Whether `spec` is among the subscriptions in force.
    pub fn is_subscribed(&self, spec: &Subscription) -> (found: bool)
        ensures
            found == self.feeds().contains(spec@),
    {
        self.position(spec).is_some()
    }

    /// Position of `spec` among the subscriptions in force.
    fn position(&self, spec: &Subscription) -> (at: Option<usize>)
        ensures
            match at {
                Some(i) => i < self.feeds().len() && self.feeds()[i as int] == spec@,
                None => !self.feeds().contains(spec@),
            },
    {
        let mut i: usize = 0;
        while i < self.subscriptions.len()
            invariant
                i <= self.subscriptions.len(),
                forall|k: int| 0 <= k < i ==> self.subscriptions@[k]@ != spec@,
            decreases self.subscriptions.len() - i,
        {
            if self.subscriptions[i].same(spec) {
                return Some(i);
            }
            i += 1;
        }
        None
    }

    /// Asks for a connection. From `Disconnected` the transport moves to
    /// `Connecting`, and the caller opens the socket; while connecting or
    /// connected nothing changes. After a shutdown the call fails.
    pub fn connect(&mut self) -> (outcome: Result<bool, Error>)
        ensures
            final(self).same_but_state(old(self)),
            match old(self).state() {
                ConnectionState::Closed => outcome == Err::<bool, Error>(Error::SessionClosed)
                    && final(self).state() == ConnectionState::Closed,
                ConnectionState::Disconnected => outcome == Ok::<bool, Error>(true)
                    && final(self).state() == ConnectionState::Connecting,
                _ => outcome == Ok::<bool, Error>(false) && final(self).state() == old(self).state(),
            },
    {
        match self.state {
            ConnectionState::Closed => Err(Error::SessionClosed),
            ConnectionState::Disconnected => {
                self.state = ConnectionState::Connecting;
                Ok(true)
            },
            _ => Ok(false),
        }
    }

    /// Reports that an attempt to open the socket has failed. While
    /// connecting, the transport counts the failure and hands back the time
    /// to wait before the next attempt; in any other state the report is out
    /// of place and changes nothing.
    pub fn open_failed(&mut self) -> (wait_ms: Option<u64>)
        ensures
            final(self).state() == old(self).state(),
            final(self).feeds() == old(self).feeds(),
            final(self).backoff() == old(self).backoff(),
            final(self).heartbeat() == old(self).heartbeat(),
            final(self).last_ping_ms() == old(self).last_ping_ms(),
            final(self).ping_outstanding() == old(self).ping_outstanding(),
            old(self).state() == ConnectionState::Connecting ==> wait_ms == Some(
                retry_delay(old(self).backoff(), old(self).failed_opens()) as u64,
            ) && final(self).failed_opens() == if old(self).failed_opens() < u32::MAX {
                old(self).failed_opens() + 1
            } else {
                old(self).failed_opens()
            },
            old(self).state() != ConnectionState::Connecting ==> wait_ms.is_none() && final(self).failed_opens() == old(self).failed_opens(),
    {
        match self.state {
            ConnectionState::Connecting => {
                let wait: u64 = self.backoff.delay_after(self.failed_opens);
                if self.failed_opens < u32::MAX {
                    self.failed_opens = self.failed_opens + 1;
                }
                Some(wait)
            },
            _ => None,
        }
    }

    /// Reports that the socket is open. While connecting, the transport
    /// becomes `Connected`, forgets earlier failures, restarts the heartbeat
    /// and hands back every subscription in force, in the order in which
    /// they were first requested, to be asked for again. In any other state
    /// the report is out of place: nothing changes and nothing is handed
    /// back.
    pub fn opened(&mut self, now_ms: u64) -> (replay: Vec<Subscription>)
        ensures
            final(self).feeds() == old(self).feeds(),
            final(self).backoff() == old(self).backoff(),
            final(self).heartbeat() == old(self).heartbeat(),
            old(self).state() == ConnectionState::Connecting ==> {
                &&& final(self).state() == ConnectionState::Connected
                &&& final(self).failed_opens() == 0
                &&& final(self).last_ping_ms() == now_ms
                &&& !final(self).ping_outstanding()
                &&& feeds_of(replay@) == old(self).feeds()
                &&& replay@.len() == old(self).feeds().len()
                &&& forall|i: int|
                    0 <= i < replay@.len() ==> (#[trigger] replay@[i])@ == old(self).feeds()[i]
            },
            old(self).state() != ConnectionState::Connecting ==> {
                &&& final(self).unchanged(old(self))
                &&& replay@.len() == 0
            },
    {
        match self.state {
            ConnectionState::Connecting => {},
            _ => {
                return Vec::new();
            },
        }
        self.state = ConnectionState::Connected;
        self.failed_opens = 0;
        self.last_ping_ms = now_ms;
        self.ping_outstanding = false;
        let mut replay: Vec<Subscription> = Vec::new();
        let mut i: usize = 0;
        while i < self.subscriptions.len()
            invariant
                i <= self.subscriptions.len(),
                replay@.len() == i,
                forall|k: int| 0 <= k < i ==> replay@[k]@ == self.subscriptions@[k]@,
            decreases self.subscriptions.len() - i,
        {
            replay.push(self.subscriptions[i].clone());
            i += 1;
        }
        assert(feeds_of(replay@) =~= feeds_of(self.subscriptions@));
        replay
    }

    /// Reports that the connection was lost, or that the caller gave up an
    /// attempt. A transport that was connecting or connected becomes
    /// `Disconnected`; the subscriptions stay. The result says whether the
    /// socket had been open, in which case the requests in flight are lost
    /// with it.
    pub fn lost(&mut self) -> (was_connected: bool)
        ensures
            final(self).feeds() == old(self).feeds(),
            final(self).failed_opens() == old(self).failed_opens(),
            final(self).backoff() == old(self).backoff(),
            final(self).heartbeat() == old(self).heartbeat(),
            final(self).last_ping_ms() == old(self).last_ping_ms(),
            !final(self).ping_outstanding() || final(self).unchanged(old(self)),
            was_connected == (old(self).state() == ConnectionState::Connected),
            final(self).state() == match old(self).state() {
                ConnectionState::Closed => ConnectionState::Closed,
                _ => ConnectionState::Disconnected,
            },
            old(self).state() == ConnectionState::Closed || old(self).state()
                == ConnectionState::Disconnected ==> final(self).unchanged(old(self)),
    {
        match self.state {
            ConnectionState::Connected => {
                self.state = ConnectionState::Disconnected;
                self.ping_outstanding = false;
                true
            },
            ConnectionState::Connecting => {
                self.state = ConnectionState::Disconnected;
                self.ping_outstanding = false;
                false
            },
            _ => false,
        }
    }

    /// Adds `spec` to the subscriptions in force, unless it is among them
    /// already. The result says whether a subscribe frame is to be sent now:
    /// it is when the subscription is new and the socket is open. A new
    /// subscription made while the socket is not open is asked for when the
    /// next connection is established. After a shutdown the call fails.
    pub fn subscribe(&mut self, spec: &Subscription) -> (outcome: Result<bool, Error>)
        requires
            old(self).wf(),
        ensures
            final(self).wf(),
            final(self).state() == old(self).state(),
            final(self).failed_opens() == old(self).failed_opens(),
            final(self).backoff() == old(self).backoff(),
            final(self).heartbeat() == old(self).heartbeat(),
            final(self).last_ping_ms() == old(self).last_ping_ms(),
            final(self).ping_outstanding() == old(self).ping_outstanding(),
            old(self).state() == ConnectionState::Closed ==> outcome == Err::<bool, Error>(
                Error::SessionClosed,
            ) && final(self).feeds() == old(self).feeds(),
            old(self).state() != ConnectionState::Closed ==> {
                &&& final(self).feeds() == if old(self).feeds().contains(spec@) {
                    old(self).feeds()
                } else {
                    old(self).feeds().push(spec@)
                }
                &&& outcome == Ok::<bool, Error>(
                    !old(self).feeds().contains(spec@) && old(self).state()
                        == ConnectionState::Connected,
                )
            },
    {
        if self.is_closed() {
            return Err(Error::SessionClosed);
        }
        if self.position(spec).is_some() {
            return Ok(false);
        }
        self.subscriptions.push(spec.clone());
        proof {
            let before = old(self).feeds();
            let after = self.feeds();
            assert(after =~= before.push(spec@));
            assert forall|i: int, j: int|
                0 <= i < after.len() && 0 <= j < after.len() && i != j implies after[i]
                != after[j] by {
                if i < before.len() {
                    assert(before.contains(before[i]));
                }
                if j < before.len() {
                    assert(before.contains(before[j]));
                }
            }
        }
        Ok(self.is_connected())
    }

    /// Removes `spec` from the subscriptions in force. The result says
    /// whether an unsubscribe frame is to be sent now: it is when the
    /// subscription was in force and the socket is open. Removing a
    /// subscription that is not in force changes nothing. After a shutdown
    /// the call fails.
    pub fn unsubscribe(&mut self, spec: &Subscription) -> (outcome: Result<bool, Error>)
        requires
            old(self).wf(),
        ensures
            final(self).wf(),
            final(self).state() == old(self).state(),
            final(self).failed_opens() == old(self).failed_opens(),
            final(self).backoff() == old(self).backoff(),
            final(self).heartbeat() == old(self).heartbeat(),
            final(self).last_ping_ms() == old(self).last_ping_ms(),
            final(self).ping_outstanding() == old(self).ping_outstanding(),
            !final(self).feeds().contains(spec@) || old(self).state() == ConnectionState::Closed,
            old(self).state() == ConnectionState::Closed ==> outcome == Err::<bool, Error>(
                Error::SessionClosed,
            ) && final(self).feeds() == old(self).feeds(),
            old(self).state() != ConnectionState::Closed ==> {
                &&& final(self).feeds() == without(old(self).feeds(), spec@)
                &&& outcome == Ok::<bool, Error>(
                    old(self).feeds().contains(spec@) && old(self).state()
                        == ConnectionState::Connected,
                )
            },
    {
        if self.is_closed() {
            return Err(Error::SessionClosed);
        }
        match self.position(spec) {
            None => Ok(false),
            Some(i) => {
                let ghost before = self.feeds();
                self.subscriptions.remove(i);
                proof {
                    let after = self.feeds();
                    assert(before.contains(spec@));
                    let at = before.index_of(spec@);
                    assert(at == i as int);
                    assert(after =~= before.remove(i as int));
                    assert forall|a: int, b: int|
                        0 <= a < after.len() && 0 <= b < after.len() && a != b implies after[a]
                        != after[b] by {
                        let a0 = if a < i { a } else { a + 1 };
                        let b0 = if b < i { b } else { b + 1 };
                        assert(after[a] == before[a0]);
                        assert(after[b] == before[b0]);
                    }
                    assert forall|k: int| 0 <= k < after.len() implies after[k] != spec@ by {
                        let k0 = if k < i { k } else { k + 1 };
                        assert(after[k] == before[k0]);
                    }
                }
                Ok(self.is_connected())
            },
        }
    }

    /// Lets the heartbeat look at the clock. While connected: a ping that
    /// has waited for its pong for the whole timeout makes the connection
    /// count as lost, and the transport becomes `Disconnected`; otherwise,
    /// once the interval has passed since the last ping with no ping
    /// waiting, a ping is due and counts as sent. In any other state, and at
    /// any other time, nothing happens.
    pub fn beat(&mut self, now_ms: u64) -> (beat: Beat)
        ensures
            final(self).feeds() == old(self).feeds(),
            final(self).failed_opens() == old(self).failed_opens(),
            final(self).backoff() == old(self).backoff(),
            final(self).heartbeat() == old(self).heartbeat(),
            beat == old(self).beat_due(now_ms),
            match beat {
                Beat::Idle => final(self).unchanged(old(self)),
                Beat::SendPing => final(self).state() == ConnectionState::Connected && final(self).ping_outstanding() && final(self).last_ping_ms() == now_ms,
                Beat::Lost => final(self).state() == ConnectionState::Disconnected && !final(self).ping_outstanding() && final(self).last_ping_ms() == old(self).last_ping_ms(),
            },
    {
        match self.state {
            ConnectionState::Connected => {},
            _ => {
                return Beat::Idle;
            },
        }
        let waited: u64 = if now_ms >= self.last_ping_ms {
            now_ms - self.last_ping_ms
        } else {
            0
        };
        if self.ping_outstanding {
            if waited >= self.heartbeat.timeout_ms {
                self.state = ConnectionState::Disconnected;
                self.ping_outstanding = false;
                Beat::Lost
            } else {
                Beat::Idle
            }
        } else if waited >= self.heartbeat.interval_ms {
            self.ping_outstanding = true;
            self.last_ping_ms = now_ms;
            Beat::SendPing
        } else {
            Beat::Idle
        }
    }

    /// What the heartbeat asks for when the clock reads `now_ms`.
    pub open spec fn beat_due(&self, now_ms: u64) -> Beat {
        if self.state() != ConnectionState::Connected {
            Beat::Idle
        } else if self.ping_outstanding() {
            if elapsed(now_ms, self.last_ping_ms()) >= self.heartbeat().timeout_ms {
                Beat::Lost
            } else {
                Beat::Idle
            }
        } else if elapsed(now_ms, self.last_ping_ms()) >= self.heartbeat().interval_ms {
            Beat::SendPing
        } else {
            Beat::Idle
        }
    }

    /// Reports a pong: no ping is waiting any more.
    pub fn pong(&mut self)
        ensures
            final(self).state() == old(self).state(),
            final(self).feeds() == old(self).feeds(),
            final(self).failed_opens() == old(self).failed_opens(),
            final(self).backoff() == old(self).backoff(),
            final(self).heartbeat() == old(self).heartbeat(),
            final(self).last_ping_ms() == old(self).last_ping_ms(),
            !final(self).ping_outstanding(),
    {
        self.ping_outstanding = false;
    }

    /// Shuts the transport down for good. The result says whether a socket
    /// was open or being opened, which the caller then closes.
    pub fn close(&mut self) -> (had_socket: bool)
        ensures
            final(self).state() == ConnectionState::Closed,
            final(self).feeds() == old(self).feeds(),
            final(self).failed_opens() == old(self).failed_opens(),
            final(self).backoff() == old(self).backoff(),
            final(self).heartbeat() == old(self).heartbeat(),
            final(self).last_ping_ms() == old(self).last_ping_ms(),
            !final(self).ping_outstanding(),
            had_socket == (old(self).state() == ConnectionState::Connected || old(self).state()
                == ConnectionState::Connecting),
    {
        let had_socket: bool = match self.state {
            ConnectionState::Connected => true,
            ConnectionState::Connecting => true,
            _ => false,
        };
        self.state = ConnectionState::Closed;
        self.ping_outstanding = false;
        had_socket
    }
}

} // verus!
