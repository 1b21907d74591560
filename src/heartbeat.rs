use vstd::prelude::*;

verus! {

/// How often the server probes the peer, in milliseconds.
pub const HEARTBEAT_INTERVAL_MS: u64 = 5000;

/// How long the peer may stay silent before it is dropped, in milliseconds.
pub const CLIENT_TIMEOUT_MS: u64 = 10000;

/// What the liveness task is told.
#[derive(Clone, Copy, Debug, PartialEq, Eq, Structural)]
pub enum HeartbeatEvent {
    /// The heartbeat interval elapsed.
    Tick,
    /// Sending a ping to the peer failed.
    SendFailed,
    /// The connection was closed by the frame-processing side.
    Disconnected,
}

/// What the liveness task does next.
#[derive(Clone, Copy, Debug, PartialEq, Eq, Structural)]
pub enum HeartbeatAction {
    /// Send a ping and wait for the next event.
    SendPing,
    /// The peer stayed silent too long: close the connection.
    TimedOut,
    /// End the task.
    Stop,
}

/// Liveness of one connection: the time of the last inbound ping, measured
/// in milliseconds on a clock that the caller supplies.
#[derive(Clone, Copy, Debug, PartialEq, Eq, Structural)]
pub struct HeartbeatMonitor {
    pub heartbeat_interval: u64,
    pub client_timeout: u64,
    pub last_seen: u64,
}

impl HeartbeatMonitor {
    pub open spec fn spec_last_seen(&self) -> u64 {
        self.last_seen
    }

    pub open spec fn spec_client_timeout(&self) -> u64 {
        self.client_timeout
    }

    pub open spec fn spec_heartbeat_interval(&self) -> u64 {
        self.heartbeat_interval
    }

    /// Whether the peer has been silent for longer than the timeout at `now`.
    pub open spec fn timed_out_at(&self, now: u64) -> bool {
        now > self.last_seen && now - self.last_seen > self.client_timeout
    }

    /// The liveness task's decision on an event at `now`.
    pub open spec fn spec_step(&self, event: HeartbeatEvent, now: u64) -> HeartbeatAction {
        match event {
            HeartbeatEvent::Tick => if self.timed_out_at(now) {
                HeartbeatAction::TimedOut
            } else {
                HeartbeatAction::SendPing
            },
            _ => HeartbeatAction::Stop,
        }
    }

    /// A monitor for a connection opened at `now`, with the default
    /// interval and timeout.
    pub fn new(now: u64) -> (r: HeartbeatMonitor)
        ensures
            r.spec_last_seen() == now,
            r.spec_client_timeout() == CLIENT_TIMEOUT_MS,
            r.spec_heartbeat_interval() == HEARTBEAT_INTERVAL_MS,
    {
        HeartbeatMonitor {
            heartbeat_interval: HEARTBEAT_INTERVAL_MS,
            client_timeout: CLIENT_TIMEOUT_MS,
            last_seen: now,
        }
    }

    /// A monitor for a connection opened at `now`, with the given interval
    /// and timeout.
    pub fn with_timeouts(heartbeat_interval: u64, client_timeout: u64, now: u64) -> (r:
        HeartbeatMonitor)
        ensures
            r.spec_last_seen() == now,
            r.spec_client_timeout() == client_timeout,
            r.spec_heartbeat_interval() == heartbeat_interval,
    {
        HeartbeatMonitor { heartbeat_interval, client_timeout, last_seen: now }
    }

    pub fn last_seen(&self) -> (r: u64)
        ensures
            r == self.spec_last_seen(),
    {
        self.last_seen
    }

    pub fn client_timeout(&self) -> (r: u64)
        ensures
            r == self.spec_client_timeout(),
    {
        self.client_timeout
    }

    pub fn heartbeat_interval(&self) -> (r: u64)
        ensures
            r == self.spec_heartbeat_interval(),
    {
        self.heartbeat_interval
    }

    /// Records an inbound ping at `now`. The time of the last ping never
    /// moves backwards.
    pub fn record_ping(&mut self, now: u64)
        ensures
            final(self).spec_last_seen() == if now > old(self).spec_last_seen() {
                now
            } else {
                old(self).spec_last_seen()
            },
            final(self).spec_client_timeout() == old(self).spec_client_timeout(),
            final(self).spec_heartbeat_interval() == old(self).spec_heartbeat_interval(),
    {
        if now > self.last_seen {
            self.last_seen = now;
        }
    }

    pub fn is_timed_out(&self, now: u64) -> (r: bool)
        ensures
            r == self.timed_out_at(now),
    {
        now > self.last_seen && now - self.last_seen > self.client_timeout
    }

    /// The liveness task's decision on an event at `now`.
    pub fn step(&self, event: HeartbeatEvent, now: u64) -> (r: HeartbeatAction)
        ensures
            r == self.spec_step(event, now),
    {
        match event {
            HeartbeatEvent::Tick => {
                if self.is_timed_out(now) {
                    HeartbeatAction::TimedOut
                } else {
                    HeartbeatAction::SendPing
                }
            },
            HeartbeatEvent::SendFailed => HeartbeatAction::Stop,
            HeartbeatEvent::Disconnected => HeartbeatAction::Stop,
        }
    }
}

/// Without an inbound ping, a tick later than the timeout after the start
/// ends the connection.
pub proof fn lemma_silent_peer_times_out(start: u64, now: u64)
    requires
        now > start,
        now - start > CLIENT_TIMEOUT_MS,
    ensures
        ({
            let m = HeartbeatMonitor {
                heartbeat_interval: HEARTBEAT_INTERVAL_MS,
                client_timeout: CLIENT_TIMEOUT_MS,
                last_seen: start,
            };
            m.spec_step(HeartbeatEvent::Tick, now) == HeartbeatAction::TimedOut
        }),
{
}

/// After a ping at `t`, a tick up to `t + timeout` keeps the connection and
/// any later tick ends it.
pub proof fn lemma_timeout_boundary(m: HeartbeatMonitor, t: u64, now: u64)
    requires
        t >= m.spec_last_seen(),
    ensures
        ({
            let after_ping = HeartbeatMonitor { last_seen: t, ..m };
            &&& now <= t + m.spec_client_timeout() ==> after_ping.spec_step(HeartbeatEvent::Tick, now)
                == HeartbeatAction::SendPing
            &&& now > t + m.spec_client_timeout() ==> after_ping.spec_step(HeartbeatEvent::Tick, now)
                == HeartbeatAction::TimedOut
        }),
{
}

} // verus!
