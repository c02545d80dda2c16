//! Client liveness: the last-seen record a session keeps and the periodic
//! heartbeat decision that pings a live client and closes a silent one.

use vstd::prelude::*;

verus! {

/// How often the heartbeat monitor probes a session, in milliseconds.
pub const HEARTBEAT_INTERVAL_MS: u64 = 5000;

/// How long a client may stay silent before its session is closed, in
/// milliseconds.
pub const CLIENT_TIMEOUT_MS: u64 = 10000;

/// Whether a session last heard from at `last_seen` has been silent for
/// longer than `timeout` when probed at `now`.
pub open spec fn timed_out(last_seen: u64, now: u64, timeout: u64) -> bool {
    now - last_seen > timeout
}

/// What the heartbeat monitor does on one probe.
#[derive(Clone, Copy, PartialEq, Eq, Structural, Debug)]
pub enum HeartbeatStep {
    /// The client was heard from within the window: probe it with a ping.
    Ping,
    /// The client has been silent past the window: close the session.
    Close,
}

/// One client's liveness record.
pub struct Liveness {
    /// When the client was last heard from, in milliseconds on the same
    /// monotonic clock the probes use.
    pub last_seen_ms: u64,
}

impl Liveness {
    pub fn new(now_ms: u64) -> (l: Liveness)
        ensures
            l.last_seen_ms == now_ms,
    {
        Liveness { last_seen_ms: now_ms }
    }

    /// Any client activity — a frame, a ping, a pong — refreshes the
    /// record to "now".
    pub fn touch(&mut self, now_ms: u64)
        ensures
            final(self).last_seen_ms == now_ms,
    {
        self.last_seen_ms = now_ms;
    }

    /// One heartbeat probe: close exactly when the client has been silent
    /// for longer than the timeout window, ping otherwise.
    pub fn check(&self, now_ms: u64, timeout_ms: u64) -> (step: HeartbeatStep)
        requires
            self.last_seen_ms <= now_ms,
        ensures
            step is Close <==> timed_out(self.last_seen_ms, now_ms, timeout_ms),
            step is Ping <==> !timed_out(self.last_seen_ms, now_ms, timeout_ms),
    {
        if now_ms - self.last_seen_ms > timeout_ms {
            HeartbeatStep::Close
        } else {
            HeartbeatStep::Ping
        }
    }
}

} // verus!
