//! The connection monitor: a recurring tick that probes the session's
//! liveness and derives the two notifications pushed to every subscriber —
//! a connectivity-status message and the matching UI action to offer next.
use vstd::prelude::*;

verus! {

/// Where the monitor stands: waiting for the next tick, or in the middle of
/// one, probing the session.
#[derive(Clone, Copy, Debug, PartialEq, Eq, Structural)]
pub enum MonitorPhase {
    Idle,
    Polling,
}

/// The status message a tick emits for the outcome of its liveness probe.
pub open spec fn footer_view(connected: bool) -> Seq<char> {
    if connected {
        "<p>Connected to the server</p>"@
    } else {
        "<p>No connection</p>"@
    }
}

/// The UI-action message a tick emits for the outcome of its liveness probe: the
/// button for the operation that makes sense next.
pub open spec fn button_view(connected: bool) -> Seq<char> {
    if connected {
        "<button class='button' hx-post='/disconnect' hx-target='#remote-list' hx-swap='innerHTML'>Disconnect</button>"@
    } else {
        "<button class='button' hx-post='/connect' hx-target='#remote-list' hx-swap='innerHTML'>Connect</button>"@
    }
}

/// The status message for a probe outcome.
pub fn footer_message(connected: bool) -> (r: &'static str)
    ensures
        r@ == footer_view(connected),
{
    if connected {
        "<p>Connected to the server</p>"
    } else {
        "<p>No connection</p>"
    }
}

/// The UI-action message for a probe outcome.
pub fn button_message(connected: bool) -> (r: &'static str)
    ensures
        r@ == button_view(connected),
{
    if connected {
        "<button class='button' hx-post='/disconnect' hx-target='#remote-list' hx-swap='innerHTML'>Disconnect</button>"
    } else {
        "<button class='button' hx-post='/connect' hx-target='#remote-list' hx-swap='innerHTML'>Connect</button>"
    }
}

/// The recurring liveness monitor: it alternates between idle and polling,
/// forever, and each completed poll yields the two per-tick notifications.
pub struct ConnectionMonitor {
    phase: MonitorPhase,
}

impl ConnectionMonitor {
    /// The phase the monitor is in.
    pub closed spec fn phase(&self) -> MonitorPhase {
        self.phase
    }

    /// A monitor waiting for its first tick.
    pub fn new() -> (m: Self)
        ensures
            m.phase() is Idle,
    {
        ConnectionMonitor { phase: MonitorPhase::Idle }
    }

    /// A tick begins: the monitor turns to polling the session's liveness.
    pub fn begin_tick(&mut self)
        requires
            old(self).phase() is Idle,
        ensures
            final(self).phase() is Polling,
    {
        self.phase = MonitorPhase::Polling;
    }

    /// A tick completes with the outcome of its liveness probe: the monitor goes
    /// back to idle and hands out the two notifications for this tick, to be
    /// delivered to every subscriber without blocking the next tick.
    pub fn finish_tick(&mut self, connected: bool) -> (out: (&'static str, &'static str))
        requires
            old(self).phase() is Polling,
        ensures
            final(self).phase() is Idle,
            out.0@ == footer_view(connected),
            out.1@ == button_view(connected),
    {
        self.phase = MonitorPhase::Idle;
        (footer_message(connected), button_message(connected))
    }
}

} // verus!
