//! The decisions of the long-lived loops: the STUN mapping maintainer, the
//! heartbeat failure monitor and the orchestrator's supervisory phases. The
//! caller performs the I/O and reports each outcome here.
use vstd::prelude::*;

use crate::addr::SocketAddress;
use crate::stun::{parse_addr, parse_spec, StunError};

verus! {

/// Consecutive failed heartbeat sessions that trigger a re-measurement.
pub const REMEASURE_AFTER: u32 = 3;

/// What the maintainer does with a decoded mapping.
#[derive(Clone, Copy, Debug, PartialEq, Eq, Structural)]
pub enum ProbeAction {
    /// The mapping changed: publish it.
    Publish(SocketAddress),
    /// The mapping is the one already published.
    Unchanged,
}

/// State of the STUN mapping maintainer.
#[derive(Clone, Copy, Debug, PartialEq, Eq, Structural)]
pub struct Maintainer {
    /// The mapping last published with success.
    pub last_addr: Option<SocketAddress>,
    /// Whether the next tick must open a new connection first.
    pub reconn: bool,
    /// Whether the connection is kept open between ticks.
    pub keep_alive: bool,
}

impl Maintainer {
    /// A maintainer that has published nothing and holds a fresh connection.
    pub fn new(keep_alive: bool) -> (r: Maintainer)
        ensures
            r == (Maintainer { last_addr: None, reconn: false, keep_alive }),
    {
        Maintainer { last_addr: None, reconn: false, keep_alive }
    }

    /// A new connection to the STUN server was made.
    pub fn on_connected(&mut self)
        ensures
            *final(self) == (Maintainer { reconn: false, ..*old(self) }),
    {
        self.reconn = false;
    }

    /// Decodes a Binding Response. A decoding error marks the connection for
    /// renewal; a mapping other than the published one is to be published.
    pub fn on_response(&mut self, response: &[u8]) -> (r: Result<ProbeAction, StunError>)
        ensures
            match parse_spec(response@) {
                Ok(a) => {
                    &&& *final(self) == *old(self)
                    &&& r == Ok::<ProbeAction, StunError>(
                        if old(self).last_addr == Some(a) {
                            ProbeAction::Unchanged
                        } else {
                            ProbeAction::Publish(a)
                        },
                    )
                },
                Err(e) => {
                    &&& *final(self) == (Maintainer { reconn: true, ..*old(self) })
                    &&& r == Err::<ProbeAction, StunError>(e)
                },
            },
    {
        match parse_addr(response) {
            Ok(a) => {
                let same = match self.last_addr {
                    Some(b) => b == a,
                    None => false,
                };
                if same {
                    Ok(ProbeAction::Unchanged)
                } else {
                    Ok(ProbeAction::Publish(a))
                }
            },
            Err(e) => {
                self.reconn = true;
                Err(e)
            },
        }
    }

    /// The publisher answered for `addr`: on success it becomes the published
    /// mapping; on failure nothing changes, so the next tick retries.
    pub fn on_published(&mut self, addr: SocketAddress, ok: bool)
        ensures
            ok ==> *final(self) == (Maintainer { last_addr: Some(addr), ..*old(self) }),
            !ok ==> *final(self) == *old(self),
    {
        if ok {
            self.last_addr = Some(addr);
        }
    }

    /// End of a tick: without keep-alive the connection is closed (the result
    /// says whether to shut it down) and renewed on the next tick.
    pub fn end_of_tick(&mut self) -> (close: bool)
        ensures
            close == !old(self).keep_alive,
            *final(self) == (Maintainer { reconn: old(self).reconn || !old(self).keep_alive, ..*old(self) }),
    {
        if !self.keep_alive {
            self.reconn = true;
        }
        !self.keep_alive
    }

    /// The heartbeat lost the mapping: measure again on a new connection and
    /// publish whatever comes back, even if it equals the last mapping.
    pub fn on_remeasure_request(&mut self)
        ensures
            *final(self) == (Maintainer { last_addr: None, reconn: true, ..*old(self) }),
    {
        self.last_addr = None;
        self.reconn = true;
    }

    /// A network error in the tick: the connection is renewed next time.
    pub fn on_error(&mut self)
        ensures
            *final(self) == (Maintainer { reconn: true, ..*old(self) }),
    {
        self.reconn = true;
    }
}

/// What the heartbeat client does after a session ended.
#[derive(Clone, Copy, Debug, PartialEq, Eq, Structural)]
pub enum HeartbeatAction {
    /// Wait and reconnect.
    Retry,
    /// Wait, then have the maintainer measure and publish again.
    Remeasure,
}

/// Counter of consecutive failed heartbeat sessions.
#[derive(Clone, Copy, Debug, PartialEq, Eq, Structural)]
pub struct HeartbeatMonitor {
    pub failures: u32,
}

impl HeartbeatMonitor {
    /// No failure yet.
    pub fn new() -> (r: HeartbeatMonitor)
        ensures
            r.failures == 0,
    {
        HeartbeatMonitor { failures: 0 }
    }

    /// Whether the counter is in range.
    pub open spec fn wf(&self) -> bool {
        self.failures <= REMEASURE_AFTER
    }

    /// A heartbeat exchange succeeded: the run of failures is broken.
    pub fn on_exchange_ok(&mut self)
        ensures
            final(self).failures == 0,
    {
        self.failures = 0;
    }

    /// A session ended in error. The third consecutive one asks for a
    /// re-measurement; the counter stays there until one succeeds.
    pub fn on_session_end(&mut self) -> (r: HeartbeatAction)
        requires
            old(self).wf(),
        ensures
            final(self).wf(),
            final(self).failures == if old(self).failures < REMEASURE_AFTER {
                old(self).failures + 1
            } else {
                REMEASURE_AFTER as int
            },
            r == if final(self).failures == REMEASURE_AFTER {
                HeartbeatAction::Remeasure
            } else {
                HeartbeatAction::Retry
            },
    {
        if self.failures < REMEASURE_AFTER {
            self.failures = self.failures + 1;
        }
        if self.failures == REMEASURE_AFTER {
            HeartbeatAction::Remeasure
        } else {
            HeartbeatAction::Retry
        }
    }

    /// The re-measurement ended: on success the counter resets.
    pub fn on_remeasured(&mut self, ok: bool)
        ensures
            ok ==> final(self).failures == 0,
            !ok ==> *final(self) == *old(self),
    {
        if ok {
            self.failures = 0;
        }
    }
}

/// Observable supervisory phases.
#[derive(Clone, Copy, Debug, PartialEq, Eq, Structural)]
pub enum Phase {
    Init,
    Measuring,
    Publishing,
    Running,
    Recovering,
}

/// What the supervised tasks report.
#[derive(Clone, Copy, Debug, PartialEq, Eq, Structural)]
pub enum PhaseEvent {
    /// Startup begins.
    Start,
    /// The maintainer decoded a mapping.
    Measured,
    /// The mapping was published.
    Published,
    /// The heartbeat asked for a re-measurement.
    HeartbeatLost,
}

/// The phase transitions; an event that does not apply leaves the phase.
pub open spec fn next_phase_spec(p: Phase, e: PhaseEvent) -> Phase {
    match (p, e) {
        (Phase::Init, PhaseEvent::Start) => Phase::Measuring,
        (Phase::Measuring, PhaseEvent::Measured) => Phase::Publishing,
        (Phase::Publishing, PhaseEvent::Published) => Phase::Running,
        (Phase::Running, PhaseEvent::HeartbeatLost) => Phase::Recovering,
        (Phase::Recovering, PhaseEvent::Published) => Phase::Running,
        _ => p,
    }
}

/// The next supervisory phase.
pub fn next_phase(p: Phase, e: PhaseEvent) -> (r: Phase)
    ensures
        r == next_phase_spec(p, e),
{
    match (p, e) {
        (Phase::Init, PhaseEvent::Start) => Phase::Measuring,
        (Phase::Measuring, PhaseEvent::Measured) => Phase::Publishing,
        (Phase::Publishing, PhaseEvent::Published) => Phase::Running,
        (Phase::Running, PhaseEvent::HeartbeatLost) => Phase::Recovering,
        (Phase::Recovering, PhaseEvent::Published) => Phase::Running,
        _ => p,
    }
}

} // verus!
