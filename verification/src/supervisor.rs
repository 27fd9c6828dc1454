//! The supervisor of the bridge's sessions: when to connect, when to
//! register, and how long to wait before the next attempt.
//!
//! Sessions are never resumed. Each attempt opens a new connection, and a
//! connection that opens is a new session with a new registration and a new
//! engine handle. The wait between attempts is fixed and attempts never
//! stop.

use vstd::prelude::*;
use crate::bridge::RECONNECT_DELAY_MILLIS;

verus! {

/// Where the supervisor stands.
#[derive(Clone, Copy, Debug, PartialEq, Eq)]
pub enum Phase {
    /// Not started.
    Idle,
    /// A connection attempt is under way.
    Connecting,
    /// A session is running.
    InSession,
    /// Waiting out the delay before the next attempt.
    Waiting,
}

/// What happened outside.
#[derive(Clone, Copy, Debug, PartialEq, Eq)]
pub enum SupervisorEvent {
    /// The supervisor is started.
    Start,
    /// The connection attempt succeeded.
    Connected,
    /// The connection attempt failed.
    ConnectFailed,
    /// The session ended, for whatever reason.
    SessionEnded,
    /// The delay has passed.
    DelayElapsed,
}

/// What the supervisor wants done.
#[derive(Clone, Copy, Debug, PartialEq, Eq)]
pub enum SupervisorAction {
    /// Open a new connection.
    Connect,
    /// Create a new engine handle and send the registration message.
    Register,
    /// Sleep for this many milliseconds, then report `DelayElapsed`.
    Wait(u64),
    /// The event does not belong to the current phase: do nothing.
    Nothing,
}

/// The reconnecting supervisor.
#[derive(Clone, Copy, Debug, PartialEq, Eq)]
pub struct Supervisor {
    pub phase: Phase,
    /// Connection attempts made so far, held at the top of the range.
    pub attempts: u64,
}

impl Supervisor {
    /// What `event` calls for in this phase.
    pub open spec fn action_for(self, event: SupervisorEvent) -> SupervisorAction {
        match (self.phase, event) {
            (Phase::Idle, SupervisorEvent::Start) => SupervisorAction::Connect,
            (Phase::Connecting, SupervisorEvent::Connected) => SupervisorAction::Register,
            (Phase::Connecting, SupervisorEvent::ConnectFailed) => SupervisorAction::Wait(
                RECONNECT_DELAY_MILLIS,
            ),
            (Phase::InSession, SupervisorEvent::SessionEnded) => SupervisorAction::Wait(
                RECONNECT_DELAY_MILLIS,
            ),
            (Phase::Waiting, SupervisorEvent::DelayElapsed) => SupervisorAction::Connect,
            _ => SupervisorAction::Nothing,
        }
    }

    /// The supervisor after `event`.
    pub open spec fn after(self, event: SupervisorEvent) -> Supervisor {
        match self.action_for(event) {
            SupervisorAction::Connect => Supervisor {
                phase: Phase::Connecting,
                attempts: if self.attempts < u64::MAX {
                    (self.attempts + 1) as u64
                } else {
                    self.attempts
                },
            },
            SupervisorAction::Register => Supervisor { phase: Phase::InSession, ..self },
            SupervisorAction::Wait(_) => Supervisor { phase: Phase::Waiting, ..self },
            SupervisorAction::Nothing => self,
        }
    }

    /// A supervisor that has not started.
    pub fn new() -> (supervisor: Supervisor)
        ensures
            supervisor == (Supervisor { phase: Phase::Idle, attempts: 0 }),
    {
        Supervisor { phase: Phase::Idle, attempts: 0 }
    }

    /// Takes one event and says what to do.
    ///
    /// A connection is opened only at the start and after a full wait; every
    /// end of a session and every failed attempt is followed by a wait of
    /// [`RECONNECT_DELAY_MILLIS`]; every connection that opens is registered.
    pub fn on_event(&mut self, event: SupervisorEvent) -> (action: SupervisorAction)
        ensures
            action == old(self).action_for(event),
            *final(self) == old(self).after(event),
            action is Connect ==> old(self).phase is Idle || old(self).phase is Waiting,
            final(self).phase is Waiting && !(old(self).phase is Waiting) ==> action
                == SupervisorAction::Wait(RECONNECT_DELAY_MILLIS),
    {
        match (self.phase, event) {
            (Phase::Idle, SupervisorEvent::Start)
            | (Phase::Waiting, SupervisorEvent::DelayElapsed) => {
                self.phase = Phase::Connecting;
                self.attempts = self.attempts.saturating_add(1);
                SupervisorAction::Connect
            },
            (Phase::Connecting, SupervisorEvent::Connected) => {
                self.phase = Phase::InSession;
                SupervisorAction::Register
            },
            (Phase::Connecting, SupervisorEvent::ConnectFailed)
            | (Phase::InSession, SupervisorEvent::SessionEnded) => {
                self.phase = Phase::Waiting;
                SupervisorAction::Wait(RECONNECT_DELAY_MILLIS)
            },
            _ => SupervisorAction::Nothing,
        }
    }
}

} // verus!
