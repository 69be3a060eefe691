use vstd::prelude::*;
use vstd::string::StringExecFns;

verus! {

/// Pause before a new connection attempt, in seconds.
pub const RECONNECT_DELAY_SECS: u64 = 5;

#[derive(Debug, Clone, Copy, PartialEq, Eq, Structural)]
pub enum SupervisorState {
    /// A connection attempt is under way.
    Connecting,
    /// A session runs on the connection.
    InSession,
    /// Waiting out the delay before the next attempt.
    Waiting,
}

#[derive(Debug, Clone, Copy, PartialEq, Eq, Structural)]
pub enum SupervisorEvent {
    Connected,
    ConnectFailed,
    /// The session ended, by a close of the peer or by an error.
    SessionEnded,
    DelayElapsed,
}

#[derive(Debug, Clone, Copy, PartialEq, Eq, Structural)]
pub enum SupervisorAction {
    RunSession,
    Sleep(u64),
    Connect,
}

/// The events that can reach the supervisor in each state.
pub open spec fn accepts(s: SupervisorState, e: SupervisorEvent) -> bool {
    match s {
        SupervisorState::Connecting => e is Connected || e is ConnectFailed,
        SupervisorState::InSession => e is SessionEnded,
        SupervisorState::Waiting => e is DelayElapsed,
    }
}

/// Some event can still reach the supervisor in state `s`.
pub open spec fn has_next(s: SupervisorState) -> bool {
    exists|e: SupervisorEvent| accepts(s, e)
}

/// The next state and action after `e` in state `s`.
pub open spec fn transition(s: SupervisorState, e: SupervisorEvent) -> (SupervisorState, SupervisorAction) {
    match e {
        SupervisorEvent::Connected => (SupervisorState::InSession, SupervisorAction::RunSession),
        SupervisorEvent::DelayElapsed => (SupervisorState::Connecting, SupervisorAction::Connect),
        _ => (SupervisorState::Waiting, SupervisorAction::Sleep(RECONNECT_DELAY_SECS)),
    }
}

/// The outer lifecycle: connect, run a session, and after any end or failed
/// attempt wait a fixed delay and connect again, forever.
#[derive(Debug)]
pub struct Supervisor {
    pub state: SupervisorState,
}

impl Supervisor {
    /// A supervisor about to make its first attempt; its first action is `Connect`.
    pub fn new() -> (r: (Supervisor, SupervisorAction))
        ensures
            r.0.state == SupervisorState::Connecting,
            r.1 == SupervisorAction::Connect,
    {
        (Supervisor { state: SupervisorState::Connecting }, SupervisorAction::Connect)
    }

    pub fn next(&mut self, e: SupervisorEvent) -> (r: SupervisorAction)
        requires
            accepts(old(self).state, e),
        ensures
            (final(self).state, r) == transition(old(self).state, e),
    {
        match e {
            SupervisorEvent::Connected => {
                self.state = SupervisorState::InSession;
                SupervisorAction::RunSession
            },
            SupervisorEvent::DelayElapsed => {
                self.state = SupervisorState::Connecting;
                SupervisorAction::Connect
            },
            _ => {
                self.state = SupervisorState::Waiting;
                SupervisorAction::Sleep(RECONNECT_DELAY_SECS)
            },
        }
    }
}

/// After a failed attempt or the end of a session, of any kind, the supervisor
/// sleeps the fixed delay and then connects again; and no state is final, so
/// it goes on doing so without end.
pub proof fn lemma_reconnects_after_failure(s: SupervisorState, e: SupervisorEvent)
    requires
        accepts(s, e),
        e is ConnectFailed || e is SessionEnded,
    ensures
        transition(s, e) == (SupervisorState::Waiting, SupervisorAction::Sleep(RECONNECT_DELAY_SECS)),
        accepts(SupervisorState::Waiting, SupervisorEvent::DelayElapsed),
        transition(SupervisorState::Waiting, SupervisorEvent::DelayElapsed) == (
            SupervisorState::Connecting,
            SupervisorAction::Connect,
        ),
        forall|t: SupervisorState| #[trigger] has_next(t),
{
    assert forall|t: SupervisorState| #[trigger] has_next(t) by {
        match t {
            SupervisorState::Connecting => assert(accepts(t, SupervisorEvent::Connected)),
            SupervisorState::InSession => assert(accepts(t, SupervisorEvent::SessionEnded)),
            SupervisorState::Waiting => assert(accepts(t, SupervisorEvent::DelayElapsed)),
        }
    }
}

/// The value of the `Authorization` header that carries `token`.
pub fn authorization_value(token: &str) -> (r: String)
    ensures
        r@ == "Bearer "@ + token@,
{
    String::from_str("Bearer ").concat(token)
}

} // verus!
