use vstd::prelude::*;

use crate::json::Json;
use crate::message::{
    command_of, decode_command, encode_outbound, outbound_of, AgentMsg, DecodeError, OutboundView,
    PayloadView, ServerCommand, ServerCommandMsg,
};
use crate::query::{is_supported, plan_of, ExecutionError, ExecutionPlan};

verus! {

/// Period of the heartbeat timer, in seconds.
pub const HEARTBEAT_PERIOD_SECS: u64 = 15;

/// What the connection hands the session, one at a time.
#[derive(Debug)]
pub enum SessionEvent {
    /// A text frame, read as JSON; `None` where the text is not JSON.
    Text(Option<Json>),
    Ping(Vec<u8>),
    Pong(Vec<u8>),
    Binary(Vec<u8>),
    /// A raw frame of a kind the protocol does not read.
    RawFrame,
    /// The peer closed the connection.
    Close,
    ReadFailed(String),
    /// The stream ended without a close frame.
    EndOfStream,
    /// The heartbeat timer fired.
    HeartbeatTick,
    /// The executor finished the pending query.
    QueryFinished(Result<Json, String>),
    /// Writing the last outbound frame failed.
    WriteFailed(String),
}

/// A failure that the session reports and survives.
#[derive(Debug)]
pub enum Failure {
    NotJson,
    Decode(DecodeError),
    Execution(ExecutionError),
    QueryFailed(String),
}

/// What the session asks of its connection and executor.
#[derive(Debug)]
pub enum SessionAction {
    SendText(Json),
    SendPong(Vec<u8>),
    SendPing(Vec<u8>),
    Execute(ExecutionPlan),
    Report(Failure),
}

/// Why a session ended. Only `ClosedByPeer` is a normal end.
#[derive(Debug)]
pub enum EndReason {
    ClosedByPeer,
    ReadFailed(String),
    StreamEnded,
    WriteFailed(String),
}

/// Where a session stands in its lifecycle.
#[derive(Debug)]
pub enum SessionState {
    /// Running, waiting for a frame or a heartbeat tick.
    Idle,
    /// Running, with a query under way for the command that came on this channel.
    Executing(String),
    Terminated(EndReason),
}

/// One live connection's protocol state.
#[derive(Debug)]
pub struct Session {
    pub state: SessionState,
}

/// The payload of heartbeat pings: the bytes of `heartbeat`.
pub open spec fn heartbeat_bytes() -> Seq<u8> {
    seq![104u8, 101, 97, 114, 116, 98, 101, 97, 116]
}

pub fn heartbeat_payload() -> (r: Vec<u8>)
    ensures
        r@ == heartbeat_bytes(),
{
    let r: Vec<u8> = vec![104u8, 101, 97, 114, 116, 98, 101, 97, 116];
    assert(r@ =~= heartbeat_bytes());
    r
}

impl Session {
    pub fn new() -> (r: Session)
        ensures
            r.state is Idle,
    {
        Session { state: SessionState::Idle }
    }

    pub open spec fn is_running(&self) -> bool {
        !(self.state is Terminated)
    }

    /// The events that can reach the session in its state: nothing after it
    /// ended, and while a query runs nothing but its completion, since the
    /// loop waits for the query before it reads again.
    pub open spec fn expects(&self, event: &SessionEvent) -> bool {
        match self.state {
            SessionState::Idle => !(event is QueryFinished),
            SessionState::Executing(_) => event is QueryFinished,
            SessionState::Terminated(_) => false,
        }
    }

    pub fn is_terminated(&self) -> (r: bool)
        ensures
            r == !self.is_running(),
    {
        match self.state {
            SessionState::Terminated(_) => true,
            _ => false,
        }
    }

    /// Handles one event and returns what to do, in order.
    pub fn step(&mut self, event: SessionEvent) -> (r: Vec<SessionAction>)
        requires
            old(self).expects(&event),
        ensures
            event matches SessionEvent::Text(None) ==> (r@.len() == 1 && (r@[0] matches SessionAction::Report(Failure::NotJson))
                && final(self).state is Idle),
            event matches SessionEvent::Text(Some(j)) ==> match command_of(j) {
                None => r@.len() == 1 && (r@[0] matches SessionAction::Report(Failure::Decode(_)))
                    && final(self).state is Idle,
                Some(c) => if !is_supported(c.engine) {
                    r@.len() == 1 && (r@[0] matches SessionAction::Report(Failure::Execution(ExecutionError::Unsupported(e)))
                        && e == c.engine) && final(self).state is Idle
                } else {
                    match plan_of(c.uri, c.engine, c.data) {
                        Some(p) => r@.len() == 1 && (r@[0] matches SessionAction::Execute(x) && x@ == p)
                            && (final(self).state matches SessionState::Executing(ch) && ch@ == c.channel),
                        None => r@.len() == 1 && (r@[0] matches SessionAction::Report(Failure::Execution(ExecutionError::InvalidData(_))))
                            && final(self).state is Idle,
                    }
                },
            },
            event matches SessionEvent::Ping(p) ==> (r@.len() == 1 && (r@[0] matches SessionAction::SendPong(q) && q == p)
                && final(self).state is Idle),
            event is Pong || event is Binary || event is RawFrame ==> r@.len() == 0 && final(self).state is Idle,
            event is Close ==> r@.len() == 0 && final(self).state matches SessionState::Terminated(EndReason::ClosedByPeer),
            event matches SessionEvent::ReadFailed(e) ==> r@.len() == 0
                && (final(self).state matches SessionState::Terminated(EndReason::ReadFailed(f)) && f == e),
            event is EndOfStream ==> r@.len() == 0 && final(self).state matches SessionState::Terminated(EndReason::StreamEnded),
            event is HeartbeatTick ==> (r@.len() == 1 && (r@[0] matches SessionAction::SendPing(h) && h@ == heartbeat_bytes())
                && final(self).state is Idle),
            event matches SessionEvent::WriteFailed(e) ==> r@.len() == 0
                && (final(self).state matches SessionState::Terminated(EndReason::WriteFailed(f)) && f == e),
            event matches SessionEvent::QueryFinished(Ok(v)) ==> (old(self).state matches SessionState::Executing(ch)
                && r@.len() == 1 && (r@[0] matches SessionAction::SendText(j) && outbound_of(j) == Some(OutboundView {
                    channel: ch@,
                    payload: PayloadView::Result { channel: ch@, result: v },
                })) && final(self).state is Idle),
            event matches SessionEvent::QueryFinished(Err(e)) ==> (r@.len() == 1 && (r@[0] matches SessionAction::Report(Failure::QueryFailed(f)) && f == e)
                && final(self).state is Idle),
    {
        match event {
            SessionEvent::Text(None) => vec![SessionAction::Report(Failure::NotJson)],
            SessionEvent::Text(Some(j)) => match decode_command(j) {
                Err(e) => vec![SessionAction::Report(Failure::Decode(e))],
                Ok(msg) => {
                    let ServerCommandMsg { channel, payload } = msg;
                    let ServerCommand::Query(q) = payload;
                    match q.plan() {
                        Ok(p) => {
                            self.state = SessionState::Executing(channel);
                            vec![SessionAction::Execute(p)]
                        },
                        Err(e) => vec![SessionAction::Report(Failure::Execution(e))],
                    }
                },
            },
            SessionEvent::Ping(p) => vec![SessionAction::SendPong(p)],
            SessionEvent::Pong(_) => Vec::new(),
            SessionEvent::Binary(_) => Vec::new(),
            SessionEvent::RawFrame => Vec::new(),
            SessionEvent::Close => {
                self.state = SessionState::Terminated(EndReason::ClosedByPeer);
                Vec::new()
            },
            SessionEvent::ReadFailed(e) => {
                self.state = SessionState::Terminated(EndReason::ReadFailed(e));
                Vec::new()
            },
            SessionEvent::EndOfStream => {
                self.state = SessionState::Terminated(EndReason::StreamEnded);
                Vec::new()
            },
            SessionEvent::HeartbeatTick => vec![SessionAction::SendPing(heartbeat_payload())],
            SessionEvent::WriteFailed(e) => {
                self.state = SessionState::Terminated(EndReason::WriteFailed(e));
                Vec::new()
            },
            SessionEvent::QueryFinished(outcome) => {
                let channel = match &self.state {
                    SessionState::Executing(ch) => ch.clone(),
                    _ => {
                        assert(false);
                        String::new()
                    },
                };
                self.state = SessionState::Idle;
                match outcome {
                    Ok(v) => vec![SessionAction::SendText(encode_outbound(AgentMsg::response(channel, v)))],
                    Err(e) => vec![SessionAction::Report(Failure::QueryFailed(e))],
                }
            },
        }
    }
}

/// Commands are handled one at a time: while the query of one command runs,
/// the only event the session takes is that query's completion, so no later
/// frame, and no later command, is handled before it.
pub proof fn lemma_one_command_at_a_time(s: &Session, e: &SessionEvent)
    requires
        s.state is Executing,
        s.expects(e),
    ensures
        e is QueryFinished,
        !(e is Text),
{
}

} // verus!
