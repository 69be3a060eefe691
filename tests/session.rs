use kaiwadb_agent::json::Json;
use kaiwadb_agent::session::{
    heartbeat_payload, EndReason, Failure, Session, SessionAction, SessionEvent, SessionState,
    HEARTBEAT_PERIOD_SECS,
};
use kaiwadb_agent::query::{ExecutionError, ExecutionPlan};
use kaiwadb_agent::supervisor::{
    authorization_value, Supervisor, SupervisorAction, SupervisorEvent, SupervisorState, RECONNECT_DELAY_SECS,
};

fn s(x: &str) -> Json {
    Json::Str(x.to_string())
}

fn obj(members: Vec<(&str, Json)>) -> Json {
    Json::Object(members.into_iter().map(|(k, v)| (k.to_string(), v)).collect())
}

fn command(channel: &str, tag: &str, uri: &str, data: Json) -> Json {
    let engine = obj(vec![("type", s(tag)), ("version", Json::UInt(6))]);
    obj(vec![
        ("channel", s(channel)),
        ("payload", obj(vec![("Query", obj(vec![("uri", s(uri)), ("engine", engine), ("data", data)]))])),
    ])
}

fn response(channel: &str, result: Json) -> Json {
    obj(vec![
        ("channel", s(channel)),
        ("payload", obj(vec![("Result", obj(vec![("channel", s(channel)), ("payload", obj(vec![("QueryResult", result)]))]))])),
    ])
}

#[test]
fn example_mongo_command_gets_its_response() {
    let mut session = Session::new();
    let data = obj(vec![("collection", s("users")), ("pipeline", Json::Array(vec![]))]);
    let actions = session.step(SessionEvent::Text(Some(command("abc", "mongo", "mongodb://h/db", data))));
    assert_eq!(actions.len(), 1);
    match &actions[0] {
        SessionAction::Execute(ExecutionPlan::Mongo { uri, collection, pipeline }) => {
            assert_eq!(uri, "mongodb://h/db");
            assert_eq!(collection, "users");
            assert!(pipeline.is_empty());
        }
        other => panic!("unexpected action {:?}", other),
    }
    assert!(matches!(&session.state, SessionState::Executing(c) if c == "abc"));
    let result = || Json::Array(vec![obj(vec![("id", Json::UInt(1))])]);
    let actions = session.step(SessionEvent::QueryFinished(Ok(result())));
    assert_eq!(actions.len(), 1);
    match &actions[0] {
        SessionAction::SendText(j) => assert_eq!(j, &response("abc", result())),
        other => panic!("unexpected action {:?}", other),
    }
    assert!(matches!(session.state, SessionState::Idle));
}

#[test]
fn ping_is_answered_with_one_pong() {
    let mut session = Session::new();
    let actions = session.step(SessionEvent::Ping(vec![1, 2, 3]));
    assert_eq!(actions.len(), 1);
    assert!(matches!(&actions[0], SessionAction::SendPong(p) if p == &vec![1u8, 2, 3]));
    assert!(matches!(session.state, SessionState::Idle));
    let actions = session.step(SessionEvent::Ping(vec![]));
    assert!(matches!(&actions[0], SessionAction::SendPong(p) if p.is_empty()));
}

#[test]
fn heartbeat_tick_sends_one_ping() {
    let mut session = Session::new();
    let actions = session.step(SessionEvent::HeartbeatTick);
    assert_eq!(actions.len(), 1);
    assert!(matches!(&actions[0], SessionAction::SendPing(p) if p.as_slice() == b"heartbeat"));
    assert_eq!(heartbeat_payload(), b"heartbeat".to_vec());
    assert_eq!(HEARTBEAT_PERIOD_SECS, 15);
    assert!(matches!(session.state, SessionState::Idle));
}

#[test]
fn responses_follow_command_order() {
    let mut session = Session::new();
    let mut sent = Vec::new();
    for (channel, rows) in [("c1", 1u64), ("c2", 2u64)] {
        let actions = session.step(SessionEvent::Text(Some(command(channel, "postgres", "postgres://h/db", s("SELECT 1")))));
        assert!(matches!(&actions[0], SessionAction::Execute(ExecutionPlan::Postgres { .. })));
        for a in session.step(SessionEvent::QueryFinished(Ok(Json::UInt(rows)))) {
            if let SessionAction::SendText(j) = a {
                sent.push(j);
            }
        }
    }
    assert_eq!(sent, vec![response("c1", Json::UInt(1)), response("c2", Json::UInt(2))]);
}

#[test]
fn unsupported_engine_is_reported_without_reply() {
    let mut session = Session::new();
    let actions = session.step(SessionEvent::Text(Some(command("m", "mysql", "mysql://h/db", s("SELECT 1")))));
    assert_eq!(actions.len(), 1);
    assert!(matches!(&actions[0], SessionAction::Report(Failure::Execution(ExecutionError::Unsupported(_)))));
    assert!(matches!(session.state, SessionState::Idle));
}

#[test]
fn malformed_frames_are_reported_and_survived() {
    let mut session = Session::new();
    let actions = session.step(SessionEvent::Text(None));
    assert!(matches!(&actions[0], SessionAction::Report(Failure::NotJson)));
    let actions = session.step(SessionEvent::Text(Some(obj(vec![("channel", s("x"))]))));
    assert!(matches!(&actions[0], SessionAction::Report(Failure::Decode(_))));
    let actions = session.step(SessionEvent::Text(Some(command("p", "postgres", "u", Json::Null))));
    assert!(matches!(&actions[0], SessionAction::Report(Failure::Execution(ExecutionError::InvalidData(_)))));
    assert!(session.step(SessionEvent::Pong(vec![9])).is_empty());
    assert!(session.step(SessionEvent::Binary(vec![9])).is_empty());
    assert!(session.step(SessionEvent::RawFrame).is_empty());
    assert!(matches!(session.state, SessionState::Idle));
}

#[test]
fn failed_query_sends_nothing() {
    let mut session = Session::new();
    session.step(SessionEvent::Text(Some(command("q", "postgres", "u", s("SELECT 1")))));
    let actions = session.step(SessionEvent::QueryFinished(Err("refused".to_string())));
    assert_eq!(actions.len(), 1);
    assert!(matches!(&actions[0], SessionAction::Report(Failure::QueryFailed(e)) if e == "refused"));
    assert!(matches!(session.state, SessionState::Idle));
}

#[test]
fn session_ends_on_close_and_errors() {
    let mut a = Session::new();
    a.step(SessionEvent::Close);
    assert!(matches!(a.state, SessionState::Terminated(EndReason::ClosedByPeer)));
    assert!(a.is_terminated());
    let mut b = Session::new();
    b.step(SessionEvent::ReadFailed("reset".to_string()));
    assert!(matches!(&b.state, SessionState::Terminated(EndReason::ReadFailed(e)) if e == "reset"));
    let mut c = Session::new();
    c.step(SessionEvent::EndOfStream);
    assert!(matches!(c.state, SessionState::Terminated(EndReason::StreamEnded)));
    let mut d = Session::new();
    d.step(SessionEvent::HeartbeatTick);
    d.step(SessionEvent::WriteFailed("broken pipe".to_string()));
    assert!(matches!(&d.state, SessionState::Terminated(EndReason::WriteFailed(e)) if e == "broken pipe"));
    assert!(!Session::new().is_terminated());
}

#[test]
fn supervisor_reconnects_after_every_end() {
    let (mut sup, first) = Supervisor::new();
    assert_eq!(first, SupervisorAction::Connect);
    assert_eq!(sup.next(SupervisorEvent::ConnectFailed), SupervisorAction::Sleep(5));
    assert_eq!(RECONNECT_DELAY_SECS, 5);
    for _ in 0..3 {
        assert_eq!(sup.next(SupervisorEvent::DelayElapsed), SupervisorAction::Connect);
        assert_eq!(sup.next(SupervisorEvent::Connected), SupervisorAction::RunSession);
        assert_eq!(sup.state, SupervisorState::InSession);
        assert_eq!(sup.next(SupervisorEvent::SessionEnded), SupervisorAction::Sleep(RECONNECT_DELAY_SECS));
        assert_eq!(sup.state, SupervisorState::Waiting);
    }
}

#[test]
fn bearer_header() {
    assert_eq!(authorization_value("SECRET-REDACTED"), "Bearer SECRET-REDACTED");
    assert_eq!(authorization_value(""), "Bearer ");
}
