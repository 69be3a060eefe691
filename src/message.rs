use vstd::prelude::*;
use vstd::string::StringExecFns;

use crate::json::{find_member, lookup, Json};
use crate::query::{engine_of, DBEngine, Query};

verus! {

/// A command sent by the server.
#[derive(Debug)]
pub enum ServerCommand {
    Query(Query),
}

/// The value an agent hands back for a command.
#[derive(Debug)]
pub enum AgentResult {
    QueryResult(Json),
}

/// An inbound envelope: a command and the channel its answer must carry.
#[derive(Debug)]
pub struct ServerCommandMsg {
    pub channel: String,
    pub payload: ServerCommand,
}

/// The answer to the command that came on `channel`.
#[derive(Debug)]
pub struct AgentResultMsg {
    pub channel: String,
    pub payload: AgentResult,
}

/// A message the agent may push on its own; it has no fields yet.
#[derive(Debug, Clone, Copy, PartialEq, Eq, Structural)]
pub struct AgentNotification {}

/// What the agent sends inside an outbound envelope.
#[derive(Debug)]
pub enum PayloadFromAgent {
    Result(AgentResultMsg),
    Notification(AgentNotification),
}

/// An outbound envelope.
#[derive(Debug)]
pub struct AgentMsg {
    pub channel: String,
    pub payload: PayloadFromAgent,
}

/// Why an inbound frame is not a command.
#[derive(Debug)]
pub struct DecodeError {
    pub cause: String,
}

/// The content of an inbound envelope.
pub struct CommandView {
    pub channel: Seq<char>,
    pub uri: Seq<char>,
    pub engine: DBEngine,
    pub data: Json,
}

impl View for ServerCommandMsg {
    type V = CommandView;

    open spec fn view(&self) -> CommandView {
        match self.payload {
            ServerCommand::Query(q) => CommandView {
                channel: self.channel@,
                uri: q.uri@,
                engine: q.engine,
                data: q.data,
            },
        }
    }
}

/// The engine described by `{"type": tag, "version": n}`.
pub open spec fn engine_of_json(j: Json) -> Option<DBEngine> {
    match j {
        Json::Object(m) => match lookup(m@, "type"@) {
            Some(Json::Str(t)) => match lookup(m@, "version"@) {
                Some(Json::UInt(n)) => if n <= u16::MAX {
                    engine_of(t@, n as u16)
                } else {
                    None
                },
                _ => None,
            },
            _ => None,
        },
        _ => None,
    }
}

/// The query described by `{"uri": .., "engine": .., "data": ..}`.
pub open spec fn query_of(channel: Seq<char>, j: Json) -> Option<CommandView> {
    match j {
        Json::Object(m) => match lookup(m@, "uri"@) {
            Some(Json::Str(u)) => match lookup(m@, "engine"@) {
                Some(e) => match engine_of_json(e) {
                    Some(engine) => match lookup(m@, "data"@) {
                        Some(d) => Some(CommandView { channel, uri: u@, engine, data: d }),
                        None => None,
                    },
                    None => None,
                },
                None => None,
            },
            _ => None,
        },
        _ => None,
    }
}

/// The command that an inbound JSON value holds, if it is one:
/// `{"channel": .., "payload": {"Query": ..}}`.
pub open spec fn command_of(j: Json) -> Option<CommandView> {
    match j {
        Json::Object(m) => match lookup(m@, "channel"@) {
            Some(Json::Str(c)) => match lookup(m@, "payload"@) {
                Some(Json::Object(p)) => if p@.len() == 1 && p@[0].0@ == "Query"@ {
                    query_of(c@, p@[0].1)
                } else {
                    None
                },
                _ => None,
            },
            _ => None,
        },
        _ => None,
    }
}

impl DecodeError {
    pub fn new(cause: &str) -> (r: DecodeError)
        ensures
            r.cause@ == cause@,
    {
        DecodeError { cause: String::from_str(cause) }
    }
}

/// Reads an engine selector.
pub fn decode_engine(j: &Json) -> (r: Option<DBEngine>)
    ensures
        r == engine_of_json(*j),
{
    match j {
        Json::Object(m) => {
            let t = match find_member(m, "type") {
                Some(i) => match &m[i].1 {
                    Json::Str(t) => t,
                    _ => return None,
                },
                None => return None,
            };
            let n = match find_member(m, "version") {
                Some(i) => match &m[i].1 {
                    Json::UInt(n) => *n,
                    _ => return None,
                },
                None => return None,
            };
            if n > 65535 {
                return None;
            }
            DBEngine::from_tag(t.as_str(), n as u16)
        },
        _ => None,
    }
}

/// Reads the body of a `Query` command that came on `channel`.
fn decode_query(channel: String, body: Json) -> (r: Result<ServerCommandMsg, DecodeError>)
    ensures
        r is Ok <==> query_of(channel@, body) is Some,
        r is Ok ==> query_of(channel@, body) == Some(r->Ok_0@),
{
    match body {
        Json::Object(mut m) => {
            let uri = match find_member(&m, "uri") {
                Some(i) => match &m[i].1 {
                    Json::Str(u) => u.clone(),
                    _ => return Err(DecodeError::new("field `uri` is not a string")),
                },
                None => return Err(DecodeError::new("missing field `uri`")),
            };
            let engine = match find_member(&m, "engine") {
                Some(i) => match decode_engine(&m[i].1) {
                    Some(e) => e,
                    None => return Err(DecodeError::new("field `engine` names no known engine")),
                },
                None => return Err(DecodeError::new("missing field `engine`")),
            };
            match find_member(&m, "data") {
                Some(i) => {
                    let (_, data) = m.remove(i);
                    Ok(ServerCommandMsg { channel, payload: ServerCommand::Query(Query { uri, engine, data }) })
                },
                None => Err(DecodeError::new("missing field `data`")),
            }
        },
        _ => Err(DecodeError::new("a query is not an object")),
    }
}

/// Reads an inbound envelope. Exactly the values that `command_of` accepts are
/// read, and they are read as `command_of` says.
pub fn decode_command(j: Json) -> (r: Result<ServerCommandMsg, DecodeError>)
    ensures
        r is Ok <==> command_of(j) is Some,
        r is Ok ==> command_of(j) == Some(r->Ok_0@),
{
    match j {
        Json::Object(mut m) => {
            let channel = match find_member(&m, "channel") {
                Some(i) => match &m[i].1 {
                    Json::Str(c) => c.clone(),
                    _ => return Err(DecodeError::new("field `channel` is not a string")),
                },
                None => return Err(DecodeError::new("missing field `channel`")),
            };
            let mut variants = match find_member(&m, "payload") {
                Some(i) => {
                    let (_, p) = m.remove(i);
                    match p {
                        Json::Object(v) => v,
                        _ => return Err(DecodeError::new("field `payload` is not an object")),
                    }
                },
                None => return Err(DecodeError::new("missing field `payload`")),
            };
            if variants.len() != 1 {
                return Err(DecodeError::new("field `payload` must hold exactly one command"));
            }
            let (name, body) = variants.remove(0);
            if name != String::from_str("Query") {
                return Err(DecodeError::new("unknown command"));
            }
            decode_query(channel, body)
        },
        _ => Err(DecodeError::new("an envelope is not an object")),
    }
}

/// A member of an object.
fn member(key: &str, value: Json) -> (r: (String, Json))
    ensures
        r.0@ == key@,
        r.1 == value,
{
    (String::from_str(key), value)
}

/// Writes an engine selector as `{"type": tag, "version": n}`.
pub fn encode_engine(e: DBEngine) -> (r: Json)
    ensures
        engine_of_json(r) == Some(e),
{
    let tag = Json::Str(String::from_str(e.tag()));
    let version = Json::UInt(e.version() as u64);
    let fields = vec![member("type", tag), member("version", version)];
    proof {
        reveal_strlit("type");
        reveal_strlit("version");
        assert("type"@[0] != "version"@[0]);
        assert(fields@.drop_first()[0] == fields@[1]);
        assert(lookup(fields@, "type"@) == Some(fields@[0].1));
        assert(lookup(fields@.drop_first(), "version"@) == Some(fields@[1].1));
        assert(lookup(fields@, "version"@) == Some(fields@[1].1));
        crate::query::lemma_engine_tag_round_trip(e);
    }
    Json::Object(fields)
}

/// Writes a command as the server sends it. Reading the result back gives the
/// same command.
pub fn encode_command(msg: ServerCommandMsg) -> (r: Json)
    ensures
        command_of(r) == Some(msg@),
{
    let ghost view = msg@;
    let ServerCommandMsg { channel, payload } = msg;
    let ServerCommand::Query(q) = payload;
    let Query { uri, engine, data } = q;
    let query_fields = vec![
        member("uri", Json::Str(uri)),
        member("engine", encode_engine(engine)),
        member("data", data),
    ];
    let payload_fields = vec![member("Query", Json::Object(query_fields))];
    let fields = vec![member("channel", Json::Str(channel)), member("payload", Json::Object(payload_fields))];
    proof {
        reveal_strlit("uri");
        reveal_strlit("engine");
        reveal_strlit("data");
        reveal_strlit("channel");
        reveal_strlit("payload");
        assert("uri"@[0] != "engine"@[0] && "uri"@[0] != "data"@[0]);
        assert("engine"@[0] != "data"@[0]);
        assert("channel"@[0] != "payload"@[0]);
        assert(query_fields@.drop_first()[0] == query_fields@[1]);
        assert(query_fields@.drop_first().drop_first()[0] == query_fields@[2]);
        assert(fields@.drop_first()[0] == fields@[1]);
        let qs = query_fields@;
        assert(lookup(qs, "uri"@) == Some(qs[0].1));
        assert(lookup(qs.drop_first(), "engine"@) == Some(qs[1].1));
        assert(lookup(qs, "engine"@) == Some(qs[1].1));
        assert(lookup(qs.drop_first().drop_first(), "data"@) == Some(qs[2].1));
        assert(lookup(qs.drop_first(), "data"@) == Some(qs[2].1));
        assert(lookup(qs, "data"@) == Some(qs[2].1));
        assert(lookup(fields@, "channel"@) == Some(fields@[0].1));
        assert(lookup(fields@.drop_first(), "payload"@) == Some(fields@[1].1));
        assert(lookup(fields@, "payload"@) == Some(fields@[1].1));
    }
    Json::Object(fields)
}

/// What an outbound envelope carries.
pub enum PayloadView {
    Result { channel: Seq<char>, result: Json },
    Notification,
}

/// The content of an outbound envelope.
pub struct OutboundView {
    pub channel: Seq<char>,
    pub payload: PayloadView,
}

impl View for AgentMsg {
    type V = OutboundView;

    open spec fn view(&self) -> OutboundView {
        OutboundView {
            channel: self.channel@,
            payload: match self.payload {
                PayloadFromAgent::Result(m) => match m.payload {
                    AgentResult::QueryResult(v) => PayloadView::Result { channel: m.channel@, result: v },
                },
                PayloadFromAgent::Notification(_) => PayloadView::Notification,
            },
        }
    }
}

/// The result that `{"channel": .., "payload": {"QueryResult": ..}}` holds.
pub open spec fn result_of(j: Json) -> Option<PayloadView> {
    match j {
        Json::Object(m) => match lookup(m@, "channel"@) {
            Some(Json::Str(c)) => match lookup(m@, "payload"@) {
                Some(Json::Object(p)) => if p@.len() == 1 && p@[0].0@ == "QueryResult"@ {
                    Some(PayloadView::Result { channel: c@, result: p@[0].1 })
                } else {
                    None
                },
                _ => None,
            },
            _ => None,
        },
        _ => None,
    }
}

/// What `{"Result": ..}` or `{"Notification": {}}` holds.
pub open spec fn agent_payload_of(j: Json) -> Option<PayloadView> {
    match j {
        Json::Object(p) => if p@.len() != 1 {
            None
        } else if p@[0].0@ == "Result"@ {
            result_of(p@[0].1)
        } else if p@[0].0@ == "Notification"@ {
            match p@[0].1 {
                Json::Object(_) => Some(PayloadView::Notification),
                _ => None,
            }
        } else {
            None
        },
        _ => None,
    }
}

/// The outbound envelope that a JSON value holds, if it is one.
pub open spec fn outbound_of(j: Json) -> Option<OutboundView> {
    match j {
        Json::Object(m) => match lookup(m@, "channel"@) {
            Some(Json::Str(c)) => match lookup(m@, "payload"@) {
                Some(p) => match agent_payload_of(p) {
                    Some(payload) => Some(OutboundView { channel: c@, payload }),
                    None => None,
                },
                None => None,
            },
            _ => None,
        },
        _ => None,
    }
}

impl AgentMsg {
    /// The reply to a command that came on `channel` and produced `result`.
    pub fn response(channel: String, result: Json) -> (r: AgentMsg)
        ensures
            r@ == (OutboundView {
                channel: channel@,
                payload: PayloadView::Result { channel: channel@, result },
            }),
    {
        let inner = channel.clone();
        AgentMsg {
            channel,
            payload: PayloadFromAgent::Result(AgentResultMsg { channel: inner, payload: AgentResult::QueryResult(result) }),
        }
    }
}

/// Writes an outbound envelope. Reading the result back gives the same
/// envelope.
pub fn encode_outbound(msg: AgentMsg) -> (r: Json)
    ensures
        outbound_of(r) == Some(msg@),
{
    let ghost view = msg@;
    let AgentMsg { channel, payload } = msg;
    let body = match payload {
        PayloadFromAgent::Result(m) => {
            let AgentResultMsg { channel: inner, payload: result } = m;
            let AgentResult::QueryResult(v) = result;
            let result_fields = vec![member("QueryResult", v)];
            let fields = vec![member("channel", Json::Str(inner)), member("payload", Json::Object(result_fields))];
            proof {
                reveal_strlit("channel");
                reveal_strlit("payload");
                assert("channel"@[0] != "payload"@[0]);
                crate::json::lemma_lookup_pair(fields@, "channel"@, "payload"@);
            }
            member("Result", Json::Object(fields))
        },
        PayloadFromAgent::Notification(_) => member("Notification", Json::Object(Vec::new())),
    };
    let ghost key = body.0@;
    let payload_fields = vec![body];
    let fields = vec![member("channel", Json::Str(channel)), member("payload", Json::Object(payload_fields))];
    proof {
        reveal_strlit("channel");
        reveal_strlit("payload");
        reveal_strlit("Result");
        reveal_strlit("Notification");
        assert("channel"@[0] != "payload"@[0]);
        assert("Result"@[0] != "Notification"@[0]);
        crate::json::lemma_lookup_pair(fields@, "channel"@, "payload"@);
    }
    Json::Object(fields)
}

/// Reads `{"channel": .., "payload": {"QueryResult": ..}}`.
fn decode_result(j: Json) -> (r: Result<AgentResultMsg, DecodeError>)
    ensures
        r is Ok <==> result_of(j) is Some,
        r matches Ok(m) ==> result_of(j) == Some(match m.payload {
            AgentResult::QueryResult(v) => PayloadView::Result { channel: m.channel@, result: v },
        }),
{
    match j {
        Json::Object(mut m) => {
            let channel = match find_member(&m, "channel") {
                Some(i) => match &m[i].1 {
                    Json::Str(c) => c.clone(),
                    _ => return Err(DecodeError::new("field `channel` is not a string")),
                },
                None => return Err(DecodeError::new("missing field `channel`")),
            };
            let mut variants = match find_member(&m, "payload") {
                Some(i) => {
                    let (_, p) = m.remove(i);
                    match p {
                        Json::Object(v) => v,
                        _ => return Err(DecodeError::new("field `payload` is not an object")),
                    }
                },
                None => return Err(DecodeError::new("missing field `payload`")),
            };
            if variants.len() != 1 {
                return Err(DecodeError::new("field `payload` must hold exactly one result"));
            }
            let (name, value) = variants.remove(0);
            if name != String::from_str("QueryResult") {
                return Err(DecodeError::new("unknown result"));
            }
            Ok(AgentResultMsg { channel, payload: AgentResult::QueryResult(value) })
        },
        _ => Err(DecodeError::new("a result is not an object")),
    }
}

/// Reads an outbound envelope. Exactly the values that `outbound_of` accepts
/// are read, and they are read as `outbound_of` says.
pub fn decode_outbound(j: Json) -> (r: Result<AgentMsg, DecodeError>)
    ensures
        r is Ok <==> outbound_of(j) is Some,
        r is Ok ==> outbound_of(j) == Some(r->Ok_0@),
{
    match j {
        Json::Object(mut m) => {
            let channel = match find_member(&m, "channel") {
                Some(i) => match &m[i].1 {
                    Json::Str(c) => c.clone(),
                    _ => return Err(DecodeError::new("field `channel` is not a string")),
                },
                None => return Err(DecodeError::new("missing field `channel`")),
            };
            let mut variants = match find_member(&m, "payload") {
                Some(i) => {
                    let (_, p) = m.remove(i);
                    match p {
                        Json::Object(v) => v,
                        _ => return Err(DecodeError::new("field `payload` is not an object")),
                    }
                },
                None => return Err(DecodeError::new("missing field `payload`")),
            };
            if variants.len() != 1 {
                return Err(DecodeError::new("field `payload` must hold exactly one variant"));
            }
            let (name, value) = variants.remove(0);
            if name == String::from_str("Result") {
                match decode_result(value) {
                    Ok(r) => Ok(AgentMsg { channel, payload: PayloadFromAgent::Result(r) }),
                    Err(e) => Err(e),
                }
            } else if name == String::from_str("Notification") {
                match value {
                    Json::Object(_) => Ok(AgentMsg { channel, payload: PayloadFromAgent::Notification(AgentNotification {}) }),
                    _ => Err(DecodeError::new("a notification is not an object")),
                }
            } else {
                Err(DecodeError::new("unknown variant"))
            }
        },
        _ => Err(DecodeError::new("an envelope is not an object")),
    }
}

} // verus!
