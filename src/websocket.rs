//! The WebSocket side: each text frame carries one call in an envelope
//! `{"method": <name>, "params": {...}}` and is answered by one text frame.
use vstd::prelude::*;
use crate::actor::{Actor, dispatch_outcome, value_outcome};
use crate::server::Service;
use crate::json::{JsonModel, json_content, json_parse, json_quoted, json_text, parse_value, quote, member, as_text, to_text};
use crate::text::push_text;

verus! {

/// An incoming WebSocket frame, as far as the session cares.
#[derive(Clone, Debug)]
pub enum Frame {
    Text(String),
    Binary(Vec<u8>),
    Ping(Vec<u8>),
    Pong(Vec<u8>),
    Close,
}

/// The plain content of a `Frame`.
pub enum FrameModel {
    Text(Seq<char>),
    Binary(Seq<u8>),
    Ping(Seq<u8>),
    Pong(Seq<u8>),
    Close,
}

impl View for Frame {
    type V = FrameModel;

    open spec fn view(&self) -> FrameModel {
        match self {
            Frame::Text(t) => FrameModel::Text(t@),
            Frame::Binary(b) => FrameModel::Binary(b@),
            Frame::Ping(b) => FrameModel::Ping(b@),
            Frame::Pong(b) => FrameModel::Pong(b@),
            Frame::Close => FrameModel::Close,
        }
    }
}

/// What the session does with a frame.
#[derive(Clone, Debug)]
pub enum FrameAction {
    /// Send this text frame back.
    Reply(String),
    /// Do nothing and wait for the next frame.
    Ignore,
    /// End the session and release the connection.
    Stop,
}

/// The plain content of a `FrameAction`.
pub enum ActionModel {
    Reply(Seq<char>),
    Ignore,
    Stop,
}

impl View for FrameAction {
    type V = ActionModel;

    open spec fn view(&self) -> ActionModel {
        match self {
            FrameAction::Reply(t) => ActionModel::Reply(t@),
            FrameAction::Ignore => ActionModel::Ignore,
            FrameAction::Stop => ActionModel::Stop,
        }
    }
}

/// The JSON object `{"error": <message>}`, as the session writes it.
pub open spec fn error_object(message: Seq<char>) -> Seq<char> {
    "{\"error\":"@ + json_quoted(message) + "}"@
}

/// The message for an envelope without a string `method` and a `params`.
pub open spec fn invalid_envelope_message() -> Seq<char> {
    "Invalid message format. Expected {\"method\": \"method_name\", \"params\": {...}}"@
}

/// The answer to a parsed envelope.
pub open spec fn envelope_outcome<A: Actor + ?Sized>(actor: &A, j: JsonModel) -> Seq<char> {
    if j is Object && j->Object_0.contains_key("method"@) && j->Object_0["method"@] is Str
        && j->Object_0.contains_key("params"@) {
        dispatch_outcome(
            actor,
            j->Object_0["method"@]->Str_0,
            json_parse(json_text(j->Object_0["params"@])),
        )
    } else {
        error_object(invalid_envelope_message())
    }
}

/// An envelope whose `method` is a string and whose `params` is `{}`.
pub open spec fn empty_params_envelope(j: JsonModel) -> bool {
    j is Object && j->Object_0.contains_key("method"@) && j->Object_0["method"@] is Str
        && j->Object_0.contains_key("params"@) && j->Object_0["params"@] == JsonModel::Object(
        Map::empty(),
    )
}

/// The answer to a text frame.
pub open spec fn text_outcome<A: Actor + ?Sized>(actor: &A, text: Seq<char>) -> Seq<char> {
    match json_parse(text) {
        Err(e) => error_object("JSON parse error: "@ + e),
        Ok(j) => envelope_outcome(actor, j),
    }
}

/// What the session does with a frame.
pub open spec fn frame_outcome<A: Actor + ?Sized>(actor: &A, frame: FrameModel) -> ActionModel {
    match frame {
        FrameModel::Text(t) => ActionModel::Reply(text_outcome(actor, t)),
        FrameModel::Close => ActionModel::Stop,
        _ => ActionModel::Ignore,
    }
}

/// `{"error": <message>}` as JSON text.
fn error_reply(message: &str) -> (r: String)
    ensures
        r@ == error_object(message@),
{
    let mut out = "{\"error\":".to_owned();
    let quoted = quote(message);
    push_text(&mut out, quoted.as_str());
    push_text(&mut out, "}");
    assert(out@ =~= error_object(message@));
    out
}

/// Answers a parsed envelope: dispatches its `method` with the JSON text of
/// its `params`, or reports an envelope of the wrong shape.
pub fn handle_envelope<A: Actor>(service: &Service<A>, envelope: &serde_json::Value) -> (r: String)
    ensures
        r@ == envelope_outcome(&service.actor(), json_content(*envelope)),
        empty_params_envelope(json_content(*envelope)) ==> r@ == value_outcome(
            &service.actor(),
            json_content(*envelope)->Object_0["method"@]->Str_0,
            JsonModel::Object(Map::empty()),
        ),
{
    let method = member(envelope, "method");
    let params = member(envelope, "params");
    match (method, params) {
        (Some(m), Some(p)) => match as_text(m) {
            Some(name) => {
                let params_text = to_text(p);
                service.dispatch(name, params_text.as_str())
            },
            None => error_reply(
                "Invalid message format. Expected {\"method\": \"method_name\", \"params\": {...}}",
            ),
        },
        _ => error_reply(
            "Invalid message format. Expected {\"method\": \"method_name\", \"params\": {...}}",
        ),
    }
}

/// Answers the text of one frame.
pub fn handle_websocket_text<A: Actor>(service: &Service<A>, text: &str) -> (r: String)
    ensures
        r@ == text_outcome(&service.actor(), text@),
{
    match parse_value(text) {
        Err(reason) => {
            let mut message = "JSON parse error: ".to_owned();
            push_text(&mut message, reason.as_str());
            error_reply(message.as_str())
        },
        Ok(v) => handle_envelope(service, &v),
    }
}

/// Decides what the session does with one incoming frame: a text frame is
/// answered, a close frame ends the session, any other frame is ignored.
pub fn handle_websocket_frame<A: Actor>(service: &Service<A>, frame: &Frame) -> (r: FrameAction)
    ensures
        r@ == frame_outcome(&service.actor(), frame@),
{
    match frame {
        Frame::Text(t) => FrameAction::Reply(handle_websocket_text(service, t.as_str())),
        Frame::Close => FrameAction::Stop,
        _ => FrameAction::Ignore,
    }
}

} // verus!
