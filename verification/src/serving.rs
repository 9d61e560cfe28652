//! What servers answer, and how a handshake answer is read.

use vstd::prelude::*;
use crate::error::{CommunicationError, is_lock_conflict};
use crate::json::{JsonValue, is_json_text};
use crate::message::{CommunicationMessage, is_uuid_shape};
use crate::text::occurs_at;

verus! {

/// The payload of the acknowledgement a server sends when its handler gives
/// no answer.
pub open spec fn acknowledgement_text() -> Seq<char> {
    "Received"@
}

/// `r` is the acknowledgement of `request`: a fresh response that replies to
/// it with the payload "Received".
pub open spec fn is_acknowledgement(r: CommunicationMessage, request: CommunicationMessage) -> bool {
    &&& is_uuid_shape(r.id@)
    &&& r.message_type@ == "response"@
    &&& is_json_text(r.payload, acknowledgement_text())
    &&& r.reply_to == Some(request.id)
    &&& r.source_id@ == "unknown"@
    &&& r.metadata is Null
}

/// The answer a server sends to `request`: the handler's answer when it gave
/// one, and otherwise a reply to the request whose payload is "Received".
pub fn reply_to_request(
    request: &CommunicationMessage,
    handler_reply: Option<CommunicationMessage>,
) -> (r: CommunicationMessage)
    ensures
        handler_reply matches Some(h) ==> r == h,
        handler_reply is None ==> is_acknowledgement(r, *request),
{
    match handler_reply {
        Some(h) => h,
        None => request.create_reply(JsonValue::text("Received")),
    }
}

/// The answer of the in-memory server: command-line arguments are
/// acknowledged, every other kind of message is refused.
pub fn in_memory_reply(message: &CommunicationMessage) -> (r: CommunicationMessage)
    ensures
        is_uuid_shape(r.id@),
        r.source_id@ == "server"@,
        r.reply_to is None,
        message.message_type@ == "command_line_args"@ ==> r.message_type@ == "response"@
            && is_json_text(r.payload, "Command line arguments received successfully"@),
        message.message_type@ != "command_line_args"@ ==> r.message_type@ == "error"@
            && is_json_text(r.payload, "Unsupported message type"@),
{
    let kind = String::from_str("command_line_args");
    if message.message_type.eq(&kind) {
        CommunicationMessage::response(String::from_str("Command line arguments received successfully"))
    } else {
        CommunicationMessage::error(String::from_str("Unsupported message type"))
    }
}

/// The text a successful handshake yields: the text payload of a response
/// ("Received" when the payload is not text), and "Connected" for any other
/// kind of answer.
pub open spec fn handshake_text(message_type: Seq<char>, payload: JsonValue) -> Seq<char> {
    if message_type == "response"@ {
        match payload {
            JsonValue::String(s) => s@,
            _ => "Received"@,
        }
    } else {
        "Connected"@
    }
}

/// The text a successful handshake yields for the answer `response`.
pub fn handshake_reply_text(response: &CommunicationMessage) -> (t: String)
    ensures
        t@ == handshake_text(response.message_type@, response.payload),
{
    let kind = String::from_str("response");
    if response.message_type.eq(&kind) {
        match response.payload.as_str() {
            Some(s) => s.clone(),
            None => String::from_str("Received"),
        }
    } else {
        String::from_str("Connected")
    }
}

/// Whether `answer` is the request itself, read back from a channel that
/// no other process served: it carries the request's identifier.
pub fn is_echo(request: &CommunicationMessage, answer: &CommunicationMessage) -> (r: bool)
    ensures
        r == (answer.id@ == request.id@),
{
    answer.id.eq(&request.id)
}

/// The outcome of a handshake that sent `request` and read `answer`: the
/// handshake text when another process answered, and a failed connection
/// when the answer is the request itself.
pub fn handshake_outcome(request: &CommunicationMessage, answer: &CommunicationMessage) -> (r: Result<String, CommunicationError>)
    ensures
        answer.id@ != request.id@ ==> (r matches Ok(t) && t@ == handshake_text(answer.message_type@, answer.payload)),
        answer.id@ == request.id@ ==> (r matches Err(e) && e matches CommunicationError::ConnectionFailed(m)
            && m@ == "Handshake not answered"@),
{
    if is_echo(request, answer) {
        Err(CommunicationError::ConnectionFailed(String::from_str("Handshake not answered")))
    } else {
        Ok(handshake_reply_text(answer))
    }
}

/// The error of a file-based server that finds its lock file taken.
pub fn lock_file_taken() -> (e: CommunicationError)
    ensures
        e matches CommunicationError::ConnectionFailed(m) && m@ == "Server lock file already exists"@,
        is_lock_conflict(e),
{
    let e = CommunicationError::ConnectionFailed(String::from_str("Server lock file already exists"));
    proof {
        let m = "Server lock file already exists"@;
        assert(m.subrange(0, m.len() as int) =~= m);
        assert(occurs_at(m, m, 0));
    }
    e
}

/// A handshake answered by a server without a handler yields "Received".
pub proof fn lemma_acknowledgement_reads_received(r: CommunicationMessage, request: CommunicationMessage)
    requires
        is_acknowledgement(r, request),
    ensures
        handshake_text(r.message_type@, r.payload) == "Received"@,
{
}

/// A handshake answered by the in-memory server yields its acknowledgement
/// of the command line.
pub proof fn lemma_in_memory_handshake_text(r: CommunicationMessage)
    requires
        r.message_type@ == "response"@,
        is_json_text(r.payload, "Command line arguments received successfully"@),
    ensures
        handshake_text(r.message_type@, r.payload) == "Command line arguments received successfully"@,
{
}

} // verus!
