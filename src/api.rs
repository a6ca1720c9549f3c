//! The decisions of the HTTP control surface: the message that `POST /send`
//! injects into the mesh, and the reply it gives.

use vstd::prelude::*;
use crate::json::{json_quoted, quote};
use crate::messages::CommunicatorMessage;

verus! {

/// The body of `POST /send`.
pub struct ApiRequest {
    pub query: String,
}

/// The body of a reply.
pub struct ApiResponse {
    pub response: String,
}

/// The sender name of injected messages.
pub open spec fn api_sender() -> Seq<char> {
    "API_Interface"@
}

/// The reply to an accepted message.
pub open spec fn accepted_text() -> Seq<char> {
    "Message envoyé avec succès"@
}

/// Relies on chrono's `Utc::now` and `timestamp_millis`: the wall-clock time
/// in milliseconds since the Unix epoch. Nothing is promised of its value.
#[verifier::external_body]
fn unix_millis_now() -> (r: i64) {
    chrono::Utc::now().timestamp_millis()
}

/// The message that injects `query`, stamped `now_ms` (milliseconds since the
/// Unix epoch).
pub fn api_message_at(query: String, now_ms: u64) -> (r: CommunicatorMessage)
    ensures
        r.sender@ == api_sender(),
        r.payload@ == query@,
        r.timestamp == now_ms,
{
    let mut sender = String::new();
    sender.append("API_Interface");
    CommunicatorMessage { sender, payload: query, timestamp: now_ms }
}

/// The message that injects the query of `req`, stamped with the current
/// wall-clock time (a clock before the epoch reads as zero).
pub fn api_message(req: ApiRequest) -> (r: CommunicatorMessage)
    ensures
        r.sender@ == api_sender(),
        r.payload@ == req.query@,
{
    let now = unix_millis_now();
    let stamp: u64 = if now < 0 {
        0
    } else {
        now as u64
    };
    api_message_at(req.query, stamp)
}

/// The HTTP status and body that answer `POST /send`, given whether the
/// message was published or the error that stopped it.
pub fn send_reply(outcome: Result<(), String>) -> (r: (u16, ApiResponse))
    ensures
        match outcome {
            Ok(_) => r.0 == 200 && r.1.response@ == accepted_text(),
            Err(e) => r.0 == 500 && r.1.response@ == e@,
        },
{
    match outcome {
        Ok(_) => {
            let mut response = String::new();
            response.append("Message envoyé avec succès");
            (200, ApiResponse { response })
        },
        Err(e) => (500, ApiResponse { response: e }),
    }
}

impl ApiResponse {
    /// The JSON text of the reply.
    pub fn to_json(&self) -> (r: String)
        ensures
            r@ == "{\"response\":"@ + json_quoted(self.response@) + "}"@,
    {
        let mut out = String::new();
        out.append("{\"response\":");
        out.append(quote(self.response.as_str()).as_str());
        out.append("}");
        out
    }
}

} // verus!
