use vstd::prelude::*;
use crate::json::{Json, JsonV};
use crate::text::{trim, trimmed};

verus! {

/// The error member of a JSON-RPC response.
#[derive(Debug, PartialEq)]
pub struct RpcError {
    pub code: i32,
    pub message: String,
}

/// A JSON-RPC 2.0 response: exactly one of `result` and `error` is present.
#[derive(Debug, PartialEq)]
pub struct RpcResponse {
    pub jsonrpc: &'static str,
    pub id: Json,
    pub result: Option<Json>,
    pub error: Option<RpcError>,
}

impl RpcResponse {
    /// Whether this is a success response carrying `result` for request `id`.
    pub open spec fn is_ok_with(self, id: Json, result: JsonV) -> bool {
        &&& self.jsonrpc@ == "2.0"@
        &&& self.id == id
        &&& self.result matches Some(j) && j@ == result
        &&& self.error is None
    }

    /// Whether this is an error response for request `id` with `code` and `message`.
    pub open spec fn is_err_with(self, id: Json, code: int, message: Seq<char>) -> bool {
        &&& self.jsonrpc@ == "2.0"@
        &&& self.id == id
        &&& self.result is None
        &&& self.error matches Some(e) && e.code == code && e.message@ == message
    }

    /// A success response.
    pub fn ok(id: Json, result: Json) -> (r: Self)
        ensures
            r.is_ok_with(id, result@),
            r.result == Some(result),
    {
        RpcResponse { jsonrpc: "2.0", id, result: Some(result), error: None }
    }

    /// An error response.
    pub fn err(id: Json, code: i32, message: String) -> (r: Self)
        ensures
            r.is_err_with(id, code as int, message@),
    {
        RpcResponse { jsonrpc: "2.0", id, result: None, error: Some(RpcError { code, message }) }
    }
}

/// An incoming JSON-RPC message. `id` is `None` both when the member is
/// absent and when it is `null`; `params` is `Null` when absent.
#[derive(Debug, PartialEq)]
pub struct RpcMessage {
    pub jsonrpc: String,
    pub id: Option<Json>,
    pub method: String,
    pub params: Json,
}

/// A request to answer: a message that carries an id.
#[derive(Debug, PartialEq)]
pub struct Request {
    pub id: Json,
    pub method: String,
    pub params: Json,
}

/// What the transport does after reading a line.
#[derive(Debug, PartialEq)]
pub enum LineAction {
    /// The input has ended: stop serving.
    Stop,
    /// Nothing to do for this line.
    Skip,
    /// Parse this text as one message.
    Parse(String),
}

/// Decides what to do with a line of the newline-delimited transport, read
/// with `bytes_read` bytes: stop at the end of input, skip blank lines, and
/// otherwise parse the line without its surrounding white space.
pub fn next_line_action(bytes_read: usize, line: &str) -> (r: LineAction)
    ensures
        bytes_read == 0 ==> r is Stop,
        bytes_read != 0 && trimmed(line@).len() == 0 ==> r is Skip,
        bytes_read != 0 && trimmed(line@).len() != 0 ==> (r matches LineAction::Parse(t) && t@ == trimmed(line@)),
{
    if bytes_read == 0 {
        return LineAction::Stop;
    }
    let t = trim(line);
    if t.as_str().is_empty() {
        LineAction::Skip
    } else {
        LineAction::Parse(t)
    }
}

/// The request to answer for a parsed line: none when the line was not a
/// message, nor for a notification (a message without an id, which gets no
/// response).
pub fn request_of(message: Option<RpcMessage>) -> (r: Option<Request>)
    ensures
        match message {
            None => r is None,
            Some(m) => match m.id {
                None => r is None,
                Some(id) => r matches Some(q) && q.id == id && q.method == m.method && q.params == m.params,
            },
        },
{
    match message {
        None => None,
        Some(m) => match m.id {
            None => None,
            Some(id) => Some(Request { id, method: m.method, params: m.params }),
        },
    }
}

} // verus!
