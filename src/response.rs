//! The result of a fetch: a response envelope, or a message that says why none came.

use vstd::prelude::*;
use vstd::string::*;

verus! {

/// Whether an HTTP status code is in the success range, 200 to 299.
pub open spec fn is_success_spec(status: u16) -> bool {
    200 <= status && status <= 299
}

/// Whether an HTTP status code is in the success range, 200 to 299.
pub fn is_success_status(status: u16) -> (r: bool)
    ensures
        r == is_success_spec(status),
{
    200 <= status && status < 300
}

/// The envelope of a received response: its status code, its body as text, and
/// whether the status code is a success.
#[derive(Debug, PartialEq, Eq)]
pub struct HttpResponse {
    pub status: u16,
    pub body: String,
    pub ok: bool,
}

impl HttpResponse {
    /// Whether `ok` agrees with the status code.
    pub open spec fn wf(&self) -> bool {
        self.ok == is_success_spec(self.status)
    }

    /// The envelope of a response with the given status code and body.
    pub fn new(status: u16, body: String) -> (r: HttpResponse)
        ensures
            r.status == status,
            r.body@ == body@,
            r.ok == is_success_spec(status),
            r.wf(),
    {
        HttpResponse { status, body, ok: is_success_status(status) }
    }
}

/// The message of a request that could not be sent or got no response.
pub open spec fn transport_error_text(detail: Seq<char>) -> Seq<char> {
    "Request failed: "@ + detail
}

/// The message of a response whose body could not be read as text.
pub open spec fn decode_error_text(detail: Seq<char>) -> Seq<char> {
    "Failed to read body: "@ + detail
}

/// The message of a request that could not be sent or got no response, with the
/// transport's own description of the failure.
pub fn transport_error(detail: &str) -> (r: String)
    ensures
        r@ == transport_error_text(detail@),
{
    let mut r = String::from_str("Request failed: ");
    r.append(detail);
    r
}

/// The message of a response whose body could not be read as text, with the
/// reader's own description of the failure.
pub fn decode_error(detail: &str) -> (r: String)
    ensures
        r@ == decode_error_text(detail@),
{
    let mut r = String::from_str("Failed to read body: ");
    r.append(detail);
    r
}

/// How the exchange with the remote host ended.
#[derive(Debug)]
pub enum Exchange {
    /// The request could not be sent, or no response came; with the description
    /// of the failure.
    SendFailed(String),
    /// A response came, but its body could not be read as text; with the
    /// description of the failure.
    BodyUnreadable(String),
    /// A response came with this status code and this body.
    Received(u16, String),
}

/// The result of a fetch whose exchange ended as `ex`.
pub open spec fn outcome_spec(ex: Exchange, r: Result<HttpResponse, String>) -> bool {
    match ex {
        Exchange::SendFailed(d) => r matches Err(e) && e@ == transport_error_text(d@),
        Exchange::BodyUnreadable(d) => r matches Err(e) && e@ == decode_error_text(d@),
        Exchange::Received(status, body) => r matches Ok(resp) && resp.status == status
            && resp.body@ == body@ && resp.ok == is_success_spec(status),
    }
}

/// Turns the end of an exchange into the fetch's result. Any response that came
/// with a readable body is an envelope, whatever its status code; the two kinds of
/// failure are messages, and never an envelope.
pub fn conclude(ex: Exchange) -> (r: Result<HttpResponse, String>)
    ensures
        outcome_spec(ex, r),
        r is Ok <==> ex is Received,
        forall|resp: HttpResponse| r == Ok::<HttpResponse, String>(resp) ==> resp.wf(),
{
    match ex {
        Exchange::SendFailed(d) => Err(transport_error(d.as_str())),
        Exchange::BodyUnreadable(d) => Err(decode_error(d.as_str())),
        Exchange::Received(status, body) => Ok(HttpResponse::new(status, body)),
    }
}

} // verus!
