//! The context extraction guard: builds a [`Context`] from the correlation
//! header, rejecting the request when the header is missing or unreadable.

use vstd::prelude::*;

use crate::context::Context;

verus! {

/// Status code of the structured rejection returned when no correlation
/// token can be established.
pub const BAD_REQUEST: u16 = 400;

/// Name of the transport header that carries the correlation token.
pub open spec fn request_id_header_name() -> Seq<char> {
    "x-request-id"@
}

/// Returns the name of the transport header that carries the correlation
/// token.
pub fn request_id_header() -> (r: &'static str)
    ensures
        r@ == request_id_header_name(),
{
    "x-request-id"
}

/// JSON body of the rejection produced when the correlation header is
/// missing or not decodable as text.
pub open spec fn missing_request_id_body() -> Seq<char> {
    "{\"message\":\"missing request id header: x-request-id\"}"@
}

/// A structured early rejection: a client-error status and a JSON body
/// naming the missing header.
pub struct Rejection {
    pub status: u16,
    pub body: String,
}

impl Rejection {
    /// The one rejection this guard produces: the correlation token could
    /// not be established.
    pub open spec fn is_missing_correlation_id(&self) -> bool {
        &&& self.status == BAD_REQUEST
        &&& self.body@ == missing_request_id_body()
    }
}

/// Wraps the request context extracted at the boundary.
pub struct ExtractContext(pub Context);

/// Relies on `String::from_utf8`: returns `Ok` exactly when the bytes are
/// valid UTF-8, and the returned string is their decoding.
#[verifier::external_body]
fn bytes_to_string(v: Vec<u8>) -> (r: Option<String>)
    ensures
        r is Some <==> vstd::utf8::valid_utf8(v@),
        r matches Some(s) ==> s@ == vstd::utf8::decode_utf8(v@),
{
    String::from_utf8(v).ok()
}

/// The guard succeeds exactly when the header is present and decodable.
pub open spec fn guard_accepts(header: Option<Seq<u8>>) -> bool {
    header matches Some(v) && vstd::utf8::valid_utf8(v)
}

fn missing_request_id_rejection() -> (r: Rejection)
    ensures
        r.is_missing_correlation_id(),
{
    Rejection {
        status: BAD_REQUEST,
        body: String::from_str("{\"message\":\"missing request id header: x-request-id\"}"),
    }
}

impl ExtractContext {
    /// Builds the per-request context from the raw value of the correlation
    /// header, or rejects the request with a structured client error when
    /// the header is absent or not decodable as text. Nothing downstream of
    /// the guard runs when it rejects.
    pub fn from_request_parts(header: Option<Vec<u8>>) -> (r: Result<ExtractContext, Rejection>)
        ensures
            guard_accepts(match header {
                Option::Some(ref v) => Option::Some(v@),
                Option::None => Option::None,
            }) <==> r is Ok,
            r matches Ok(c) ==> {
                &&& header matches Some(v)
                &&& c.0.request_id@ == vstd::utf8::decode_utf8(v@)
            },
            r matches Err(e) ==> e.is_missing_correlation_id(),
    {
        match header {
            Option::None => Err(missing_request_id_rejection()),
            Option::Some(v) => match bytes_to_string(v) {
                Option::None => Err(missing_request_id_rejection()),
                Option::Some(s) => Ok(ExtractContext(Context { request_id: s })),
            },
        }
    }
}

} // verus!
