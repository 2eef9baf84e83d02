//! The composed request path: the provider ensures a correlation header,
//! the guard builds the per-request context, the handler produces the
//! response, and the token is mirrored onto the outbound response header.

use vstd::prelude::*;
use vstd::string::StringExecFns;
use vstd::utf8::decode_utf8;
use vstd::utf8::encode_utf8;
use vstd::utf8::valid_utf8;

use crate::context::Context;
use crate::extensions::BAD_REQUEST;
use crate::extensions::ExtractContext;
use crate::extensions::guard_accepts;
use crate::extensions::missing_request_id_body;
use crate::provider::ensure_request_id;
use crate::provider::generated_header;
use crate::provider::is_token_char;
use crate::provider::reuses_or_generates;
use crate::telemetry::LogRecordModel;
use crate::telemetry::Severity;
use crate::telemetry::Span;
use crate::telemetry::SpanAttributeModel;
use crate::telemetry::SpanModel;
use crate::telemetry::Telemetry;
use crate::telemetry::enqueue_model;
use crate::users::User;
use crate::users::get_user_by_id;
use crate::users::lookup_times_out;
use crate::users::u64_decimal;
use crate::users::u64_to_string;
use crate::users::user_json;
use crate::users::user_json_model;

verus! {

/// Most attributes one span may carry; the excess is dropped.
pub const SPAN_MAX_ATTRIBUTES: usize = 16;

/// Most events one span may carry; the oldest is evicted past that.
pub const SPAN_MAX_EVENTS: usize = 16;

/// An inbound request as the transport hands it over: the raw value of the
/// correlation header, if the caller sent one, and the numeric id from the
/// request path.
pub struct Request {
    pub request_id_header: Option<Vec<u8>>,
    pub user_id: u64,
}

/// An outbound response: a status, a body, and the mirrored correlation
/// header.
pub struct Response {
    pub status: u16,
    pub body: String,
    pub request_id_header: Option<Vec<u8>>,
}

/// The inbound correlation header as a mathematical value.
pub open spec fn inbound_header_view(r: Request) -> Option<Seq<u8>> {
    match r.request_id_header {
        Option::Some(v) => Option::Some(v@),
        Option::None => Option::None,
    }
}

/// The status the handler maps each lookup outcome to.
pub open spec fn response_status(id: u64) -> u16 {
    if id == 1 || id == 2 {
        200
    } else if id == 3 {
        404
    } else {
        500
    }
}

/// The body the handler maps each lookup outcome to: the found record as
/// JSON, or nothing beyond the status text. No internal failure detail
/// ever reaches the body.
pub open spec fn response_body(id: u64) -> Seq<char> {
    if id == 1 {
        user_json_model(1, "bob"@)
    } else if id == 2 {
        user_json_model(1, "john"@)
    } else if id == 3 {
        "404"@
    } else {
        "500"@
    }
}

/// The one error-severity record a failed lookup emits, tagged with the
/// request's correlation token and the id that was asked for.
pub open spec fn error_record(token: Seq<char>, id: u64) -> LogRecordModel {
    LogRecordModel {
        severity: Severity::Error,
        message: "fetching user by id"@,
        request_id: token,
        user_id: Option::Some(id),
    }
}

/// Every log record handling one request appends: exactly one error record
/// when the lookup fails, none otherwise.
pub open spec fn handler_records(token: Seq<char>, id: u64) -> Seq<LogRecordModel> {
    if lookup_times_out(id) {
        seq![error_record(token, id)]
    } else {
        Seq::<LogRecordModel>::empty()
    }
}

/// The span handling one request produces, tagged with the request's
/// correlation token and id.
pub open spec fn handler_span(token: Seq<char>, id: u64) -> SpanModel {
    SpanModel {
        name: "GET /users/:id"@,
        request_id: token,
        attributes: seq![
            SpanAttributeModel { key: "request_id"@, value: token },
            SpanAttributeModel { key: "user_id"@, value: u64_decimal(id as nat) },
        ],
        events: if lookup_times_out(id) {
            seq!["fetching user by id"@]
        } else {
            Seq::<Seq<char>>::empty()
        },
    }
}

/// What handling a request with a given token does: the response is fixed
/// by the id, and the telemetry gains exactly the records and the span of
/// that one request.
pub open spec fn handled_with(
    token: Seq<char>,
    id: u64,
    resp: Response,
    before: Telemetry,
    after: Telemetry,
) -> bool {
    &&& resp.status == response_status(id)
    &&& resp.body@ == response_body(id)
    &&& after.sink@ == before.sink@ + handler_records(token, id)
    &&& after.spans@ == enqueue_model(
        before.spans@,
        handler_span(token, id),
        before.spans.capacity as nat,
    )
}

/// Consumes the request context and the path id, delegates to the stub
/// lookup, and maps its outcome onto a transport response: found becomes
/// the record as JSON, not-found and failure become bare status text, and
/// a failure is also recorded at error severity with the id and the
/// request's correlation token.
pub fn handler(ctx: &Context, id: u64, telemetry: &mut Telemetry) -> (r: Response)
    requires
        old(telemetry).wf(),
    ensures
        final(telemetry).wf(),
        final(telemetry).spans.capacity == old(telemetry).spans.capacity,
        r.request_id_header is None,
        handled_with(ctx.request_id@, id, r, *old(telemetry), *final(telemetry)),
{
    let mut span = Span::new(
        String::from_str("GET /users/:id"),
        ctx,
        SPAN_MAX_ATTRIBUTES,
        SPAN_MAX_EVENTS,
    );
    span.add_attribute(String::from_str("request_id"), ctx.request_id.clone());
    span.add_attribute(String::from_str("user_id"), u64_to_string(id));
    let response = match get_user_by_id(id) {
        Ok(Some(u)) => {
            let body = user_json(&u);
            Response { status: 200, body, request_id_header: None }
        },
        Ok(None) => Response {
            status: 404,
            body: String::from_str("404"),
            request_id_header: None,
        },
        Err(_) => {
            telemetry.sink.emit(
                Severity::Error,
                String::from_str("fetching user by id"),
                ctx,
                Some(id),
            );
            span.add_event(String::from_str("fetching user by id"));
            Response { status: 500, body: String::from_str("500"), request_id_header: None }
        },
    };
    proof {
        assert(span@.attributes =~= handler_span(ctx.request_id@, id).attributes);
        assert(span@.events =~~= handler_span(ctx.request_id@, id).events);
        assert(span@ == handler_span(ctx.request_id@, id));
        assert(telemetry.sink@ =~= old(telemetry).sink@ + handler_records(ctx.request_id@, id));
    }
    telemetry.spans.enqueue(span);
    response
}

/// Runs one request through the composed pipeline: the provider ensures a
/// correlation header, the guard builds the context or rejects, the
/// handler runs only when a context was built, and the token is mirrored
/// onto the outbound response header.
pub fn process_request(req: Request, telemetry: &mut Telemetry) -> (r: (Response, Option<
    Context,
>))
    requires
        old(telemetry).wf(),
    ensures
        final(telemetry).wf(),
        final(telemetry).spans.capacity == old(telemetry).spans.capacity,
        // The provider ran: the mirrored outbound header is the value it ensured.
        r.0.request_id_header matches Some(h) && reuses_or_generates(
            inbound_header_view(req),
            h@,
        ),
        // Propagation round trip: whenever a context was built, its token is
        // non-empty, the outbound header is exactly that token's encoding, and
        // the handler ran with it.
        r.1 matches Some(ctx) ==> {
            &&& ctx.request_id@.len() > 0
            &&& r.0.request_id_header matches Some(h) && h@ == encode_utf8(ctx.request_id@)
            &&& handled_with(ctx.request_id@, req.user_id, r.0, *old(telemetry), *final(telemetry))
        },
        // A valid caller-supplied token is reused verbatim.
        inbound_header_view(req) matches Some(v) ==> ((v.len() > 0 && valid_utf8(v)) ==> {
            &&& r.1 matches Some(ctx) && ctx.request_id@ == decode_utf8(v)
            &&& r.0.request_id_header matches Some(h) && h@ == v
        }),
        // Without a caller-supplied token, one is generated: 36 token
        // characters, so never empty.
        (inbound_header_view(req) is None || (inbound_header_view(req) matches Some(v) && v.len()
            == 0)) ==> (r.1 matches Some(ctx) && ctx.request_id@.len() == 36 && forall|i: int|
            0 <= i < ctx.request_id@.len() ==> is_token_char(#[trigger] ctx.request_id@[i])),
        // A non-empty header that is not decodable text is rejected before the
        // handler runs: nothing was logged, no span was recorded.
        inbound_header_view(req) matches Some(v) ==> ((v.len() > 0 && !valid_utf8(v)) ==> {
            &&& r.1 is None
            &&& r.0.status == BAD_REQUEST
            &&& r.0.body@ == missing_request_id_body()
            &&& final(telemetry).sink@ == old(telemetry).sink@
            &&& final(telemetry).spans@ == old(telemetry).spans@
        }),
{
    let Request { request_id_header, user_id } = req;
    let h = ensure_request_id(request_id_header);
    let mirrored = vstd::slice::slice_to_vec(h.as_slice());
    match ExtractContext::from_request_parts(Some(h)) {
        Err(rejection) => {
            let response = Response {
                status: rejection.status,
                body: rejection.body,
                request_id_header: Some(mirrored),
            };
            (response, None)
        },
        Ok(extracted) => {
            let ctx = extracted.0;
            proof {
                if generated_header(h@) {
                    assert(ctx.request_id@.len() == 36);
                }
                vstd::utf8::decode_utf8_encode_utf8(h@);
                assert(h@.len() > 0 ==> decode_utf8(h@).len() > 0);
            }
            let inner = handler(&ctx, user_id, telemetry);
            let response = Response {
                status: inner.status,
                body: inner.body,
                request_id_header: Some(mirrored),
            };
            (response, Some(ctx))
        },
    }
}

/// Law: every record and the span produced while handling a request carry
/// that request's own correlation token, so requests handled with distinct
/// tokens never observe each other's records or spans.
pub proof fn lemma_no_cross_request_leakage(t1: Seq<char>, t2: Seq<char>, id1: u64, id2: u64)
    requires
        t1 != t2,
    ensures
        forall|i: int|
            0 <= i < handler_records(t1, id1).len() ==> (#[trigger] handler_records(t1, id1)[i]).request_id
                == t1,
        forall|i: int|
            0 <= i < handler_records(t1, id1).len() ==> (#[trigger] handler_records(t1, id1)[i]).request_id
                != t2,
        handler_span(t1, id1).request_id == t1,
        handler_span(t1, id1).request_id != t2,
{
}

/// Law: the lookup is idempotent: any two responses the handler may
/// produce for the same id carry the same status and the same body.
pub proof fn lemma_lookup_idempotent(id: u64, r1: Response, r2: Response)
    requires
        r1.status == response_status(id),
        r1.body@ == response_body(id),
        r2.status == response_status(id),
        r2.body@ == response_body(id),
    ensures
        r1.status == r2.status,
        r1.body@ == r2.body@,
{
}

/// Law: composed behind the provider, the guard's missing-header rejection
/// is unreachable: the provider always hands it a present header, and a
/// generated header is always accepted.
pub proof fn lemma_provider_guard_composition(inbound: Option<Seq<u8>>, h: Seq<u8>)
    requires
        reuses_or_generates(inbound, h),
    ensures
        generated_header(h) ==> guard_accepts(Option::Some(h)),
        (inbound is None || (inbound matches Some(v) && v.len() == 0)) ==> guard_accepts(
            Option::Some(h),
        ),
{
}

} // verus!
