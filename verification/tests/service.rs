use request_context::context::Context;
use request_context::extensions::ExtractContext;
use request_context::pipeline::Request;
use request_context::pipeline::process_request;
use request_context::provider::ensure_request_id;
use request_context::telemetry::Severity;
use request_context::telemetry::Telemetry;

const MISSING_BODY: &str = "{\"message\":\"missing request id header: x-request-id\"}";

#[test]
fn round_trip_preserves_caller_token() {
    let mut t = Telemetry::new(8);
    let req = Request { request_id_header: Some(b"abc-123".to_vec()), user_id: 1 };
    let (resp, ctx) = process_request(req, &mut t);
    let ctx = ctx.expect("a valid header must yield a context");
    assert_eq!(ctx.request_id, "abc-123");
    assert_eq!(resp.request_id_header.expect("header mirrored"), b"abc-123".to_vec());
}

#[test]
fn generated_tokens_nonempty_and_unique() {
    let mut seen = std::collections::HashSet::new();
    for _ in 0..10_000 {
        let h = ensure_request_id(None);
        assert_eq!(h.len(), 36);
        assert!(seen.insert(h));
    }
}

#[test]
fn generated_token_appears_on_context_and_response() {
    let mut t = Telemetry::new(8);
    let req = Request { request_id_header: None, user_id: 2 };
    let (resp, ctx) = process_request(req, &mut t);
    let ctx = ctx.expect("a generated header must yield a context");
    assert_eq!(ctx.request_id.len(), 36);
    assert_eq!(resp.request_id_header.expect("header mirrored"), ctx.request_id.as_bytes().to_vec());
}

#[test]
fn missing_header_rejected_with_documented_message() {
    match ExtractContext::from_request_parts(None) {
        Err(rejection) => {
            assert_eq!(rejection.status, 400);
            assert_eq!(rejection.body, MISSING_BODY);
            let v: serde_json::Value = serde_json::from_str(&rejection.body).unwrap();
            assert_eq!(v["message"], "missing request id header: x-request-id");
        }
        Ok(_) => panic!("guard accepted a missing header"),
    }
}

#[test]
fn undecodable_header_rejected_before_handler() {
    let mut t = Telemetry::new(8);
    let req = Request { request_id_header: Some(vec![0xff, 0xfe, 0x41]), user_id: 999 };
    let (resp, ctx) = process_request(req, &mut t);
    assert!(ctx.is_none());
    assert_eq!(resp.status, 400);
    assert_eq!(resp.body, MISSING_BODY);
    assert!(t.sink.records.is_empty(), "the handler must not have run");
    assert!(t.spans.items.is_empty(), "the handler must not have run");
    assert_eq!(resp.request_id_header.expect("header mirrored"), vec![0xff, 0xfe, 0x41]);
}

#[test]
fn guard_accepts_valid_utf8_header() {
    let extracted =
        ExtractContext::from_request_parts(Some("h\u{e9}llo".as_bytes().to_vec()));
    match extracted {
        Ok(e) => assert_eq!(e.0.request_id, "h\u{e9}llo"),
        Err(_) => panic!("guard rejected decodable text"),
    }
}

#[test]
fn lookup_id_1_idempotent() {
    let mut t = Telemetry::new(32);
    for _ in 0..5 {
        let req = Request { request_id_header: Some(b"tok".to_vec()), user_id: 1 };
        let (resp, _) = process_request(req, &mut t);
        assert_eq!(resp.status, 200);
        assert_eq!(resp.body, "{\"id\":1,\"name\":\"bob\"}");
    }
    assert!(t.sink.records.is_empty());
}

#[test]
fn id_3_not_found_without_payload() {
    let mut t = Telemetry::new(8);
    let req = Request { request_id_header: Some(b"tok".to_vec()), user_id: 3 };
    let (resp, _) = process_request(req, &mut t);
    assert_eq!(resp.status, 404);
    assert_eq!(resp.body, "404");
    assert!(t.sink.records.is_empty());
}

#[test]
fn unknown_id_internal_error_logged_once() {
    let mut t = Telemetry::new(8);
    let req = Request { request_id_header: Some(b"tok-999".to_vec()), user_id: 999 };
    let (resp, _) = process_request(req, &mut t);
    assert_eq!(resp.status, 500);
    assert_eq!(resp.body, "500");
    assert_eq!(t.sink.records.len(), 1);
    let record = &t.sink.records[0];
    assert_eq!(record.severity, Severity::Error);
    assert_eq!(record.request_id, "tok-999");
    assert_eq!(record.user_id, Some(999));
    assert_eq!(record.message, "fetching user by id");
}

#[test]
fn requests_observe_only_their_own_token() {
    let tokens = ["alpha", "beta", "gamma"];
    for tok in tokens {
        let mut t = Telemetry::new(8);
        let req = Request { request_id_header: Some(tok.as_bytes().to_vec()), user_id: 999 };
        let (resp, ctx) = process_request(req, &mut t);
        assert_eq!(ctx.expect("valid header").request_id, tok);
        assert_eq!(resp.request_id_header.expect("header mirrored"), tok.as_bytes().to_vec());
        for record in &t.sink.records {
            assert_eq!(record.request_id, tok);
        }
        for span in &t.spans.items {
            assert_eq!(span.request_id, tok);
        }
    }
    let mut shared = Telemetry::new(8);
    for tok in tokens {
        let req = Request { request_id_header: Some(tok.as_bytes().to_vec()), user_id: 999 };
        process_request(req, &mut shared);
    }
    assert_eq!(shared.sink.records.len(), 3);
    for (i, record) in shared.sink.records.iter().enumerate() {
        assert_eq!(record.request_id, tokens[i]);
    }
    assert_eq!(shared.spans.items.len(), 3);
    for (i, span) in shared.spans.items.iter().enumerate() {
        assert_eq!(span.request_id, tokens[i]);
    }
}

#[test]
fn handler_span_tagged_with_token_and_id() {
    let mut t = Telemetry::new(8);
    let req = Request { request_id_header: Some(b"tok".to_vec()), user_id: 2 };
    process_request(req, &mut t);
    assert_eq!(t.spans.items.len(), 1);
    let span = &t.spans.items[0];
    assert_eq!(span.name, "GET /users/:id");
    assert_eq!(span.request_id, "tok");
    assert_eq!(span.attributes.len(), 2);
    assert_eq!(span.attributes[0].key, "request_id");
    assert_eq!(span.attributes[0].value, "tok");
    assert_eq!(span.attributes[1].key, "user_id");
    assert_eq!(span.attributes[1].value, "2");
    assert!(span.events.is_empty());
}

#[test]
fn provider_reuses_nonempty_header() {
    assert_eq!(ensure_request_id(Some(b"x".to_vec())), b"x".to_vec());
}

#[test]
fn provider_replaces_empty_header() {
    let h = ensure_request_id(Some(Vec::new()));
    assert_eq!(h.len(), 36);
}

#[test]
fn context_default_and_equality() {
    assert_eq!(Context::default().request_id, "");
    let a = Context { request_id: String::from("t") };
    let b = Context { request_id: String::from("t") };
    let c = Context { request_id: String::from("u") };
    assert!(a == b);
    assert!(a != c);
}

#[test]
fn flush_hands_everything_out_and_empties_the_pipeline() {
    let mut t = Telemetry::new(8);
    let req = Request { request_id_header: Some(b"tok".to_vec()), user_id: 999 };
    process_request(req, &mut t);
    let (records, spans) = t.flush();
    assert_eq!(records.len(), 1);
    assert_eq!(records[0].request_id, "tok");
    assert_eq!(spans.len(), 1);
    assert_eq!(spans[0].request_id, "tok");
    assert!(t.sink.records.is_empty());
    assert!(t.spans.items.is_empty());
}
