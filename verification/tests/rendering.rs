use request_context::context::Context;
use request_context::telemetry::Span;
use request_context::telemetry::SpanQueue;
use request_context::users::User;
use request_context::users::json_escape_string;
use request_context::users::u64_to_string;
use request_context::users::user_json;

#[test]
fn decimal_rendering_exact() {
    assert_eq!(u64_to_string(0), "0");
    assert_eq!(u64_to_string(7), "7");
    assert_eq!(u64_to_string(42), "42");
    assert_eq!(u64_to_string(1000), "1000");
    assert_eq!(u64_to_string(u64::MAX), "18446744073709551615");
}

#[test]
fn user_json_exact_payload() {
    let u = User { id: 1, name: String::from("bob") };
    assert_eq!(user_json(&u), "{\"id\":1,\"name\":\"bob\"}");
}

#[test]
fn user_json_escapes_and_parses_back() {
    let name = "a\"b\\c\nd\u{1}";
    let u = User { id: 7, name: String::from(name) };
    let body = user_json(&u);
    let v: serde_json::Value = serde_json::from_str(&body).unwrap();
    assert_eq!(v["id"], 7);
    assert_eq!(v["name"], name);
}

#[test]
fn json_escape_exact_forms() {
    assert_eq!(json_escape_string("plain"), "plain");
    assert_eq!(json_escape_string("a\"b"), "a\\\"b");
    assert_eq!(json_escape_string("a\\b"), "a\\\\b");
    assert_eq!(json_escape_string("a\nb"), "a\\u000ab");
    assert_eq!(json_escape_string(""), "");
}

#[test]
fn span_drops_excess_attributes() {
    let ctx = Context { request_id: String::from("tok") };
    let mut span = Span::new(String::from("s"), &ctx, 2, 2);
    span.add_attribute(String::from("a"), String::from("1"));
    span.add_attribute(String::from("b"), String::from("2"));
    span.add_attribute(String::from("c"), String::from("3"));
    assert_eq!(span.attributes.len(), 2);
    assert_eq!(span.attributes[0].key, "a");
    assert_eq!(span.attributes[1].key, "b");
}

#[test]
fn span_evicts_oldest_event() {
    let ctx = Context { request_id: String::from("tok") };
    let mut span = Span::new(String::from("s"), &ctx, 2, 2);
    span.add_event(String::from("one"));
    span.add_event(String::from("two"));
    span.add_event(String::from("three"));
    assert_eq!(span.events.len(), 2);
    assert_eq!(span.events[0], "two");
    assert_eq!(span.events[1], "three");
}

#[test]
fn span_queue_bounded_drops_oldest_and_drains() {
    let ctx = Context { request_id: String::from("tok") };
    let mut q = SpanQueue::new(2);
    q.enqueue(Span::new(String::from("one"), &ctx, 2, 2));
    q.enqueue(Span::new(String::from("two"), &ctx, 2, 2));
    q.enqueue(Span::new(String::from("three"), &ctx, 2, 2));
    assert_eq!(q.items.len(), 2);
    assert_eq!(q.items[0].name, "two");
    assert_eq!(q.items[1].name, "three");
    let drained = q.drain();
    assert!(q.items.is_empty());
    assert_eq!(drained.len(), 2);
    assert_eq!(drained[0].name, "two");
}
