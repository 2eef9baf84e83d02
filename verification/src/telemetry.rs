//! The observability pipeline: an in-memory structured-log sink and a
//! bounded trace-span model, both tagging every record with the active
//! request's correlation token. The process-wide sinks of a deployment
//! (a rotating file, a batched exporter) are collaborators that consume
//! what is modelled here; substituting this in-memory form is what makes
//! the tagging testable.

use vstd::prelude::*;

use crate::context::Context;

verus! {

/// Severity of a structured log record.
#[derive(Debug, Clone, Copy, PartialEq, Eq)]
pub enum Severity {
    Info,
    Error,
}

/// One structured log record, tagged with the correlation token of the
/// request that emitted it.
#[derive(Debug)]
pub struct LogRecord {
    pub severity: Severity,
    pub message: String,
    pub request_id: String,
    pub user_id: Option<u64>,
}

/// The mathematical value of a log record.
pub struct LogRecordModel {
    pub severity: Severity,
    pub message: Seq<char>,
    pub request_id: Seq<char>,
    pub user_id: Option<u64>,
}

impl View for LogRecord {
    type V = LogRecordModel;

    open spec fn view(&self) -> LogRecordModel {
        LogRecordModel {
            severity: self.severity,
            message: self.message@,
            request_id: self.request_id@,
            user_id: self.user_id,
        }
    }
}

/// An append-only in-memory sink of structured log records.
#[derive(Debug)]
pub struct LogSink {
    pub records: Vec<LogRecord>,
}

impl View for LogSink {
    type V = Seq<LogRecordModel>;

    open spec fn view(&self) -> Seq<LogRecordModel> {
        self.records@.map_values(|r: LogRecord| r@)
    }
}

impl LogSink {
    /// An empty sink.
    pub fn new() -> (r: LogSink)
        ensures
            r@ == Seq::<LogRecordModel>::empty(),
    {
        let r = LogSink { records: Vec::new() };
        proof {
            assert(r@ =~= Seq::<LogRecordModel>::empty());
        }
        r
    }

    /// Appends one record, tagged with the given request's correlation
    /// token.
    pub fn emit(&mut self, severity: Severity, message: String, ctx: &Context, user_id: Option<
        u64,
    >)
        ensures
            final(self)@ == old(self)@.push(
                (LogRecordModel {
                    severity: severity,
                    message: message@,
                    request_id: ctx.request_id@,
                    user_id: user_id,
                }),
            ),
    {
        let record = LogRecord {
            severity,
            message,
            request_id: ctx.request_id.clone(),
            user_id,
        };
        let ghost model = record@;
        self.records.push(record);
        proof {
            assert(self@ =~= old(self)@.push(model));
        }
    }
}

/// One key/value attribute of a span.
#[derive(Debug)]
pub struct SpanAttribute {
    pub key: String,
    pub value: String,
}

/// The mathematical value of a span attribute.
pub struct SpanAttributeModel {
    pub key: Seq<char>,
    pub value: Seq<char>,
}

impl View for SpanAttribute {
    type V = SpanAttributeModel;

    open spec fn view(&self) -> SpanAttributeModel {
        SpanAttributeModel { key: self.key@, value: self.value@ }
    }
}

/// The mathematical value of a span: its name, the correlation token of
/// the request it belongs to, its attributes and its events.
pub struct SpanModel {
    pub name: Seq<char>,
    pub request_id: Seq<char>,
    pub attributes: Seq<SpanAttributeModel>,
    pub events: Seq<Seq<char>>,
}

/// A timed unit of work in a distributed trace, tagged with the active
/// request's correlation token. Attributes and events are bounded by
/// fixed limits so memory per span stays finite: attributes past the
/// limit are silently dropped, events past the limit evict the oldest.
#[derive(Debug)]
pub struct Span {
    pub name: String,
    pub request_id: String,
    pub attributes: Vec<SpanAttribute>,
    pub events: Vec<String>,
    pub max_attributes: usize,
    pub max_events: usize,
}

impl View for Span {
    type V = SpanModel;

    open spec fn view(&self) -> SpanModel {
        SpanModel {
            name: self.name@,
            request_id: self.request_id@,
            attributes: self.attributes@.map_values(|a: SpanAttribute| a@),
            events: self.events@.map_values(|e: String| e@),
        }
    }
}

impl Span {
    /// A span stays within its configured limits.
    pub open spec fn wf(&self) -> bool {
        &&& self@.attributes.len() <= self.max_attributes
        &&& self@.events.len() <= self.max_events
        &&& self.max_events > 0
    }

    /// Opens a span for the given request.
    pub fn new(name: String, ctx: &Context, max_attributes: usize, max_events: usize) -> (r:
        Span)
        requires
            max_events > 0,
        ensures
            r.wf(),
            r@.name == name@,
            r@.request_id == ctx.request_id@,
            r@.attributes == Seq::<SpanAttributeModel>::empty(),
            r@.events == Seq::<Seq<char>>::empty(),
            r.max_attributes == max_attributes,
            r.max_events == max_events,
    {
        let r = Span {
            name,
            request_id: ctx.request_id.clone(),
            attributes: Vec::new(),
            events: Vec::new(),
            max_attributes,
            max_events,
        };
        proof {
            assert(r@.attributes =~= Seq::<SpanAttributeModel>::empty());
            assert(r@.events =~= Seq::<Seq<char>>::empty());
        }
        r
    }

    /// Records one attribute; an attribute past the configured limit is
    /// silently dropped rather than failing the request.
    pub fn add_attribute(&mut self, key: String, value: String)
        requires
            old(self).wf(),
        ensures
            final(self).wf(),
            final(self)@.attributes == if old(self)@.attributes.len() < old(self).max_attributes {
                old(self)@.attributes.push((SpanAttributeModel { key: key@, value: value@ }))
            } else {
                old(self)@.attributes
            },
            final(self)@.name == old(self)@.name,
            final(self)@.request_id == old(self)@.request_id,
            final(self)@.events == old(self)@.events,
            final(self).max_attributes == old(self).max_attributes,
            final(self).max_events == old(self).max_events,
    {
        if self.attributes.len() < self.max_attributes {
            let attribute = SpanAttribute { key, value };
            let ghost model = attribute@;
            self.attributes.push(attribute);
            proof {
                assert(self@.attributes =~= old(self)@.attributes.push(model));
            }
        }
    }

    /// Records one event; when the span is full the oldest event is
    /// evicted rather than failing the request.
    pub fn add_event(&mut self, message: String)
        requires
            old(self).wf(),
        ensures
            final(self).wf(),
            final(self)@.events == if old(self)@.events.len() < old(self).max_events {
                old(self)@.events.push(message@)
            } else {
                old(self)@.events.drop_first().push(message@)
            },
            final(self)@.name == old(self)@.name,
            final(self)@.request_id == old(self)@.request_id,
            final(self)@.attributes == old(self)@.attributes,
            final(self).max_attributes == old(self).max_attributes,
            final(self).max_events == old(self).max_events,
    {
        if self.events.len() >= self.max_events {
            self.events.remove(0);
            proof {
                assert(self@.events =~= old(self)@.events.drop_first());
            }
        }
        let ghost before = self@.events;
        self.events.push(message);
        proof {
            assert(self@.events =~= before.push(message@));
        }
    }
}

/// The bounded internal queue in front of the batched span exporter: when
/// it is full the oldest span is dropped, so a stalled exporter never
/// blocks or fails a request.
#[derive(Debug)]
pub struct SpanQueue {
    pub items: Vec<Span>,
    pub capacity: usize,
}

/// What enqueueing a span does to the queue's contents.
pub open spec fn enqueue_model(q: Seq<SpanModel>, s: SpanModel, capacity: nat) -> Seq<SpanModel> {
    if q.len() < capacity {
        q.push(s)
    } else {
        q.drop_first().push(s)
    }
}

impl View for SpanQueue {
    type V = Seq<SpanModel>;

    open spec fn view(&self) -> Seq<SpanModel> {
        self.items@.map_values(|s: Span| s@)
    }
}

impl SpanQueue {
    /// A queue never holds more spans than its capacity.
    pub open spec fn wf(&self) -> bool {
        &&& self@.len() <= self.capacity
        &&& self.capacity > 0
    }

    /// An empty queue of the given capacity.
    pub fn new(capacity: usize) -> (r: SpanQueue)
        requires
            capacity > 0,
        ensures
            r.wf(),
            r@ == Seq::<SpanModel>::empty(),
            r.capacity == capacity,
    {
        let r = SpanQueue { items: Vec::new(), capacity };
        proof {
            assert(r@ =~= Seq::<SpanModel>::empty());
        }
        r
    }

    /// Adds a finished span, dropping the oldest one when full.
    pub fn enqueue(&mut self, span: Span)
        requires
            old(self).wf(),
        ensures
            final(self).wf(),
            final(self)@ == enqueue_model(old(self)@, span@, old(self).capacity as nat),
            final(self).capacity == old(self).capacity,
    {
        let ghost model = span@;
        if self.items.len() >= self.capacity {
            self.items.remove(0);
            proof {
                assert(self@ =~= old(self)@.drop_first());
            }
        }
        let ghost before = self@;
        self.items.push(span);
        proof {
            assert(self@ =~= before.push(model));
        }
    }

    /// Hands every queued span out for export and leaves the queue empty.
    /// An export attempt that then fails is the exporter's own, non-fatal
    /// concern: the spans were already removed from the request path.
    pub fn drain(&mut self) -> (r: Vec<Span>)
        requires
            old(self).wf(),
        ensures
            final(self).wf(),
            final(self)@ == Seq::<SpanModel>::empty(),
            r@.map_values(|s: Span| s@) == old(self)@,
            final(self).capacity == old(self).capacity,
    {
        let mut out: Vec<Span> = Vec::new();
        core::mem::swap(&mut out, &mut self.items);
        proof {
            assert(self@ =~= Seq::<SpanModel>::empty());
        }
        out
    }
}

/// The observability pipeline handed to the handler: the structured-log
/// sink and the span export queue, injected explicitly so tests can read
/// what a request emitted.
#[derive(Debug)]
pub struct Telemetry {
    pub sink: LogSink,
    pub spans: SpanQueue,
}

impl Telemetry {
    /// The pipeline is well formed when its span queue is.
    pub open spec fn wf(&self) -> bool {
        self.spans.wf()
    }

    /// An empty pipeline whose span queue holds at most `span_capacity`
    /// spans.
    pub fn new(span_capacity: usize) -> (r: Telemetry)
        requires
            span_capacity > 0,
        ensures
            r.wf(),
            r.sink@ == Seq::<LogRecordModel>::empty(),
            r.spans@ == Seq::<SpanModel>::empty(),
            r.spans.capacity == span_capacity,
    {
        Telemetry { sink: LogSink::new(), spans: SpanQueue::new(span_capacity) }
    }

    /// Empties the pipeline for a graceful shutdown: every buffered record
    /// and span is handed out, none is lost, so the process can write them
    /// before it exits.
    pub fn flush(&mut self) -> (r: (Vec<LogRecord>, Vec<Span>))
        requires
            old(self).wf(),
        ensures
            final(self).wf(),
            final(self).sink@ == Seq::<LogRecordModel>::empty(),
            final(self).spans@ == Seq::<SpanModel>::empty(),
            r.0@.map_values(|x: LogRecord| x@) == old(self).sink@,
            r.1@.map_values(|s: Span| s@) == old(self).spans@,
            final(self).spans.capacity == old(self).spans.capacity,
    {
        let mut records: Vec<LogRecord> = Vec::new();
        core::mem::swap(&mut records, &mut self.sink.records);
        proof {
            assert(self.sink@ =~= Seq::<LogRecordModel>::empty());
        }
        let spans = self.spans.drain();
        (records, spans)
    }
}

} // verus!
