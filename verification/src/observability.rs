//! Observability records: caller context, telemetry events, audit trails and
//! tracing spans, with in-memory sinks.
use vstd::prelude::*;

use crate::clock::unix_time_ms;
use crate::decimal::{decimal, push_decimal};
use crate::string_map::StringMap;
use crate::text::str_eq;

verus! {

fn clone_opt(s: &Option<String>) -> (r: Option<String>)
    ensures
        r == *s,
{
    match s {
        Some(x) => Some(x.clone()),
        None => None,
    }
}

// ── Caller context ──────────────────────────────────────────────────────────

/// Caller identity and correlation data propagated through framework operations.
#[derive(Debug)]
pub struct CallerContext {
    pub correlation_id: Option<String>,
    pub user_id: Option<String>,
    pub tenant_id: Option<String>,
    pub source: Option<String>,
    pub metadata: Option<StringMap>,
}

impl Clone for CallerContext {
    fn clone(&self) -> (r: Self)
        ensures
            r.correlation_id == self.correlation_id,
            r.user_id == self.user_id,
            r.tenant_id == self.tenant_id,
            r.source == self.source,
            r.metadata is Some <==> self.metadata is Some,
            self.metadata is Some ==> r.metadata.unwrap().entries_spec() == self.metadata.unwrap().entries_spec(),
    {
        CallerContext {
            correlation_id: clone_opt(&self.correlation_id),
            user_id: clone_opt(&self.user_id),
            tenant_id: clone_opt(&self.tenant_id),
            source: clone_opt(&self.source),
            metadata: match &self.metadata {
                Some(m) => Some(m.clone()),
                None => None,
            },
        }
    }
}

/// Whether a caller context's metadata, if any, is well formed.
pub open spec fn caller_wf(c: CallerContext) -> bool {
    c.metadata matches Some(m) ==> m.wf()
}

impl CallerContext {
    /// An empty context.
    pub fn new() -> (r: Self)
        ensures
            r.correlation_id is None,
            r.user_id is None,
            r.tenant_id is None,
            r.source is None,
            r.metadata is None,
    {
        CallerContext { correlation_id: None, user_id: None, tenant_id: None, source: None, metadata: None }
    }

    /// Set the correlation id.
    pub fn with_correlation_id(self, id: &str) -> (r: Self)
        ensures
            r.correlation_id matches Some(c) && c@ == id@,
            r.user_id == self.user_id,
            r.tenant_id == self.tenant_id,
            r.source == self.source,
            r.metadata == self.metadata,
    {
        CallerContext { correlation_id: Some(id.to_owned()), ..self }
    }

    /// Set the user id.
    pub fn with_user_id(self, id: &str) -> (r: Self)
        ensures
            r.user_id matches Some(c) && c@ == id@,
            r.correlation_id == self.correlation_id,
            r.tenant_id == self.tenant_id,
            r.source == self.source,
            r.metadata == self.metadata,
    {
        CallerContext { user_id: Some(id.to_owned()), ..self }
    }

    /// Set the tenant id.
    pub fn with_tenant_id(self, id: &str) -> (r: Self)
        ensures
            r.tenant_id matches Some(c) && c@ == id@,
            r.correlation_id == self.correlation_id,
            r.user_id == self.user_id,
            r.source == self.source,
            r.metadata == self.metadata,
    {
        CallerContext { tenant_id: Some(id.to_owned()), ..self }
    }

    /// Set the request source.
    pub fn with_source(self, source: &str) -> (r: Self)
        ensures
            r.source matches Some(c) && c@ == source@,
            r.correlation_id == self.correlation_id,
            r.user_id == self.user_id,
            r.tenant_id == self.tenant_id,
            r.metadata == self.metadata,
    {
        CallerContext { source: Some(source.to_owned()), ..self }
    }

    /// Add a metadata entry, creating the metadata map when absent.
    pub fn with_metadata(self, key: &str, value: &str) -> (r: Self)
        requires
            caller_wf(self),
        ensures
            caller_wf(r),
            r.metadata is Some,
            forall|k: Seq<char>| #[trigger] r.metadata.unwrap().get_spec(k) == if k == key@ {
                Some(value@)
            } else if self.metadata is Some {
                self.metadata.unwrap().get_spec(k)
            } else {
                None
            },
            r.correlation_id == self.correlation_id,
            r.user_id == self.user_id,
            r.tenant_id == self.tenant_id,
            r.source == self.source,
    {
        let mut meta = match self.metadata {
            Some(m) => m,
            None => StringMap::new(),
        };
        meta.insert(key, value);
        CallerContext {
            correlation_id: self.correlation_id,
            user_id: self.user_id,
            tenant_id: self.tenant_id,
            source: self.source,
            metadata: Some(meta),
        }
    }

    /// The correlation id; when absent, set it to `corr-{now_ms}` and return
    /// that. An id already set is returned and nothing changes.
    pub fn correlation_id_at(&mut self, now_ms: u64) -> (r: String)
        ensures
            old(self).correlation_id matches Some(c) ==> r == c && *final(self) == *old(self),
            old(self).correlation_id is None ==> r@ == "corr-"@ + decimal(now_ms as nat)
                && *final(self) == (CallerContext { correlation_id: Some(r), ..*old(self) }),
    {
        if let Some(value) = &self.correlation_id {
            return value.clone();
        }
        let mut generated = "corr-".to_owned();
        push_decimal(&mut generated, now_ms);
        self.correlation_id = Some(generated.clone());
        generated
    }

    /// The correlation id; when absent, set it to `corr-{now}`, `now` being the
    /// clock's reading in milliseconds since the epoch (see `correlation_id_at`).
    pub fn ensure_correlation_id(&mut self) -> (r: String)
        ensures
            old(self).correlation_id matches Some(c) ==> r == c && *final(self) == *old(self),
            old(self).correlation_id is None ==> (exists|t: u64| r@ == "corr-"@ + decimal(t as nat))
                && *final(self) == (CallerContext { correlation_id: Some(r), ..*old(self) }),
    {
        let now = unix_time_ms() as u64;
        self.correlation_id_at(now)
    }
}

// ── Telemetry ───────────────────────────────────────────────────────────────

/// Structured telemetry event.
#[derive(Debug)]
pub struct TelemetryEvent {
    pub event_type: String,
    pub correlation_id: Option<String>,
    pub session_id: Option<String>,
    pub timestamp_ms: u64,
    pub attributes: Vec<(String, serde_json::Value)>,
}

impl TelemetryEvent {
    /// An event stamped with the current clock and no attributes.
    pub fn new(event_type: &str, correlation_id: Option<String>, session_id: Option<String>) -> (r: Self)
        ensures
            r.event_type@ == event_type@,
            r.correlation_id == correlation_id,
            r.session_id == session_id,
            r.attributes@.len() == 0,
    {
        TelemetryEvent {
            event_type: event_type.to_owned(),
            correlation_id,
            session_id,
            timestamp_ms: unix_time_ms() as u64,
            attributes: Vec::new(),
        }
    }

    /// Add an attribute.
    pub fn with_attribute(self, key: &str, value: serde_json::Value) -> (r: Self)
        ensures
            r.event_type == self.event_type,
            r.correlation_id == self.correlation_id,
            r.session_id == self.session_id,
            r.timestamp_ms == self.timestamp_ms,
            r.attributes@.len() == self.attributes@.len() + 1,
            r.attributes@.drop_last() == self.attributes@,
            r.attributes@.last().0@ == key@,
            r.attributes@.last().1 == value,
    {
        let mut attributes = self.attributes;
        attributes.push((key.to_owned(), value));
        proof {
            assert(attributes@.drop_last() =~= self.attributes@);
        }
        TelemetryEvent { attributes, ..self }
    }

    /// Flat string attributes for metric exporters: the event type, and the
    /// correlation and session ids when present.
    pub fn metric_attributes(&self) -> (r: StringMap)
        ensures
            r.wf(),
            r.get_spec("event_type"@) == Some(self.event_type@),
            r.get_spec("correlation_id"@) == match self.correlation_id {
                Some(c) => Some(c@),
                None => None::<Seq<char>>,
            },
            r.get_spec("session_id"@) == match self.session_id {
                Some(c) => Some(c@),
                None => None::<Seq<char>>,
            },
    {
        proof {
            reveal_strlit("event_type");
            reveal_strlit("correlation_id");
            reveal_strlit("session_id");
            assert("event_type"@.len() != "correlation_id"@.len());
            assert("event_type"@[0] != "session_id"@[0]);
            assert("correlation_id"@.len() != "session_id"@.len());
        }
        let mut attrs = StringMap::new();
        attrs.insert("event_type", self.event_type.as_str());
        if let Some(correlation_id) = &self.correlation_id {
            attrs.insert("correlation_id", correlation_id.as_str());
        }
        if let Some(session_id) = &self.session_id {
            attrs.insert("session_id", session_id.as_str());
        }
        attrs
    }
}

/// Receiver of telemetry events, implemented by hosts.
pub trait ObservabilityHook {
    fn record_event(&mut self, event: TelemetryEvent);
}

/// Hook that discards every event.
pub struct NoOpObservabilityHook;

impl ObservabilityHook for NoOpObservabilityHook {
    fn record_event(&mut self, event: TelemetryEvent) {
    }
}

/// Events of `s` whose type is `t`, in order.
pub open spec fn events_of_type(s: Seq<TelemetryEvent>, t: Seq<char>) -> Seq<TelemetryEvent> {
    s.filter(|e: TelemetryEvent| e.event_type@ == t)
}

/// Whether two events carry the same type, ids and timestamp.
pub open spec fn same_event(a: TelemetryEvent, b: TelemetryEvent) -> bool {
    &&& a.event_type == b.event_type
    &&& a.correlation_id == b.correlation_id
    &&& a.session_id == b.session_id
    &&& a.timestamp_ms == b.timestamp_ms
    &&& a.attributes@.len() == b.attributes@.len()
}

impl Clone for TelemetryEvent {
    /// A copy with the same type, ids, timestamp and attributes.
    fn clone(&self) -> (r: Self)
        ensures
            r.event_type == self.event_type,
            r.correlation_id == self.correlation_id,
            r.session_id == self.session_id,
            r.timestamp_ms == self.timestamp_ms,
            r.attributes@ == self.attributes@,
    {
        let mut attributes: Vec<(String, serde_json::Value)> = Vec::new();
        let mut i: usize = 0;
        while i < self.attributes.len()
            invariant
                i <= self.attributes@.len(),
                attributes@ == self.attributes@.take(i as int),
            decreases self.attributes@.len() - i,
        {
            let a = (self.attributes[i].0.clone(), self.attributes[i].1.clone());
            proof {
                assert(self.attributes@.take(i + 1) =~= self.attributes@.take(i as int).push(a));
            }
            attributes.push(a);
            i = i + 1;
        }
        proof {
            assert(self.attributes@.take(i as int) =~= self.attributes@);
        }
        TelemetryEvent {
            event_type: self.event_type.clone(),
            correlation_id: clone_opt(&self.correlation_id),
            session_id: clone_opt(&self.session_id),
            timestamp_ms: self.timestamp_ms,
            attributes,
        }
    }
}

/// In-memory telemetry sink.
#[derive(Debug)]
pub struct InMemoryObservabilityHook {
    events: Vec<TelemetryEvent>,
}

impl InMemoryObservabilityHook {
    /// Events recorded so far, oldest first.
    pub closed spec fn events_spec(&self) -> Seq<TelemetryEvent> {
        self.events@
    }

    /// A sink with no event.
    pub fn new() -> (r: Self)
        ensures
            r.events_spec() == Seq::<TelemetryEvent>::empty(),
    {
        InMemoryObservabilityHook { events: Vec::new() }
    }

    /// Copies of the recorded events, oldest first.
    pub fn snapshot(&self) -> (r: Vec<TelemetryEvent>)
        ensures
            r@.len() == self.events_spec().len(),
            forall|i: int| 0 <= i < r@.len() ==> same_event(#[trigger] r@[i], self.events_spec()[i]),
    {
        let mut r: Vec<TelemetryEvent> = Vec::new();
        let mut i: usize = 0;
        while i < self.events.len()
            invariant
                i <= self.events@.len(),
                r@.len() == i,
                forall|j: int| 0 <= j < i ==> same_event(#[trigger] r@[j], self.events@[j]),
            decreases self.events@.len() - i,
        {
            r.push(self.events[i].clone());
            i = i + 1;
        }
        r
    }

    /// Forget every event.
    pub fn clear(&mut self)
        ensures
            final(self).events_spec() == Seq::<TelemetryEvent>::empty(),
    {
        self.events.clear();
    }

    /// Copies of the recorded events whose type is `event_type`, oldest first.
    pub fn events_by_type(&self, event_type: &str) -> (r: Vec<TelemetryEvent>)
        ensures
            r@.len() == events_of_type(self.events_spec(), event_type@).len(),
            forall|i: int| 0 <= i < r@.len() ==> same_event(#[trigger] r@[i], events_of_type(self.events_spec(), event_type@)[i]),
    {
        let mut r: Vec<TelemetryEvent> = Vec::new();
        let mut i: usize = 0;
        while i < self.events.len()
            invariant
                i <= self.events@.len(),
                r@.len() == events_of_type(self.events@.take(i as int), event_type@).len(),
                forall|j: int| 0 <= j < r@.len() ==> same_event(#[trigger] r@[j], events_of_type(self.events@.take(i as int), event_type@)[j]),
            decreases self.events@.len() - i,
        {
            proof {
                reveal_with_fuel(Seq::filter, 1);
                assert(self.events@.take(i + 1).drop_last() =~= self.events@.take(i as int));
            }
            if str_eq(self.events[i].event_type.as_str(), event_type) {
                r.push(self.events[i].clone());
            }
            i = i + 1;
        }
        proof {
            assert(self.events@.take(i as int) =~= self.events@);
        }
        r
    }
}

impl ObservabilityHook for InMemoryObservabilityHook {
    /// Append the event.
    fn record_event(&mut self, event: TelemetryEvent)
        ensures
            final(self).events_spec() == old(self).events_spec().push(event),
    {
        self.events.push(event);
    }
}

// ── Audit trail ─────────────────────────────────────────────────────────────

/// Category of an audit record.
#[derive(Debug, Clone, Copy, PartialEq, Eq, Structural)]
pub enum AuditCategory {
    PolicyDecision,
    ToolExecution,
    ModelRequest,
}

/// Structured audit record.
#[derive(Debug)]
pub struct AuditRecord {
    pub category: AuditCategory,
    pub action: String,
    pub allowed: bool,
    pub correlation_id: Option<String>,
    pub timestamp_ms: u64,
    pub details: StringMap,
}

impl Clone for AuditRecord {
    fn clone(&self) -> (r: Self)
        ensures
            r.category == self.category,
            r.action == self.action,
            r.allowed == self.allowed,
            r.correlation_id == self.correlation_id,
            r.timestamp_ms == self.timestamp_ms,
            r.details.entries_spec() == self.details.entries_spec(),
    {
        AuditRecord {
            category: self.category,
            action: self.action.clone(),
            allowed: self.allowed,
            correlation_id: clone_opt(&self.correlation_id),
            timestamp_ms: self.timestamp_ms,
            details: self.details.clone(),
        }
    }
}

impl AuditRecord {
    /// A record stamped with the current clock and no details.
    pub fn new(category: AuditCategory, action: &str, allowed: bool, correlation_id: Option<String>) -> (r: Self)
        ensures
            r.category == category,
            r.action@ == action@,
            r.allowed == allowed,
            r.correlation_id == correlation_id,
            r.details.wf(),
            r.details.len_spec() == 0,
    {
        AuditRecord {
            category,
            action: action.to_owned(),
            allowed,
            correlation_id,
            timestamp_ms: unix_time_ms() as u64,
            details: StringMap::new(),
        }
    }

    /// Add a detail entry.
    pub fn with_detail(self, key: &str, value: &str) -> (r: Self)
        requires
            self.details.wf(),
        ensures
            r.details.wf(),
            forall|k: Seq<char>| #[trigger] r.details.get_spec(k) == if k == key@ {
                Some(value@)
            } else {
                self.details.get_spec(k)
            },
            r.category == self.category,
            r.action == self.action,
            r.allowed == self.allowed,
            r.correlation_id == self.correlation_id,
            r.timestamp_ms == self.timestamp_ms,
    {
        let mut details = self.details;
        details.insert(key, value);
        AuditRecord { details, ..self }
    }
}

/// Records of `s` in category `c`, in order.
pub open spec fn records_in(s: Seq<AuditRecord>, c: AuditCategory) -> Seq<AuditRecord> {
    s.filter(|r: AuditRecord| r.category == c)
}

/// In-memory audit trail.
#[derive(Debug, Clone)]
pub struct AuditTrail {
    records: Vec<AuditRecord>,
}

impl AuditTrail {
    /// Records appended so far, oldest first.
    pub closed spec fn records_spec(&self) -> Seq<AuditRecord> {
        self.records@
    }

    /// An empty trail.
    pub fn new() -> (r: Self)
        ensures
            r.records_spec() == Seq::<AuditRecord>::empty(),
    {
        AuditTrail { records: Vec::new() }
    }

    /// Append a record.
    pub fn append(&mut self, record: AuditRecord)
        ensures
            final(self).records_spec() == old(self).records_spec().push(record),
    {
        self.records.push(record);
    }

    /// Copies of all records, oldest first.
    pub fn snapshot(&self) -> (r: Vec<AuditRecord>)
        ensures
            r@.len() == self.records_spec().len(),
            forall|i: int| 0 <= i < r@.len() ==> same_record(#[trigger] r@[i], self.records_spec()[i]),
    {
        let mut r: Vec<AuditRecord> = Vec::new();
        let mut i: usize = 0;
        while i < self.records.len()
            invariant
                i <= self.records@.len(),
                r@.len() == i,
                forall|j: int| 0 <= j < i ==> same_record(#[trigger] r@[j], self.records@[j]),
            decreases self.records@.len() - i,
        {
            r.push(self.records[i].clone());
            i = i + 1;
        }
        r
    }

    /// Copies of the records in `category`, oldest first.
    pub fn by_category(&self, category: AuditCategory) -> (r: Vec<AuditRecord>)
        ensures
            r@.len() == records_in(self.records_spec(), category).len(),
            forall|i: int| 0 <= i < r@.len() ==> same_record(#[trigger] r@[i], records_in(self.records_spec(), category)[i]),
    {
        let mut r: Vec<AuditRecord> = Vec::new();
        let mut i: usize = 0;
        while i < self.records.len()
            invariant
                i <= self.records@.len(),
                r@.len() == records_in(self.records@.take(i as int), category).len(),
                forall|j: int| 0 <= j < r@.len() ==> same_record(#[trigger] r@[j], records_in(self.records@.take(i as int), category)[j]),
            decreases self.records@.len() - i,
        {
            proof {
                reveal_with_fuel(Seq::filter, 1);
                assert(self.records@.take(i + 1).drop_last() =~= self.records@.take(i as int));
            }
            if self.records[i].category == category {
                r.push(self.records[i].clone());
            }
            i = i + 1;
        }
        proof {
            assert(self.records@.take(i as int) =~= self.records@);
        }
        r
    }

    /// Forget every record.
    pub fn clear(&mut self)
        ensures
            final(self).records_spec() == Seq::<AuditRecord>::empty(),
    {
        self.records.clear();
    }
}

/// Whether two records carry the same fields.
pub open spec fn same_record(a: AuditRecord, b: AuditRecord) -> bool {
    &&& a.category == b.category
    &&& a.action == b.action
    &&& a.allowed == b.allowed
    &&& a.correlation_id == b.correlation_id
    &&& a.timestamp_ms == b.timestamp_ms
    &&& a.details.entries_spec() == b.details.entries_spec()
}

// ── Tracing ─────────────────────────────────────────────────────────────────

/// Span context used by tracing hooks.
#[derive(Debug)]
pub struct TraceSpanContext {
    pub trace_id: String,
    pub span_id: String,
    pub parent_span_id: Option<String>,
    pub correlation_id: Option<String>,
    pub name: String,
    pub attributes: StringMap,
}

impl Clone for TraceSpanContext {
    fn clone(&self) -> (r: Self)
        ensures
            same_span(r, *self),
    {
        TraceSpanContext {
            trace_id: self.trace_id.clone(),
            span_id: self.span_id.clone(),
            parent_span_id: clone_opt(&self.parent_span_id),
            correlation_id: clone_opt(&self.correlation_id),
            name: self.name.clone(),
            attributes: self.attributes.clone(),
        }
    }
}

/// Whether two spans carry the same fields.
pub open spec fn same_span(a: TraceSpanContext, b: TraceSpanContext) -> bool {
    &&& a.trace_id == b.trace_id
    &&& a.span_id == b.span_id
    &&& a.parent_span_id == b.parent_span_id
    &&& a.correlation_id == b.correlation_id
    &&& a.name == b.name
    &&& a.attributes.entries_spec() == b.attributes.entries_spec()
}

impl TraceSpanContext {
    /// A root span without attributes.
    pub fn new(trace_id: &str, span_id: &str, name: &str) -> (r: Self)
        ensures
            r.trace_id@ == trace_id@,
            r.span_id@ == span_id@,
            r.name@ == name@,
            r.parent_span_id is None,
            r.correlation_id is None,
            r.attributes.wf(),
            r.attributes.len_spec() == 0,
    {
        TraceSpanContext {
            trace_id: trace_id.to_owned(),
            span_id: span_id.to_owned(),
            parent_span_id: None,
            correlation_id: None,
            name: name.to_owned(),
            attributes: StringMap::new(),
        }
    }

    /// Set the parent span.
    pub fn with_parent(self, parent_span_id: &str) -> (r: Self)
        ensures
            r.parent_span_id matches Some(p) && p@ == parent_span_id@,
            r.trace_id == self.trace_id,
            r.span_id == self.span_id,
            r.correlation_id == self.correlation_id,
            r.name == self.name,
            r.attributes == self.attributes,
    {
        TraceSpanContext { parent_span_id: Some(parent_span_id.to_owned()), ..self }
    }

    /// Set the correlation id.
    pub fn with_correlation_id(self, correlation_id: &str) -> (r: Self)
        ensures
            r.correlation_id matches Some(c) && c@ == correlation_id@,
            r.trace_id == self.trace_id,
            r.span_id == self.span_id,
            r.parent_span_id == self.parent_span_id,
            r.name == self.name,
            r.attributes == self.attributes,
    {
        TraceSpanContext { correlation_id: Some(correlation_id.to_owned()), ..self }
    }

    /// Add an attribute.
    pub fn with_attribute(self, key: &str, value: &str) -> (r: Self)
        requires
            self.attributes.wf(),
        ensures
            r.attributes.wf(),
            forall|k: Seq<char>| #[trigger] r.attributes.get_spec(k) == if k == key@ {
                Some(value@)
            } else {
                self.attributes.get_spec(k)
            },
            r.trace_id == self.trace_id,
            r.span_id == self.span_id,
            r.parent_span_id == self.parent_span_id,
            r.correlation_id == self.correlation_id,
            r.name == self.name,
    {
        let mut attributes = self.attributes;
        attributes.insert(key, value);
        TraceSpanContext { attributes, ..self }
    }
}

/// Status of a finished span.
#[derive(Debug, Clone, Copy, PartialEq, Eq, Structural)]
pub enum TraceStatus {
    Success,
    Error,
}

/// Tracing hook, implemented by hosts to bridge into tracing back-ends.
pub trait TracingHook {
    fn on_span_start(&mut self, span: TraceSpanContext);

    fn on_span_end(&mut self, span: TraceSpanContext, status: TraceStatus);
}

/// In-memory tracing hook.
#[derive(Debug, Clone)]
pub struct InMemoryTracingHook {
    started: Vec<TraceSpanContext>,
    ended: Vec<(TraceSpanContext, TraceStatus)>,
}

impl InMemoryTracingHook {
    /// Spans started so far, oldest first.
    pub closed spec fn started_spec(&self) -> Seq<TraceSpanContext> {
        self.started@
    }

    /// Spans ended so far with their status, oldest first.
    pub closed spec fn ended_spec(&self) -> Seq<(TraceSpanContext, TraceStatus)> {
        self.ended@
    }

    /// A hook with no span.
    pub fn new() -> (r: Self)
        ensures
            r.started_spec().len() == 0,
            r.ended_spec().len() == 0,
    {
        InMemoryTracingHook { started: Vec::new(), ended: Vec::new() }
    }

    /// Copies of the started spans, oldest first.
    pub fn started_spans(&self) -> (r: Vec<TraceSpanContext>)
        ensures
            r@.len() == self.started_spec().len(),
            forall|i: int| 0 <= i < r@.len() ==> same_span(#[trigger] r@[i], self.started_spec()[i]),
    {
        let mut r: Vec<TraceSpanContext> = Vec::new();
        let mut i: usize = 0;
        while i < self.started.len()
            invariant
                i <= self.started@.len(),
                r@.len() == i,
                forall|j: int| 0 <= j < i ==> same_span(#[trigger] r@[j], self.started@[j]),
            decreases self.started@.len() - i,
        {
            r.push(self.started[i].clone());
            i = i + 1;
        }
        r
    }

    /// Copies of the ended spans with their status, oldest first.
    pub fn ended_spans(&self) -> (r: Vec<(TraceSpanContext, TraceStatus)>)
        ensures
            r@.len() == self.ended_spec().len(),
            forall|i: int| 0 <= i < r@.len() ==> same_span(#[trigger] r@[i].0, self.ended_spec()[i].0) && r@[i].1
                == self.ended_spec()[i].1,
    {
        let mut r: Vec<(TraceSpanContext, TraceStatus)> = Vec::new();
        let mut i: usize = 0;
        while i < self.ended.len()
            invariant
                i <= self.ended@.len(),
                r@.len() == i,
                forall|j: int| 0 <= j < i ==> same_span(#[trigger] r@[j].0, self.ended@[j].0) && r@[j].1 == self.ended@[j].1,
            decreases self.ended@.len() - i,
        {
            r.push((self.ended[i].0.clone(), self.ended[i].1));
            i = i + 1;
        }
        r
    }
}

impl TracingHook for InMemoryTracingHook {
    /// Record a started span.
    fn on_span_start(&mut self, span: TraceSpanContext)
        ensures
            final(self).started_spec() == old(self).started_spec().push(span),
            final(self).ended_spec() == old(self).ended_spec(),
    {
        self.started.push(span);
    }

    /// Record an ended span.
    fn on_span_end(&mut self, span: TraceSpanContext, status: TraceStatus)
        ensures
            final(self).ended_spec() == old(self).ended_spec().push((span, status)),
            final(self).started_spec() == old(self).started_spec(),
    {
        self.ended.push((span, status));
    }
}

} // verus!
