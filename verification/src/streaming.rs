//! Streaming primitives: token and agent-event output, bounded event streams,
//! flush-threshold buffers, chunked client input and an in-memory collector.
use std::collections::VecDeque;
use vstd::prelude::*;

verus! {

/// Streaming mode requested by the host.
#[derive(Debug, Clone, Copy, PartialEq, Eq, Structural)]
pub enum StreamingMode {
    Token,
    Event,
    Mixed,
}

impl Default for StreamingMode {
    fn default() -> (r: Self)
        ensures
            r == StreamingMode::Mixed,
    {
        StreamingMode::Mixed
    }
}

/// When buffered events are ready to flush.
#[derive(Debug, Clone, Copy, PartialEq, Eq, Structural)]
pub enum BufferPolicy {
    /// Ready after every event.
    Unbuffered,
    /// Ready once `flush_threshold` events are pending (a threshold of 0 counts as 1).
    Buffered { flush_threshold: usize },
}

/// Options of the second streaming phase: tool results, summaries, buffering.
#[derive(Debug, Clone, Copy, PartialEq, Eq)]
pub struct StreamingPhase2Options {
    pub include_tool_results: bool,
    pub include_summaries: bool,
    pub buffer_policy: BufferPolicy,
}

impl Default for StreamingPhase2Options {
    fn default() -> (r: Self)
        ensures
            r.include_tool_results,
            r.include_summaries,
            r.buffer_policy == BufferPolicy::Unbuffered,
    {
        StreamingPhase2Options {
            include_tool_results: true,
            include_summaries: true,
            buffer_policy: BufferPolicy::Unbuffered,
        }
    }
}

/// What kind of incremental output the host wants.
#[derive(Debug, Clone, Copy, PartialEq, Eq)]
pub struct StreamingRequest {
    pub mode: StreamingMode,
    pub include_final_response: bool,
    pub max_buffered_events: Option<usize>,
    pub phase2: Option<StreamingPhase2Options>,
}

/// Default value of `include_final_response`.
pub fn default_true() -> (r: bool)
    ensures
        r,
{
    true
}

impl Default for StreamingRequest {
    fn default() -> (r: Self)
        ensures
            r.mode == StreamingMode::Mixed,
            r.include_final_response,
            r.max_buffered_events is None,
            r.phase2 is None,
    {
        StreamingRequest {
            mode: StreamingMode::Mixed,
            include_final_response: true,
            max_buffered_events: None,
            phase2: None,
        }
    }
}

impl StreamingRequest {
    /// Whether token chunks are streamed.
    pub open spec fn wants_tokens_spec(self) -> bool {
        self.mode == StreamingMode::Token || self.mode == StreamingMode::Mixed
    }

    /// Whether agent events are streamed.
    pub open spec fn wants_events_spec(self) -> bool {
        self.mode == StreamingMode::Event || self.mode == StreamingMode::Mixed
    }

    /// Whether token chunks are surfaced (token or mixed mode).
    pub fn wants_tokens(&self) -> (r: bool)
        ensures
            r == self.wants_tokens_spec(),
    {
        matches!(self.mode, StreamingMode::Token | StreamingMode::Mixed)
    }

    /// Whether structured agent events are surfaced (event or mixed mode).
    pub fn wants_events(&self) -> (r: bool)
        ensures
            r == self.wants_events_spec(),
    {
        matches!(self.mode, StreamingMode::Event | StreamingMode::Mixed)
    }

    /// Whether second-phase options are present.
    pub fn is_phase2(&self) -> (r: bool)
        ensures
            r == self.phase2 is Some,
    {
        self.phase2.is_some()
    }

    /// The second-phase options, if any.
    pub fn phase2_opts(&self) -> (r: Option<&StreamingPhase2Options>)
        ensures
            r == match self.phase2 {
                Some(o) => Some(&o),
                None => None::<&StreamingPhase2Options>,
            },
    {
        match &self.phase2 {
            Some(o) => Some(o),
            None => None,
        }
    }
}

/// Tool event phase.
#[derive(Debug, Clone, Copy, PartialEq, Eq, Structural)]
pub enum ToolEventPhase {
    Started,
    Finished,
}

/// Intermediate event emitted by the agent pipeline.
#[derive(Debug, PartialEq, Eq)]
pub enum AgentEvent {
    Token { content: String },
    Tool { tool_name: String, phase: ToolEventPhase },
    State { state: String, detail: Option<String> },
    ToolResult { tool_name: String, chunk: String, is_final: bool },
    Summary { chunk: String, is_final: bool, original_message_count: usize },
    Completed,
}

fn clone_opt_string(s: &Option<String>) -> (r: Option<String>)
    ensures
        r == *s,
{
    match s {
        Some(x) => Some(x.clone()),
        None => None,
    }
}

impl Clone for AgentEvent {
    fn clone(&self) -> (r: Self)
        ensures
            r == *self,
    {
        match self {
            AgentEvent::Token { content } => AgentEvent::Token { content: content.clone() },
            AgentEvent::Tool { tool_name, phase } => AgentEvent::Tool { tool_name: tool_name.clone(), phase: *phase },
            AgentEvent::State { state, detail } => AgentEvent::State {
                state: state.clone(),
                detail: clone_opt_string(detail),
            },
            AgentEvent::ToolResult { tool_name, chunk, is_final } => AgentEvent::ToolResult {
                tool_name: tool_name.clone(),
                chunk: chunk.clone(),
                is_final: *is_final,
            },
            AgentEvent::Summary { chunk, is_final, original_message_count } => AgentEvent::Summary {
                chunk: chunk.clone(),
                is_final: *is_final,
                original_message_count: *original_message_count,
            },
            AgentEvent::Completed => AgentEvent::Completed,
        }
    }
}

/// The newest events of `s` that fit a bound of `max` events (all of them when unbounded).
pub open spec fn keep_newest(s: Seq<AgentEvent>, max: Option<usize>) -> Seq<AgentEvent> {
    match max {
        None => s,
        Some(m) => if s.len() > m {
            s.skip(s.len() - m)
        } else {
            s
        },
    }
}

/// In-memory FIFO stream of agent events, optionally bounded; when the bound is
/// exceeded the oldest events are dropped.
#[derive(Debug, Clone)]
pub struct AgentEventStream {
    max_buffered_events: Option<usize>,
    events: VecDeque<AgentEvent>,
}

impl View for AgentEventStream {
    type V = Seq<AgentEvent>;

    closed spec fn view(&self) -> Seq<AgentEvent> {
        self.events@
    }
}

impl AgentEventStream {
    /// The bound on buffered events.
    pub closed spec fn bound(&self) -> Option<usize> {
        self.max_buffered_events
    }

    /// An unbounded, empty stream.
    pub fn new() -> (r: Self)
        ensures
            r@ == Seq::<AgentEvent>::empty(),
            r.bound() is None,
    {
        AgentEventStream { max_buffered_events: None, events: VecDeque::new() }
    }

    /// An empty stream keeping at most `max_buffered_events` events.
    pub fn with_max_buffered_events(max_buffered_events: Option<usize>) -> (r: Self)
        ensures
            r@ == Seq::<AgentEvent>::empty(),
            r.bound() == max_buffered_events,
    {
        AgentEventStream { max_buffered_events, events: VecDeque::new() }
    }

    /// Append an event, then drop the oldest events beyond the bound.
    pub fn push(&mut self, event: AgentEvent)
        ensures
            final(self)@ == keep_newest(old(self)@.push(event), old(self).bound()),
            final(self).bound() == old(self).bound(),
    {
        self.events.push_back(event);
        self.enforce_bound();
    }

    fn enforce_bound(&mut self)
        ensures
            final(self)@ == keep_newest(old(self)@, old(self).bound()),
            final(self).bound() == old(self).bound(),
    {
        if let Some(max) = self.max_buffered_events {
            if max == 0 {
                self.events.clear();
                proof {
                    assert(old(self)@.skip(old(self)@.len() as int) =~= Seq::<AgentEvent>::empty());
                }
                return;
            }
            let ghost start = old(self)@;
            while self.events.len() > max
                invariant
                    self.max_buffered_events == Some(max),
                    self.max_buffered_events == old(self).max_buffered_events,
                    start == old(self)@,
                    start.len() > max ==> self.events.len() >= max,
                    self.events@.len() <= start.len(),
                    start.len() <= max ==> self.events@ == start,
                    self.events@ == start.skip(start.len() - self.events@.len()),
                decreases self.events.len(),
            {
                let ghost before = self.events@;
                let _ = self.events.pop_front();
                proof {
                    assert(self.events@ == before.subrange(1, before.len() as int));
                    let k = start.len() - before.len();
                    assert(before == start.skip(k));
                    assert(self.events@.len() == before.len() - 1);
                    assert forall|j: int| 0 <= j < self.events@.len() implies self.events@[j] == start.skip(k + 1)[j] by {
                        assert(self.events@[j] == before[j + 1]);
                        assert(before[j + 1] == start[k + j + 1]);
                    }
                    assert(self.events@ =~= start.skip(k + 1));
                }
            }
            proof {
                if start.len() <= max {
                    assert(start.skip(0) =~= start);
                }
            }
        }
    }

    /// Push a token event.
    pub fn push_token(&mut self, content: &str)
        ensures
            final(self).bound() == old(self).bound(),
            exists|e: AgentEvent|
                e matches AgentEvent::Token { content: c } && c@ == content@ && final(self)@
                    == keep_newest(#[trigger] old(self)@.push(e), old(self).bound()),
    {
        self.push(AgentEvent::Token { content: content.to_owned() });
    }

    /// Push a tool event.
    pub fn push_tool(&mut self, tool_name: &str, phase: ToolEventPhase)
        ensures
            final(self).bound() == old(self).bound(),
            exists|e: AgentEvent|
                e matches AgentEvent::Tool { tool_name: t, phase: p } && t@ == tool_name@ && p == phase
                    && final(self)@ == keep_newest(#[trigger] old(self)@.push(e), old(self).bound()),
    {
        self.push(AgentEvent::Tool { tool_name: tool_name.to_owned(), phase });
    }

    /// Push a state-transition event.
    pub fn push_state(&mut self, state: &str, detail: Option<String>)
        ensures
            final(self).bound() == old(self).bound(),
            exists|e: AgentEvent|
                e matches AgentEvent::State { state: s, detail: d } && s@ == state@ && d == detail
                    && final(self)@ == keep_newest(#[trigger] old(self)@.push(e), old(self).bound()),
    {
        self.push(AgentEvent::State { state: state.to_owned(), detail });
    }

    /// Push a chunk of a tool result.
    pub fn push_tool_result(&mut self, tool_name: &str, chunk: &str, is_final: bool)
        ensures
            final(self).bound() == old(self).bound(),
            exists|e: AgentEvent|
                e matches AgentEvent::ToolResult { tool_name: t, chunk: c, is_final: f } && t@ == tool_name@
                    && c@ == chunk@ && f == is_final && final(self)@ == keep_newest(
                    #[trigger] old(self)@.push(e),
                    old(self).bound(),
                ),
    {
        self.push(AgentEvent::ToolResult { tool_name: tool_name.to_owned(), chunk: chunk.to_owned(), is_final });
    }

    /// Push a chunk of a summary of `original_message_count` messages.
    pub fn push_summary(&mut self, chunk: &str, is_final: bool, original_message_count: usize)
        ensures
            final(self).bound() == old(self).bound(),
            exists|e: AgentEvent|
                e matches AgentEvent::Summary { chunk: c, is_final: f, original_message_count: n } && c@
                    == chunk@ && f == is_final && n == original_message_count && final(self)@
                    == keep_newest(#[trigger] old(self)@.push(e), old(self).bound()),
    {
        self.push(AgentEvent::Summary { chunk: chunk.to_owned(), is_final, original_message_count });
    }

    /// Mark completion of the stream.
    pub fn complete(&mut self)
        ensures
            final(self)@ == keep_newest(old(self)@.push(AgentEvent::Completed), old(self).bound()),
            final(self).bound() == old(self).bound(),
    {
        self.push(AgentEvent::Completed);
    }

    /// Number of buffered events.
    pub fn len(&self) -> (r: usize)
        ensures
            r == self@.len(),
    {
        self.events.len()
    }

    /// Whether no event is buffered.
    pub fn is_empty(&self) -> (r: bool)
        ensures
            r == (self@.len() == 0),
    {
        self.events.len() == 0
    }

    /// Remove and return the oldest event.
    pub fn pop_next(&mut self) -> (r: Option<AgentEvent>)
        ensures
            final(self).bound() == old(self).bound(),
            old(self)@.len() == 0 ==> r is None && final(self)@ == old(self)@,
            old(self)@.len() > 0 ==> r == Some(old(self)@[0]) && final(self)@ == old(self)@.drop_first(),
    {
        let r = self.events.pop_front();
        proof {
            if old(self)@.len() > 0 {
                assert(self.events@ =~= old(self)@.drop_first());
            }
        }
        r
    }

    /// Remove all events, oldest first.
    pub fn drain(&mut self) -> (r: Vec<AgentEvent>)
        ensures
            r@ == old(self)@,
            final(self)@ == Seq::<AgentEvent>::empty(),
            final(self).bound() == old(self).bound(),
    {
        let mut r: Vec<AgentEvent> = Vec::new();
        let ghost start = self.events@;
        while self.events.len() > 0
            invariant
                self.max_buffered_events == old(self).max_buffered_events,
                start == old(self)@,
                r@ + self.events@ == start,
            decreases self.events.len(),
        {
            let ghost before = self.events@;
            match self.events.pop_front() {
                Some(e) => {
                    proof {
                        assert(r@.push(e) + self.events@ =~= r@ + before);
                    }
                    r.push(e);
                },
                None => {},
            }
        }
        proof {
            assert(r@ + self.events@ =~= r@);
        }
        r
    }

    /// Copies of the buffered events, oldest first.
    pub fn snapshot(&self) -> (r: Vec<AgentEvent>)
        ensures
            r@ == self@,
    {
        let mut r: Vec<AgentEvent> = Vec::new();
        let mut i: usize = 0;
        while i < self.events.len()
            invariant
                i <= self@.len(),
                r@ == self@.take(i as int),
            decreases self@.len() - i,
        {
            let e = self.events[i].clone();
            proof {
                assert(self@.take(i + 1) =~= self@.take(i as int).push(e));
            }
            r.push(e);
            i = i + 1;
        }
        proof {
            assert(self@.take(i as int) =~= self@);
        }
        r
    }
}

/// The stream never holds more events than its bound.
pub proof fn law_stream_respects_bound(s: Seq<AgentEvent>, max: usize)
    ensures
        keep_newest(s, Some(max)).len() <= max,
        keep_newest(s, Some(max)).len() == if s.len() < max {
            s.len()
        } else {
            max as nat
        },
{
}

/// The newest event pushed is always kept when the bound is positive or absent.
pub proof fn law_stream_keeps_newest(s: Seq<AgentEvent>, e: AgentEvent, max: Option<usize>)
    requires
        max matches Some(m) ==> m > 0,
    ensures
        keep_newest(s.push(e), max).len() > 0,
        keep_newest(s.push(e), max).last() == e,
{
}

/// Events leave an unbounded stream in the order they entered it.
pub proof fn law_stream_is_fifo(s: Seq<AgentEvent>, e1: AgentEvent, e2: AgentEvent)
    ensures
        keep_newest(seq![e1], None).push(e2)[0] == e1,
        keep_newest(keep_newest(Seq::empty().push(e1), None).push(e2), None) == seq![e1, e2],
{
    assert(Seq::<AgentEvent>::empty().push(e1).push(e2) =~= seq![e1, e2]);
}

// ── Flush buffer ────────────────────────────────────────────────────────────

/// Effective flush threshold of a policy (a threshold of 0 counts as 1).
pub open spec fn flush_threshold(p: BufferPolicy) -> nat {
    match p {
        BufferPolicy::Unbuffered => 1,
        BufferPolicy::Buffered { flush_threshold } => if flush_threshold == 0 {
            1
        } else {
            flush_threshold as nat
        },
    }
}

/// Pending events released in batches according to a buffer policy.
#[derive(Debug, Clone)]
pub struct StreamingBuffer {
    policy: BufferPolicy,
    pending: Vec<AgentEvent>,
    flushed_total: usize,
}

impl StreamingBuffer {
    /// The flush policy.
    pub closed spec fn policy_spec(&self) -> BufferPolicy {
        self.policy
    }

    /// Events waiting to be flushed, oldest first.
    pub closed spec fn pending_spec(&self) -> Seq<AgentEvent> {
        self.pending@
    }

    /// Number of events flushed so far.
    pub closed spec fn flushed_spec(&self) -> nat {
        self.flushed_total as nat
    }

    /// An empty buffer.
    pub fn new(policy: BufferPolicy) -> (r: Self)
        ensures
            r.policy_spec() == policy,
            r.pending_spec() == Seq::<AgentEvent>::empty(),
            r.flushed_spec() == 0,
    {
        StreamingBuffer { policy, pending: Vec::new(), flushed_total: 0 }
    }

    /// Add an event; true when the pending events reach the flush threshold.
    pub fn push(&mut self, event: AgentEvent) -> (ready: bool)
        ensures
            final(self).pending_spec() == old(self).pending_spec().push(event),
            final(self).policy_spec() == old(self).policy_spec(),
            final(self).flushed_spec() == old(self).flushed_spec(),
            ready == (final(self).pending_spec().len() >= flush_threshold(old(self).policy_spec())),
    {
        self.pending.push(event);
        match self.policy {
            BufferPolicy::Unbuffered => true,
            BufferPolicy::Buffered { flush_threshold } => {
                let threshold = if flush_threshold == 0 {
                    1
                } else {
                    flush_threshold
                };
                self.pending.len() >= threshold
            },
        }
    }

    /// Take every pending event, oldest first, and count them as flushed.
    pub fn flush(&mut self) -> (batch: Vec<AgentEvent>)
        requires
            old(self).flushed_spec() + old(self).pending_spec().len() <= usize::MAX,
        ensures
            batch@ == old(self).pending_spec(),
            final(self).pending_spec() == Seq::<AgentEvent>::empty(),
            final(self).flushed_spec() == old(self).flushed_spec() + old(self).pending_spec().len(),
            final(self).policy_spec() == old(self).policy_spec(),
    {
        let mut batch: Vec<AgentEvent> = Vec::new();
        std::mem::swap(&mut batch, &mut self.pending);
        self.flushed_total = self.flushed_total + batch.len();
        batch
    }

    /// Number of pending events.
    pub fn pending_count(&self) -> (r: usize)
        ensures
            r == self.pending_spec().len(),
    {
        self.pending.len()
    }

    /// Number of events flushed so far.
    pub fn flushed_total(&self) -> (r: usize)
        ensures
            r == self.flushed_spec(),
    {
        self.flushed_total
    }
}

// ── Client input stream ─────────────────────────────────────────────────────

/// Concatenation of a sequence of chunks.
pub open spec fn concat_chunks(chunks: Seq<String>) -> Seq<char>
    decreases chunks.len(),
{
    if chunks.len() == 0 {
        Seq::empty()
    } else {
        concat_chunks(chunks.drop_last()) + chunks.last()@
    }
}

/// Chunked input pushed by a client, read back in order; no chunk may be
/// pushed once the stream is complete.
#[derive(Debug, Clone)]
pub struct ClientInputStream {
    chunks: VecDeque<String>,
    completed: bool,
    total_chars: usize,
}

impl ClientInputStream {
    /// Chunks not yet read, oldest first.
    pub closed spec fn pending_spec(&self) -> Seq<String> {
        self.chunks@
    }

    /// Whether the sender finished.
    pub closed spec fn is_completed_spec(&self) -> bool {
        self.completed
    }

    /// Characters pushed so far.
    pub closed spec fn total_chars_spec(&self) -> nat {
        self.total_chars as nat
    }

    /// An empty, open stream.
    pub fn new() -> (r: Self)
        ensures
            r.pending_spec() == Seq::<String>::empty(),
            !r.is_completed_spec(),
            r.total_chars_spec() == 0,
    {
        ClientInputStream { chunks: VecDeque::new(), completed: false, total_chars: 0 }
    }

    /// Append a chunk. The stream must still be open.
    pub fn push_chunk(&mut self, chunk: &str)
        requires
            !old(self).is_completed_spec(),
            old(self).total_chars_spec() + chunk@.len() <= usize::MAX,
        ensures
            final(self).pending_spec().len() == old(self).pending_spec().len() + 1,
            final(self).pending_spec().drop_last() == old(self).pending_spec(),
            final(self).pending_spec().last()@ == chunk@,
            final(self).total_chars_spec() == old(self).total_chars_spec() + chunk@.len(),
            !final(self).is_completed_spec(),
    {
        if self.completed {
            // Unreachable under the precondition; an unverified caller that
            // pushes to a closed stream gets the documented panic.
            let closed: Option<()> = None;
            closed.expect("cannot push to a completed ClientInputStream");
        }
        let n = chunk.unicode_len();
        self.chunks.push_back(chunk.to_owned());
        self.total_chars = self.total_chars + n;
        proof {
            assert(self.chunks@.drop_last() =~= old(self).chunks@);
        }
    }

    /// Close the stream.
    pub fn complete(&mut self)
        ensures
            final(self).is_completed_spec(),
            final(self).pending_spec() == old(self).pending_spec(),
            final(self).total_chars_spec() == old(self).total_chars_spec(),
    {
        self.completed = true;
    }

    /// Whether the stream was closed.
    pub fn is_complete(&self) -> (r: bool)
        ensures
            r == self.is_completed_spec(),
    {
        self.completed
    }

    /// Remove and return the oldest pending chunk.
    pub fn next_chunk(&mut self) -> (r: Option<String>)
        ensures
            old(self).pending_spec().len() == 0 ==> r is None && final(self).pending_spec() == old(self).pending_spec(),
            old(self).pending_spec().len() > 0 ==> r == Some(old(self).pending_spec()[0])
                && final(self).pending_spec() == old(self).pending_spec().drop_first(),
            final(self).is_completed_spec() == old(self).is_completed_spec(),
            final(self).total_chars_spec() == old(self).total_chars_spec(),
    {
        let r = self.chunks.pop_front();
        proof {
            if old(self)@.len() > 0 {
                assert(self.chunks@ =~= old(self).chunks@.drop_first());
            }
        }
        r
    }

    /// Number of pending chunks.
    pub fn pending_count(&self) -> (r: usize)
        ensures
            r == self.pending_spec().len(),
    {
        self.chunks.len()
    }

    /// Number of characters (Unicode scalar values) pushed so far.
    pub fn total_chars_pushed(&self) -> (r: usize)
        ensures
            r == self.total_chars_spec(),
    {
        self.total_chars
    }

    /// The pending chunks concatenated in order.
    pub fn collect_all(&self) -> (r: String)
        ensures
            r@ == concat_chunks(self.pending_spec()),
    {
        let mut r = String::new();
        let mut i: usize = 0;
        while i < self.chunks.len()
            invariant
                i <= self.chunks@.len(),
                r@ == concat_chunks(self.chunks@.take(i as int)),
            decreases self.chunks@.len() - i,
        {
            proof {
                assert(self.chunks@.take(i + 1).drop_last() =~= self.chunks@.take(i as int));
            }
            r.append(self.chunks[i].as_str());
            i = i + 1;
        }
        proof {
            assert(self.chunks@.take(i as int) =~= self.chunks@);
        }
        r
    }
}

impl View for ClientInputStream {
    type V = Seq<String>;

    closed spec fn view(&self) -> Seq<String> {
        self.chunks@
    }
}

// ── In-memory collector ─────────────────────────────────────────────────────

/// Snapshot of what an in-memory collector received.
#[derive(Debug, Clone, PartialEq, Eq)]
pub struct StreamingSnapshot {
    pub mode: StreamingMode,
    pub tokens: Vec<String>,
    pub events: Vec<AgentEvent>,
    pub final_response: Option<String>,
}

/// Provider-facing interface of a streaming response.
pub trait StreamingResponse {
    fn request(&self) -> &StreamingRequest;

    fn push_token(&mut self, token: String);

    fn push_event(&mut self, event: AgentEvent);

    fn set_final_response(&mut self, response: String);

    fn snapshot(&self) -> StreamingSnapshot;
}

/// Whether an event passes the second-phase filters of a request.
pub open spec fn event_admitted(request: StreamingRequest, event: AgentEvent) -> bool {
    &&& request.wants_events_spec()
    &&& match request.phase2 {
        None => true,
        Some(o) => {
            &&& (event is ToolResult ==> o.include_tool_results)
            &&& (event is Summary ==> o.include_summaries)
        },
    }
}

/// In-memory streaming collector.
#[derive(Debug, Clone)]
pub struct InMemoryStreamingResponse {
    request: StreamingRequest,
    tokens: Vec<String>,
    events: AgentEventStream,
    final_response: Option<String>,
}

impl InMemoryStreamingResponse {
    /// The request being answered.
    pub closed spec fn request_spec(&self) -> StreamingRequest {
        self.request
    }

    /// Token chunks sent so far.
    pub closed spec fn tokens_spec(&self) -> Seq<String> {
        self.tokens@
    }

    /// Events held, oldest first.
    pub closed spec fn events_spec(&self) -> Seq<AgentEvent> {
        self.events@
    }

    /// The final answer, once set.
    pub closed spec fn final_spec(&self) -> Option<String> {
        self.final_response
    }

    /// Most events held, when bounded.
    pub closed spec fn events_bound(&self) -> Option<usize> {
        self.events.bound()
    }

    /// An empty collector for `request`; its event stream keeps at most
    /// `request.max_buffered_events` events.
    pub fn new(request: StreamingRequest) -> (r: Self)
        ensures
            r.request_spec() == request,
            r.tokens_spec() == Seq::<String>::empty(),
            r.events_spec() == Seq::<AgentEvent>::empty(),
            r.events_bound() == request.max_buffered_events,
            r.final_spec() is None,
    {
        InMemoryStreamingResponse {
            events: AgentEventStream::with_max_buffered_events(request.max_buffered_events),
            request,
            tokens: Vec::new(),
            final_response: None,
        }
    }
}

impl StreamingResponse for InMemoryStreamingResponse {
    fn request(&self) -> (r: &StreamingRequest)
        ensures
            *r == self.request_spec(),
    {
        &self.request
    }

    /// Record a token: as a token when tokens are wanted, and as a token event
    /// when events are wanted.
    fn push_token(&mut self, token: String)
        ensures
            final(self).request_spec() == old(self).request_spec(),
            final(self).events_bound() == old(self).events_bound(),
            final(self).final_spec() == old(self).final_spec(),
            final(self).tokens_spec() == if old(self).request_spec().wants_tokens_spec() {
                old(self).tokens_spec().push(token)
            } else {
                old(self).tokens_spec()
            },
            old(self).request_spec().wants_events_spec() ==> exists|e: AgentEvent|
                e matches AgentEvent::Token { content } && content@ == token@ && final(self).events_spec()
                    == keep_newest(#[trigger] old(self).events_spec().push(e), old(self).events_bound()),
            !old(self).request_spec().wants_events_spec() ==> final(self).events_spec()
                == old(self).events_spec(),
    {
        if self.request.wants_tokens() {
            self.tokens.push(token.clone());
        }
        if self.request.wants_events() {
            let event = AgentEvent::Token { content: token };
            let ghost g = event;
            self.events.push(event);
            proof {
                assert(self.events@ == keep_newest(old(self).events_spec().push(g), old(self).events_bound()));
            }
        }
    }

    /// Record an event when events are wanted and the second-phase filters admit it.
    fn push_event(&mut self, event: AgentEvent)
        ensures
            final(self).request_spec() == old(self).request_spec(),
            final(self).events_bound() == old(self).events_bound(),
            final(self).tokens_spec() == old(self).tokens_spec(),
            final(self).final_spec() == old(self).final_spec(),
            final(self).events_spec() == if event_admitted(old(self).request_spec(), event) {
                keep_newest(old(self).events_spec().push(event), old(self).events_bound())
            } else {
                old(self).events_spec()
            },
    {
        if !self.request.wants_events() {
            return;
        }
        if let Some(opts) = &self.request.phase2 {
            let filtered = match &event {
                AgentEvent::ToolResult { .. } => !opts.include_tool_results,
                AgentEvent::Summary { .. } => !opts.include_summaries,
                _ => false,
            };
            if filtered {
                return;
            }
        }
        self.events.push(event);
    }

    /// Keep the final response when the request asks for it.
    fn set_final_response(&mut self, response: String)
        ensures
            final(self).request_spec() == old(self).request_spec(),
            final(self).events_bound() == old(self).events_bound(),
            final(self).tokens_spec() == old(self).tokens_spec(),
            final(self).events_spec() == old(self).events_spec(),
            final(self).final_spec() == if old(self).request_spec().include_final_response {
                Some(response)
            } else {
                old(self).final_spec()
            },
    {
        if self.request.include_final_response {
            self.final_response = Some(response);
        }
    }

    fn snapshot(&self) -> (r: StreamingSnapshot)
        ensures
            r.mode == self.request_spec().mode,
            r.tokens@ == self.tokens_spec(),
            r.events@ == self.events_spec(),
            r.final_response == self.final_spec(),
    {
        let mut tokens: Vec<String> = Vec::new();
        let mut i: usize = 0;
        while i < self.tokens.len()
            invariant
                i <= self.tokens@.len(),
                tokens@ == self.tokens@.take(i as int),
            decreases self.tokens@.len() - i,
        {
            let t = self.tokens[i].clone();
            proof {
                assert(self.tokens@.take(i + 1) =~= self.tokens@.take(i as int).push(t));
            }
            tokens.push(t);
            i = i + 1;
        }
        proof {
            assert(self.tokens@.take(i as int) =~= self.tokens@);
        }
        StreamingSnapshot {
            mode: self.request.mode,
            tokens,
            events: self.events.snapshot(),
            final_response: clone_opt_string(&self.final_response),
        }
    }
}

} // verus!
