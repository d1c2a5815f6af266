//! Decisions of the state-machine-driven agent runner: reading the model's
//! directive, choosing the next action for each state, retry backoff, the
//! prompt that reports a tool result, and the outcome of a terminal state.
//! The host performs the chosen actions (model calls, tool calls, persistence)
//! and feeds their results back.
use vstd::prelude::*;

use crate::agent_state::{next_state, AgentState, Event, TerminationReason};
use crate::domain::MessagePart;
use crate::json::{
    as_string, bool_value, entries_view, json_as_string, json_bool_of, json_entries, json_object_of,
    json_opt_string_of, json_string_of, json_text, object_entries, object_from, opt_string_value, string_value,
    to_text,
};
use crate::text::{opt_view, str_eq};

verus! {

/// Default maximum number of tool interactions.
pub const DEFAULT_MAX_STEPS: usize = 8;

/// Retries of a failed model call before the run gives up.
pub const MAX_TRANSIENT_RETRIES: u32 = 3;

/// Why an agent run failed.
#[derive(Debug, Clone, PartialEq, Eq)]
pub enum AgentError {
    InvalidResponse(String),
    MaxStepsExceeded,
    Timeout,
}

/// One executed tool call.
#[derive(Debug, Clone)]
pub struct AgentStep {
    pub tool: String,
    pub input: serde_json::Value,
    pub success: bool,
    pub output: serde_json::Value,
    pub message: Option<String>,
}

/// Result of an agent run.
#[derive(Debug, Clone)]
pub struct AgentOutcome {
    pub logs: Vec<String>,
    pub session_id: String,
    pub response: serde_json::Value,
    pub steps: Vec<AgentStep>,
}

/// Options of an agent run.
#[derive(Debug, Clone)]
pub struct AgentOptions {
    pub system_prompt: Option<String>,
    pub session_id: Option<String>,
    pub max_steps: usize,
    pub attachments: Vec<MessagePart>,
}

/// The step limit used when a request does not give one.
pub fn default_max_steps() -> (r: usize)
    ensures
        r == DEFAULT_MAX_STEPS,
{
    DEFAULT_MAX_STEPS
}

impl Default for AgentOptions {
    fn default() -> (r: Self)
        ensures
            r.system_prompt is None,
            r.session_id is None,
            r.max_steps == 0,
            r.attachments@.len() == 0,
    {
        AgentOptions { system_prompt: None, session_id: None, max_steps: 0, attachments: Vec::new() }
    }
}

/// What the model asked for.
#[derive(Debug)]
pub enum AgentDirective {
    /// Answer the user.
    Final { response: serde_json::Value },
    /// Call one tool.
    CallTool { tool: String, input: serde_json::Value },
    /// Call several tools.
    CallTools(Vec<(String, serde_json::Value)>),
}

// ── The final answer ────────────────────────────────────────────────────────

/// The value of the first entry named `k`.
pub open spec fn first_field(es: Seq<(Seq<char>, serde_json::Value)>, k: Seq<char>) -> Option<serde_json::Value>
    decreases es.len(),
{
    if es.len() == 0 {
        None
    } else if es[0].0 == k {
        Some(es[0].1)
    } else {
        first_field(es.drop_first(), k)
    }
}

/// Whether an entry key is one the final answer reads itself.
pub open spec fn is_reserved_key(k: Seq<char>) -> bool {
    k == "response"@ || k == "content"@ || k == "data"@
}

/// The entries the final answer passes on as metadata.
pub open spec fn metadata_entries(es: Seq<(Seq<char>, serde_json::Value)>) -> Seq<(Seq<char>, serde_json::Value)> {
    es.filter(|e: (Seq<char>, serde_json::Value)| !is_reserved_key(e.0))
}

/// Content, data and metadata of a final answer: a string is the content;
/// an object gives its `response` field (else its `content` field) as content
/// when that is a string, and its whole JSON text otherwise, its `data` field
/// as data, and its other fields as metadata (none when there is no other
/// field); any other value gives its JSON text as content.
pub open spec fn final_parts(v: serde_json::Value) -> (Seq<char>, Option<serde_json::Value>, Option<serde_json::Value>) {
    match json_as_string(v) {
        Some(s) => (s, None, None),
        None => match json_entries(v) {
            Some(es) => {
                let picked = match first_field(es, "response"@) {
                    Some(x) => Some(x),
                    None => first_field(es, "content"@),
                };
                let content = match picked {
                    Some(x) => match json_as_string(x) {
                        Some(t) => t,
                        None => json_text(v),
                    },
                    None => json_text(v),
                };
                let rest = metadata_entries(es);
                (content, first_field(es, "data"@), if rest.len() == 0 {
                    None
                } else {
                    Some(json_object_of(rest))
                })
            },
            None => (json_text(v), None, None),
        },
    }
}

/// The metadata of a final answer never carries the fields the answer reads
/// itself: for an object, the metadata is an object built from exactly its
/// fields other than `response`, `content` and `data`, in order (all of them
/// are kept), and there is no metadata when the object has no other field.
/// A string, or any value that is not an object, has no metadata.
pub proof fn law_final_metadata_excludes_answer_fields(v: serde_json::Value)
    ensures
        json_as_string(v) is Some ==> final_parts(v).2 is None,
        json_as_string(v) is None && json_entries(v) is None ==> final_parts(v).2 is None,
        json_as_string(v) is None ==> (json_entries(v) matches Some(es) ==> {
            let plain = |k: Seq<char>| k != "response"@ && k != "content"@ && k != "data"@;
            &&& final_parts(v).2 is None <==> (forall|i: int| 0 <= i < es.len() ==> !plain(#[trigger] es[i].0))
            &&& final_parts(v).2 matches Some(m) ==> exists|rest: Seq<(Seq<char>, serde_json::Value)>| {
                &&& m == json_object_of(rest)
                &&& forall|i: int| 0 <= i < rest.len() ==> plain(#[trigger] rest[i].0) && es.contains(rest[i])
                &&& forall|i: int| 0 <= i < es.len() && plain(#[trigger] es[i].0) ==> rest.contains(es[i])
            }
        }),
{
    if json_as_string(v) is None {
        if let Some(es) = json_entries(v) {
            let pred = |e: (Seq<char>, serde_json::Value)| !is_reserved_key(e.0);
            let rest = metadata_entries(es);
            assert(rest == es.filter(pred));
            es.filter_lemma(pred);
            assert forall|i: int| 0 <= i < rest.len() implies !is_reserved_key(#[trigger] rest[i].0) && es.contains(rest[i]) by {
                es.lemma_filter_contains_rev(pred, rest[i]);
            }
            if rest.len() == 0 {
                assert forall|i: int| 0 <= i < es.len() implies is_reserved_key(#[trigger] es[i].0) by {
                    if !is_reserved_key(es[i].0) {
                        assert(rest.contains(es[i]));
                    }
                }
            } else {
                assert(!is_reserved_key(rest[0].0));
                let k = choose|k: int| 0 <= k < es.len() && es[k] == rest[0];
                assert(!is_reserved_key(es[k].0));
            }
        }
    }
}

fn find_field(es: &Vec<(String, serde_json::Value)>, key: &str) -> (r: Option<serde_json::Value>)
    ensures
        r == first_field(entries_view(es@), key@),
{
    let ghost v = entries_view(es@);
    let mut i: usize = 0;
    proof {
        assert(v.subrange(0, v.len() as int) =~= v);
    }
    while i < es.len()
        invariant
            i <= es@.len(),
            v == entries_view(es@),
            first_field(v, key@) == first_field(v.subrange(i as int, v.len() as int), key@),
        decreases es@.len() - i,
    {
        let ghost rest = v.subrange(i as int, v.len() as int);
        proof {
            assert(rest.drop_first() =~= v.subrange(i + 1, v.len() as int));
            assert(rest[0] == v[i as int]);
        }
        if str_eq(es[i].0.as_str(), key) {
            return Some(es[i].1.clone());
        }
        i = i + 1;
    }
    proof {
        assert(v.subrange(i as int, v.len() as int).len() == 0);
    }
    None
}

fn metadata_of(es: &Vec<(String, serde_json::Value)>) -> (r: Vec<(String, serde_json::Value)>)
    ensures
        entries_view(r@) == metadata_entries(entries_view(es@)),
{
    let ghost v = entries_view(es@);
    let mut out: Vec<(String, serde_json::Value)> = Vec::new();
    let mut i: usize = 0;
    while i < es.len()
        invariant
            i <= es@.len(),
            v == entries_view(es@),
            entries_view(out@) == metadata_entries(v.take(i as int)),
        decreases es@.len() - i,
    {
        proof {
            reveal_with_fuel(Seq::filter, 1);
            assert(v.take(i + 1).drop_last() =~= v.take(i as int));
        }
        let key = es[i].0.as_str();
        if !(str_eq(key, "response") || str_eq(key, "content") || str_eq(key, "data")) {
            let ghost before = out@;
            out.push((es[i].0.clone(), es[i].1.clone()));
            proof {
                assert(entries_view(out@) =~= entries_view(before).push(v[i as int]));
            }
        }
        i = i + 1;
    }
    proof {
        assert(v.take(i as int) =~= v);
    }
    out
}

/// Content, data and metadata of a final answer.
pub fn split_final_response(response: &serde_json::Value) -> (r: (String, Option<serde_json::Value>, Option<serde_json::Value>))
    ensures
        (r.0@, r.1, r.2) == final_parts(*response),
{
    if let Some(s) = as_string(response) {
        return (s, None, None);
    }
    match object_entries(response) {
        Some(es) => {
            let picked = match find_field(&es, "response") {
                Some(x) => Some(x),
                None => find_field(&es, "content"),
            };
            let content = match picked {
                Some(x) => match as_string(&x) {
                    Some(t) => t,
                    None => to_text(response),
                },
                None => to_text(response),
            };
            let data = find_field(&es, "data");
            let rest = metadata_of(&es);
            let metadata = if rest.len() == 0 {
                None
            } else {
                Some(object_from(rest))
            };
            (content, data, metadata)
        },
        None => (to_text(response), None, None),
    }
}

/// Turn the model's directive into the next state, spending one of the
/// remaining tool interactions on a tool call; a tool call with none left
/// fails. Of several tools only the first is run; none at all waits for
/// context.
pub fn handle_directive(directive: AgentDirective, remaining_steps: &mut u32) -> (r: Result<AgentState, AgentError>)
    ensures
        match directive {
            AgentDirective::Final { response } => *final(remaining_steps) == *old(remaining_steps) && (
            r matches Ok(AgentState::FinalMessage { content, data, metadata }) && (content@, data, metadata)
                == final_parts(response)),
            AgentDirective::CallTool { tool, input } => if *old(remaining_steps) == 0 {
                r == Err::<AgentState, AgentError>(AgentError::MaxStepsExceeded)
                    && *final(remaining_steps) == 0
            } else {
                r == Ok::<AgentState, AgentError>(AgentState::ExecutingTool { tool_id: tool, input })
                    && *final(remaining_steps) == *old(remaining_steps) - 1
            },
            AgentDirective::CallTools(tools) => if *old(remaining_steps) == 0 {
                r == Err::<AgentState, AgentError>(AgentError::MaxStepsExceeded)
                    && *final(remaining_steps) == 0
            } else {
                *final(remaining_steps) == *old(remaining_steps) - 1 && if tools@.len() > 0 {
                    r == Ok::<AgentState, AgentError>(AgentState::ExecutingTool { tool_id: tools@[0].0, input: tools@[0].1 })
                } else {
                    r == Ok::<AgentState, AgentError>(AgentState::WaitingForContext)
                }
            },
        },
{
    match directive {
        AgentDirective::Final { response } => {
            let (content, data, metadata) = split_final_response(&response);
            Ok(AgentState::FinalMessage { content, data, metadata })
        },
        AgentDirective::CallTool { tool, input } => {
            if *remaining_steps == 0 {
                return Err(AgentError::MaxStepsExceeded);
            }
            *remaining_steps = *remaining_steps - 1;
            Ok(AgentState::ExecutingTool { tool_id: tool, input })
        },
        AgentDirective::CallTools(tools) => {
            if *remaining_steps == 0 {
                return Err(AgentError::MaxStepsExceeded);
            }
            *remaining_steps = *remaining_steps - 1;
            let mut tools = tools;
            if tools.len() > 0 {
                let (tool, input) = tools.remove(0);
                Ok(AgentState::ExecutingTool { tool_id: tool, input })
            } else {
                Ok(AgentState::WaitingForContext)
            }
        },
    }
}

// ── Choosing the next action ────────────────────────────────────────────────

/// What the runner does next.
#[derive(Debug)]
pub enum FsmAction {
    /// The state is terminal: build the outcome.
    Finish,
    /// Send the pending prompt to the model, with the initial attachments and
    /// the system prompt when asked.
    SendChat { with_attachments: bool, with_system_prompt: bool },
    /// Run this tool.
    RunTool { tool_id: String, input: serde_json::Value },
    /// Persist the state and stop until new context arrives.
    WaitForContext,
    /// Stop with this error.
    Fail(AgentError),
    /// Move to this state without outside work.
    Advance(AgentState),
}

/// The message of a run stopped in `ParsingDirective` with nothing to send.
pub open spec fn empty_prompt_message() -> Seq<char> {
    "FSM reached ParsingDirective with an empty prompt; call resume() with new_input to supply context."@
}

/// The message of a run that stopped to wait for context.
pub open spec fn waiting_message() -> Seq<char> {
    "Waiting for external context - use resume() to continue"@
}

/// The action for `state`: terminal states finish; a directive is requested
/// when there is a prompt (the attachments and system prompt go with the first
/// call only); a tool state runs its tool; waiting persists and stops; an error
/// is retried until `max_recovery_retries`, then fails; a finalised response is
/// sent; the idle state is invalid here and terminates the run.
pub fn next_action(state: &AgentState, prompt_is_empty: bool, first_call: bool, max_recovery_retries: u8) -> (r: FsmAction)
    ensures
        match *state {
            AgentState::FinalMessage { .. } => r is Finish,
            AgentState::Terminated { .. } => r is Finish,
            AgentState::ParsingDirective => if prompt_is_empty {
                r matches FsmAction::Fail(AgentError::InvalidResponse(m)) && m@ == empty_prompt_message()
            } else {
                r == (FsmAction::SendChat { with_attachments: first_call, with_system_prompt: first_call })
            },
            AgentState::ExecutingTool { tool_id, input } => r == (FsmAction::RunTool { tool_id, input }),
            AgentState::WaitingForContext => r is WaitForContext,
            AgentState::RecoveringError { error, retry_count } => if retry_count >= max_recovery_retries {
                r == FsmAction::Fail(AgentError::InvalidResponse(error))
            } else {
                r matches FsmAction::Advance(next) && next_state(*state, Event::Error { message: error }, next)
            },
            AgentState::FinalizingResponse => r matches FsmAction::Advance(next) && next_state(
                *state,
                Event::ResponseSent,
                next,
            ),
            AgentState::Idle => r matches FsmAction::Advance(AgentState::Terminated {
                reason: TerminationReason::Error { message },
            }) && message@ == "Invalid state: Idle"@,
        },
{
    match state {
        AgentState::FinalMessage { .. } => FsmAction::Finish,
        AgentState::Terminated { .. } => FsmAction::Finish,
        AgentState::ParsingDirective => {
            if prompt_is_empty {
                FsmAction::Fail(
                    AgentError::InvalidResponse(
                        "FSM reached ParsingDirective with an empty prompt; call resume() with new_input to supply context.".to_owned(),
                    ),
                )
            } else {
                FsmAction::SendChat { with_attachments: first_call, with_system_prompt: first_call }
            }
        },
        AgentState::ExecutingTool { tool_id, input } => FsmAction::RunTool {
            tool_id: tool_id.clone(),
            input: input.clone(),
        },
        AgentState::WaitingForContext => FsmAction::WaitForContext,
        AgentState::RecoveringError { error, retry_count } => {
            if *retry_count >= max_recovery_retries {
                FsmAction::Fail(AgentError::InvalidResponse(error.clone()))
            } else {
                let current = AgentState::RecoveringError { error: error.clone(), retry_count: *retry_count };
                FsmAction::Advance(current.transition(Event::Error { message: error.clone() }))
            }
        },
        AgentState::FinalizingResponse => FsmAction::Advance(AgentState::FinalizingResponse.transition(Event::ResponseSent)),
        AgentState::Idle => FsmAction::Advance(
            AgentState::Terminated {
                reason: TerminationReason::Error { message: "Invalid state: Idle".to_owned() },
            },
        ),
    }
}

/// The error a run stops with while it waits for context.
pub fn waiting_for_context_error() -> (r: AgentError)
    ensures
        r matches AgentError::InvalidResponse(m) && m@ == waiting_message(),
{
    AgentError::InvalidResponse("Waiting for external context - use resume() to continue".to_owned())
}

/// `2^n`.
pub open spec fn pow2(n: nat) -> nat
    decreases n,
{
    if n == 0 {
        1
    } else {
        2 * pow2((n - 1) as nat)
    }
}

/// The wait before retrying a failed model call, given the retries made so
/// far: 100 ms times two to the power of the retry's number (200, 400 and
/// 800 ms), or none once the retries are used up.
pub fn chat_retry_delay_ms(retries_so_far: u32) -> (r: Option<u64>)
    ensures
        retries_so_far < MAX_TRANSIENT_RETRIES ==> r == Some((100 * pow2((retries_so_far + 1) as nat)) as u64),
        retries_so_far >= MAX_TRANSIENT_RETRIES ==> r is None,
{
    if retries_so_far >= MAX_TRANSIENT_RETRIES {
        return None;
    }
    proof {
        reveal_with_fuel(pow2, 4);
    }
    if retries_so_far == 0 {
        Some(200)
    } else if retries_so_far == 1 {
        Some(400)
    } else {
        Some(800)
    }
}

// ── Reporting a tool result to the model ────────────────────────────────────

/// The entries of the report of one tool execution.
pub open spec fn tool_report_entries(tool: Seq<char>, input: serde_json::Value, success: bool, output: serde_json::Value, message: Option<Seq<char>>) -> Seq<(Seq<char>, serde_json::Value)> {
    seq![
        ("tool"@, json_string_of(tool)),
        ("input"@, input),
        ("success"@, json_bool_of(success)),
        ("output"@, output),
        ("message"@, json_opt_string_of(message)),
    ]
}

/// The prompt that hands a tool result back to the model: the JSON text of
/// `{"tool_result": {...}, "instruction": instruction}`.
pub open spec fn tool_result_prompt_text(tool: Seq<char>, input: serde_json::Value, success: bool, output: serde_json::Value, message: Option<Seq<char>>, instruction: Seq<char>) -> Seq<char> {
    json_text(
        json_object_of(
            seq![
                ("tool_result"@, json_object_of(tool_report_entries(tool, input, success, output, message))),
                ("instruction"@, json_string_of(instruction)),
            ],
        ),
    )
}

/// The prompt that hands the result of `step` back to the model.
pub fn tool_result_prompt(step: &AgentStep, instruction: &str) -> (r: String)
    ensures
        r@ == tool_result_prompt_text(step.tool@, step.input, step.success, step.output, opt_view(step.message), instruction@),
{
    let message = opt_string_value(&step.message);
    let mut report: Vec<(String, serde_json::Value)> = Vec::new();
    report.push(("tool".to_owned(), string_value(step.tool.as_str())));
    report.push(("input".to_owned(), step.input.clone()));
    report.push(("success".to_owned(), bool_value(step.success)));
    report.push(("output".to_owned(), step.output.clone()));
    report.push(("message".to_owned(), message));
    let ghost report_view = entries_view(report@);
    proof {
        assert(report_view =~= tool_report_entries(step.tool@, step.input, step.success, step.output, opt_view(step.message)));
    }
    let mut top: Vec<(String, serde_json::Value)> = Vec::new();
    top.push(("tool_result".to_owned(), object_from(report)));
    top.push(("instruction".to_owned(), string_value(instruction)));
    proof {
        assert(entries_view(top@) =~= seq![
            ("tool_result"@, json_object_of(report_view)),
            ("instruction"@, json_string_of(instruction@)),
        ]);
    }
    to_text(&object_from(top))
}

// ── The outcome of a terminal state ─────────────────────────────────────────

/// The structured answer of a final message: its content, then its data and
/// metadata when present.
pub open spec fn final_response_entries(content: Seq<char>, data: Option<serde_json::Value>, metadata: Option<serde_json::Value>) -> Seq<(Seq<char>, serde_json::Value)> {
    let base = seq![("content"@, json_string_of(content))];
    let with_data = match data {
        Some(d) => base.push(("data"@, d)),
        None => base,
    };
    match metadata {
        Some(m) => with_data.push(("metadata"@, m)),
        None => with_data,
    }
}

/// The session id of an outcome: the run's, or empty.
pub open spec fn outcome_session(session_id: Option<String>) -> Seq<char> {
    match session_id {
        Some(s) => s@,
        None => Seq::empty(),
    }
}

/// The outcome of a run that reached `state`: a final message answers with
/// its structured content; a successful termination with at least one step
/// answers with the last step's message (empty when it has none); the other
/// terminations fail with their reason; any other state is unexpected.
pub fn handle_terminal_state(state: AgentState, session_id: Option<String>, logs: Vec<String>, steps: Vec<AgentStep>) -> (r: Result<AgentOutcome, AgentError>)
    ensures
        match state {
            AgentState::FinalMessage { content, data, metadata } => (r matches Ok(o) && o.response
                == json_object_of(final_response_entries(content@, data, metadata)) && o.session_id@ == outcome_session(
                session_id,
            ) && o.logs == logs && o.steps == steps),
            AgentState::Terminated { reason } => match reason {
                TerminationReason::Success => if steps@.len() > 0 {
                    r matches Ok(o) && o.response == json_string_of(
                        match steps@.last().message {
                            Some(m) => m@,
                            None => Seq::<char>::empty(),
                        },
                    ) && o.session_id@ == outcome_session(session_id) && o.logs == logs && o.steps == steps
                } else {
                    r matches Err(AgentError::InvalidResponse(m)) && m@ == "Unknown termination"@
                },
                TerminationReason::Error { message } => r == Err::<AgentOutcome, AgentError>(
                    AgentError::InvalidResponse(message),
                ),
                TerminationReason::MaxStepsExceeded => r == Err::<AgentOutcome, AgentError>(AgentError::MaxStepsExceeded),
                TerminationReason::Timeout => r == Err::<AgentOutcome, AgentError>(AgentError::Timeout),
                TerminationReason::Cancelled => r matches Err(AgentError::InvalidResponse(m)) && m@ == "Cancelled"@,
            },
            _ => r matches Err(AgentError::InvalidResponse(m)) && m@ == "Unexpected terminal state"@,
        },
{
    let session = match session_id {
        Some(s) => s,
        None => String::new(),
    };
    match state {
        AgentState::FinalMessage { content, data, metadata } => {
            let mut entries: Vec<(String, serde_json::Value)> = Vec::new();
            entries.push(("content".to_owned(), string_value(content.as_str())));
            match data {
                Some(d) => entries.push(("data".to_owned(), d)),
                None => {},
            }
            match metadata {
                Some(m) => entries.push(("metadata".to_owned(), m)),
                None => {},
            }
            proof {
                assert(entries_view(entries@) =~= final_response_entries(content@, data, metadata));
            }
            let response = object_from(entries);
            Ok(AgentOutcome { logs, session_id: session, response, steps })
        },
        AgentState::Terminated { reason } => match reason {
            TerminationReason::Success => {
                if steps.len() > 0 {
                    let last = &steps[steps.len() - 1];
                    let text = match &last.message {
                        Some(m) => m.as_str(),
                        None => "",
                    };
                    proof {
                        reveal_strlit("");
                    }
                    let response = string_value(text);
                    assert(text@ == match steps@.last().message {
                        Some(m) => m@,
                        None => Seq::<char>::empty(),
                    });
                    assert(session@ == outcome_session(session_id));
                    Ok(AgentOutcome { logs, session_id: session, response, steps })
                } else {
                    Err(AgentError::InvalidResponse("Unknown termination".to_owned()))
                }
            },
            TerminationReason::Error { message } => Err(AgentError::InvalidResponse(message)),
            TerminationReason::MaxStepsExceeded => Err(AgentError::MaxStepsExceeded),
            TerminationReason::Timeout => Err(AgentError::Timeout),
            TerminationReason::Cancelled => Err(AgentError::InvalidResponse("Cancelled".to_owned())),
        },
        _ => Err(AgentError::InvalidResponse("Unexpected terminal state".to_owned())),
    }
}

} // verus!
