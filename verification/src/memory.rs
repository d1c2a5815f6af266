//! Persisted agent state: the snapshot a host stores between runs.
//! The state of an agent as it is saved and restored by the host.
use vstd::prelude::*;

use crate::string_map::StringMap;

verus! {

/// Schema version of persisted state.
/// The schema version that snapshots are written with.
pub const STATE_SCHEMA_VERSION: u32 = 1;

/// One conversation turn.
/// One turn of a conversation.
#[derive(Debug, Clone)]
pub struct ConversationTurn {
    pub role: String,
    pub content: String,
    pub timestamp: i64,
    pub attachments: Vec<Attachment>,
}

/// An attachment of a turn.
/// A file attached to a turn.
#[derive(Debug, Clone)]
pub struct Attachment {
    pub mime_type: String,
    pub data: String,
    pub name: Option<String>,
}

/// Execution metadata of a snapshot.
/// Counters and notes of an agent's run.
#[derive(Debug, Clone)]
pub struct StateMetadata {
    /// Steps executed.
    pub steps_executed: u32,
    /// Tokens used.
    pub tokens_used: u32,
    /// Last error message.
    pub last_error: Option<String>,
    /// Free-form key-value pairs.
    pub custom: StringMap,
}

/// No steps, no tokens, no error and no notes.
impl Default for StateMetadata {
    fn default() -> (r: Self)
        ensures
            r.steps_executed == 0,
            r.tokens_used == 0,
            r.last_error is None,
            r.custom.wf(),
            r.custom.len_spec() == 0,
    {
        StateMetadata { steps_executed: 0, tokens_used: 0, last_error: None, custom: StringMap::new() }
    }
}

/// The current time in whole seconds since the Unix epoch, read with
/// `chrono::Utc::now().timestamp()`. Nothing is stated of it: it is the clock.
#[verifier::external_body]
fn utc_now_secs() -> (r: i64) {
    chrono::Utc::now().timestamp()
}

/// What is saved of an agent: its conversation, cached tool results, context
/// variables and run metadata, stamped with the schema version and the time.
/// The tool cache holds one entry per key.
#[derive(Debug, Clone)]
pub struct AgentStateSnapshot {
    /// Schema version it was written with.
    pub schema_version: u32,
    /// Conversation context id.
    pub context_id: String,
    /// Agent profile id.
    pub agent_id: String,
    /// Name of the state machine's state.
    pub fsm_state: String,
    /// Conversation history.
    pub history: Vec<ConversationTurn>,
    /// Cached tool results by key.
    pub tool_cache: Vec<(String, serde_json::Value)>,
    /// Context variables.
    pub context_vars: StringMap,
    /// Time of the last update, in seconds since the Unix epoch.
    pub timestamp: i64,
    pub metadata: StateMetadata,
}

impl AgentStateSnapshot {
    /// A fresh snapshot in the `Idle` state, of the current schema, stamped now.
    /// A fresh snapshot in the `Idle` state, stamped with the current time.
    pub fn new(context_id: String, agent_id: String) -> (r: Self)
        ensures
            r.schema_version == STATE_SCHEMA_VERSION,
            r.context_id == context_id,
            r.agent_id == agent_id,
            r.fsm_state@ == "Idle"@,
            r.history@.len() == 0,
            r.tool_cache@.len() == 0,
            r.context_vars.wf(),
            r.context_vars.len_spec() == 0,
            r.metadata.steps_executed == 0,
            r.metadata.tokens_used == 0,
            r.metadata.last_error is None,
    {
        AgentStateSnapshot {
            schema_version: STATE_SCHEMA_VERSION,
            context_id,
            agent_id,
            fsm_state: "Idle".to_owned(),
            history: Vec::new(),
            tool_cache: Vec::new(),
            context_vars: StringMap::new(),
            timestamp: utc_now_secs(),
            metadata: StateMetadata::default(),
        }
    }

    /// Whether the snapshot was written with the current schema.
    /// Whether the snapshot was written with the current schema version.
    pub fn is_compatible(&self) -> (r: bool)
        ensures
            r == (self.schema_version == STATE_SCHEMA_VERSION),
    {
        self.schema_version == STATE_SCHEMA_VERSION
    }
}

} // verus!
