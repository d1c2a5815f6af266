# antikythera_core

The core of an MCP agent runtime, written in Verus: the decisions of the
runtime are verified against their contracts, and the parts that talk to the
network, the clock, files or other threads live in a thin host layer.

## Layout

- `src/` — the verified library.
  - `domain`, `text`, `compose`, `decimal`, `json`, `string_map`: messages,
    string and number formatting, JSON payloads, string maps.
  - `context_window`, `context_policy`: token estimates, pruning and
    summarising of history, the history policy.
  - `session_store`: per-session history with least-recently-used eviction.
  - `client`: configuration of the chat client; preparing a turn for the model
    and recording its answer.
  - `agent_state`, `fsm`: the agent state machine and the runner's decisions
    (next action, directives, retries, terminal outcome).
  - `multi_agent`: tasks, profiles, guardrails, cancellation, the state
    machine that runs one task (deadline, cancellation and guardrail checks,
    attempts and retries), and the sequential pipeline.
  - `tooling`: tool-call envelopes, tool resolution and answers, server
    connection plans, transport modes and event-stream lines.
  - `hooks`, `observability`, `resilience`: host hooks and how policy verdicts
    combine, telemetry, audit and tracing records, health states.
  - `streaming`: bounded event streams, buffers and input chunks.
  - `config`: runtime and stored configuration and the conversions between
    them, provider and server entries, the configuration cache entry.
  - `memory`, `services`, `ui`: state snapshots, chat service outcomes,
    assembly errors and run modes.
- `app/` — the host layer: model provider, HTTP transport, agent and
  orchestrator loops, configuration files, hooks with shared state, health and
  latency tracking, command line.
- `tests/` — tests of the library on concrete values.

Laws of the library (for example, that pruning drops only the oldest history,
that the session store evicts the least recently used session, that a task's
agent runs at most once more than its retries, that a pipeline stops at its
first failure, and that policy verdicts compose) are public proof
functions whose names begin with `law_`.
