//! Verified core of an agent runtime: message model, context-window pruning,
//! streaming buffers, guardrails, hooks, observability records and configuration.
pub mod domain;
pub mod text;
pub mod context_window;
pub mod json;
pub mod agent_state;
pub mod streaming;
pub mod decimal;
pub mod multi_agent;
pub mod string_map;
pub mod clock;
pub mod observability;
pub mod hooks;
pub mod tooling;
pub mod session_store;
pub mod config;
pub mod fsm;
pub mod compose;
pub mod client;
pub mod resilience;
pub mod context_policy;
pub mod memory;
pub mod ui;
pub mod services;
