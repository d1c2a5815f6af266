//! Multi-agent orchestration: tasks, agent registry, cancellation and guardrails.
pub mod cancellation;
pub mod guardrails;
pub mod registry;
pub mod task;
pub mod orchestration;
