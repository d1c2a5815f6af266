//! Tool-call boundary: envelope validation and transport configuration.
pub mod envelope;
pub mod transport;
pub mod runtime;
