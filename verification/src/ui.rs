//! Errors of assembling UI components from tool output, and the run modes of
//! the command line.
//! Errors of assembling a UI from tool output, and the modes the program runs in.
use vstd::prelude::*;

use crate::decimal::{decimal, push_decimal};

verus! {

/// Why UI assembly failed.
/// Why tool output could not be assembled into a UI.
#[derive(Debug, Clone, PartialEq, Eq)]
pub enum AssemblerError {
    /// A data index beyond the steps available: the index and the step count.
    IndexOutOfBounds(usize, usize),
    /// A component type not defined in the UI definitions.
    UnknownComponent(String),
    /// A required field missing from the tool output.
    MissingField(String),
    /// A field of the wrong type.
    TypeError { field: String, expected: String, actual: String },
    /// A tool output of the wrong structure.
    InvalidStructure(String),
}

/// The text of an assembly error.
/// The text of an assembly error.
pub open spec fn assembler_error_text(e: AssemblerError) -> Seq<char> {
    match e {
        AssemblerError::IndexOutOfBounds(i, n) => "Data index "@ + decimal(i as nat) + " out of bounds (available: "@
            + decimal(n as nat) + " steps)"@,
        AssemblerError::UnknownComponent(c) => "Unknown component type: '"@ + c@ + "' not defined in ui.toml"@,
        AssemblerError::MissingField(f) => "Missing required field '"@ + f@ + "' in tool output"@,
        AssemblerError::TypeError { field, expected, actual } => "Type error: field '"@ + field@ + "' expected "@
            + expected@ + ", got "@ + actual@,
        AssemblerError::InvalidStructure(s) => "Invalid tool output structure: "@ + s@,
    }
}

impl AssemblerError {
    /// The text of the error.
    /// The error's text (see `assembler_error_text`).
    pub fn message(&self) -> (r: String)
        ensures
            r@ == assembler_error_text(*self),
    {
        match self {
            AssemblerError::IndexOutOfBounds(i, n) => {
                let mut r = "Data index ".to_owned();
                push_decimal(&mut r, *i as u64);
                r.append(" out of bounds (available: ");
                push_decimal(&mut r, *n as u64);
                r.append(" steps)");
                r
            },
            AssemblerError::UnknownComponent(c) => {
                let mut r = "Unknown component type: '".to_owned();
                r.append(c.as_str());
                r.append("' not defined in ui.toml");
                r
            },
            AssemblerError::MissingField(f) => {
                let mut r = "Missing required field '".to_owned();
                r.append(f.as_str());
                r.append("' in tool output");
                r
            },
            AssemblerError::TypeError { field, expected, actual } => {
                let mut r = "Type error: field '".to_owned();
                r.append(field.as_str());
                r.append("' expected ");
                r.append(expected.as_str());
                r.append(", got ");
                r.append(actual.as_str());
                r
            },
            AssemblerError::InvalidStructure(s) => {
                let mut r = "Invalid tool output structure: ".to_owned();
                r.append(s.as_str());
                r
            },
        }
    }
}

/// How the program runs.
/// How the program runs: over STDIO, as a REST server, both, the setup
/// wizard, or multi-agent.
#[derive(Debug, Clone, Copy, PartialEq, Eq, Structural)]
pub enum RunMode {
    /// Interactive standard input and output.
    Stdio,
    /// REST API server.
    Rest,
    /// Both at once.
    All,
    /// Configuration wizard.
    Setup,
    /// Multi-agent orchestrator harness.
    MultiAgent,
}

} // verus!
