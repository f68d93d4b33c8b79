//! A verified core for a command-line financial-analysis assistant.
//!
//! The library models the logic of the tool: building chat-completion
//! request payloads, keeping a bounded conversation window, mapping
//! document kinds to analysis prompts, and driving the per-document
//! report pipeline. All I/O (terminal, network, filesystem, PDF text
//! extraction) lives outside the library and hands it plain values.

use vstd::prelude::*;

pub mod context;
pub mod finance;
pub mod helper;
pub mod llm;

verus! {

/// The failure taxonomy of the tool.
///
/// `MissingCredential` is fatal at startup; `MissingDocument` is a
/// per-unit skip condition inside the report pipeline; `Completion`
/// wraps a failure of one chat-completion call; `Io` is a write
/// failure surfaced by the caller.
#[derive(Clone, Copy, Debug, PartialEq, Eq, Structural)]
pub enum ToolError {
    MissingCredential,
    MissingDocument,
    Completion(CompletionError),
    Io,
}

/// How one chat-completion call can fail.
#[derive(Clone, Copy, Debug, PartialEq, Eq, Structural)]
pub enum CompletionError {
    Transport,
    Decode,
    EmptyResponse,
}

} // verus!
