//! The error taxonomy: configuration errors are fatal at load time, backend
//! and dispatch errors abort the current conversation, execution errors are
//! surfaced to the caller.

use vstd::prelude::*;

verus! {

/// A malformed or inconsistent definition: the process must not start with it.
#[derive(Debug, Clone, Copy, PartialEq, Eq, Structural)]
pub enum ConfigError {
    UnknownExecutable,
    UnknownArgumentKind,
    UnknownLlm,
    UnresolvedTool,
}

/// The backend failed to produce a usable completion.
#[derive(Debug, Clone, Copy, PartialEq, Eq, Structural)]
pub enum BackendError {
    /// The provider reported no candidate completion.
    EmptyResponse,
    /// The scripted backend had no response left to give.
    Exhausted,
    /// The request could not be delivered (transport or non-success status).
    Transport,
    /// The response body could not be decoded.
    Unparseable,
}

/// A tool call could not be resolved or bound to its tool.
#[derive(Debug, Clone, Copy, PartialEq, Eq, Structural)]
pub enum DispatchError {
    /// No tool of the requested name is in the active skill set.
    UnknownTool,
    /// A declared argument was missing from the call's argument object,
    /// or was not of its declared kind.
    InvalidArgument,
}

/// The executable behind a tool could not deliver an output.
#[derive(Debug, Clone, Copy, PartialEq, Eq, Structural)]
pub enum ExecutionError {
    /// The runner failed to produce output.
    Failed,
    /// The scripted runner had no output left to give.
    Exhausted,
}

/// Everything that can abort a conversation.
#[derive(Debug, Clone, Copy, PartialEq, Eq, Structural)]
pub enum AgentError {
    Config(ConfigError),
    Backend(BackendError),
    Dispatch(DispatchError),
    Execution(ExecutionError),
    /// The configured maximum number of rounds was reached.
    LimitExceeded,
}

} // verus!
