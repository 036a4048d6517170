//! The settings of a thread that the core passes around.

use vstd::prelude::*;

verus! {

/// When the agent asks the client before it runs a command.
#[derive(Clone, Copy, Debug, PartialEq, Eq, Structural)]
pub enum AskForApproval {
    UnlessTrusted,
    OnFailure,
    OnRequest,
    Never,
}

/// What the commands of the agent may touch.
#[derive(Clone, Copy, Debug, PartialEq, Eq, Structural)]
pub enum SandboxPolicy {
    DangerFullAccess,
    ReadOnly,
    WorkspaceWrite,
}

/// How much the model is asked to reason.
#[derive(Clone, Copy, Debug, PartialEq, Eq, Structural)]
pub enum ReasoningEffort {
    Minimal,
    Low,
    Medium,
    High,
    XHigh,
}

/// The tone in which the agent answers.
#[derive(Clone, Copy, Debug, PartialEq, Eq, Structural)]
pub enum Personality {
    Friendly,
    Pragmatic,
}

/// Where the requests of the process have to stay.
#[derive(Clone, Copy, Debug, PartialEq, Eq, Structural)]
pub enum ResidencyRequirement {
    Us,
}

/// Which front end a session belongs to.
#[derive(Clone, Copy, Debug, PartialEq, Eq, Structural)]
pub enum SessionSource {
    Cli,
    VSCode,
    Exec,
    Mcp,
    Unknown,
}

} // verus!
