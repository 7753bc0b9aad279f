//! What can go wrong while services are supervised.

use crate::paths::{quoted, quoted_path};
use vstd::prelude::*;
use vstd::string::*;

verus! {

/// The classes of failure.
#[derive(Clone, Copy, Debug, PartialEq, Eq, Structural)]
pub enum ErrorKind {
    /// A binary, an entry point or the bundle definition is missing.
    ResourceNotFound,
    /// The operating system refused a launch or a preparation for it.
    ProcessSpawnFailure,
    /// A command ran and reported failure.
    ProcessExitFailure,
    /// The container engine cannot be reached.
    EngineUnavailable,
    /// Nothing is broken, but the user has to act.
    ManualActionRequired,
}

/// The files that a consumer may find missing.
#[derive(Clone, Copy, Debug, PartialEq, Eq, Structural)]
pub enum Resource {
    PhoenixdBinary,
    NodeRuntime,
    BackendEntry,
    FrontendEntry,
    ComposeFile,
}

/// The steps that the operating system may refuse.
#[derive(Clone, Copy, Debug, PartialEq, Eq, Structural)]
pub enum Stage {
    DataDir,
    Phoenixd,
    Backend,
    Frontend,
    ComposeUp,
    ComposeDown,
    InstallScript,
}

/// The commands whose exit status is checked.
#[derive(Clone, Copy, Debug, PartialEq, Eq, Structural)]
pub enum CheckedCommand {
    ComposeUp,
    ComposeDown,
    InstallScript,
}

/// A failure, with what is needed to describe it.
#[derive(Clone, Debug, PartialEq, Eq)]
pub enum SupervisorError {
    ResourceNotFound { resource: Resource, path: String },
    ProcessSpawnFailure { stage: Stage, reason: String },
    ProcessExitFailure { command: CheckedCommand },
    EngineUnavailable,
    ManualActionRequired { instructions: String },
}

/// The mathematical content of a [`SupervisorError`].
pub enum SupervisorErrorView {
    ResourceNotFound { resource: Resource, path: Seq<char> },
    ProcessSpawnFailure { stage: Stage, reason: Seq<char> },
    ProcessExitFailure { command: CheckedCommand },
    EngineUnavailable,
    ManualActionRequired { instructions: Seq<char> },
}

impl View for SupervisorError {
    type V = SupervisorErrorView;

    open spec fn view(&self) -> SupervisorErrorView {
        match self {
            SupervisorError::ResourceNotFound { resource, path } => {
                SupervisorErrorView::ResourceNotFound { resource: *resource, path: path@ }
            },
            SupervisorError::ProcessSpawnFailure { stage, reason } => {
                SupervisorErrorView::ProcessSpawnFailure { stage: *stage, reason: reason@ }
            },
            SupervisorError::ProcessExitFailure { command } => {
                SupervisorErrorView::ProcessExitFailure { command: *command }
            },
            SupervisorError::EngineUnavailable => SupervisorErrorView::EngineUnavailable,
            SupervisorError::ManualActionRequired { instructions } => {
                SupervisorErrorView::ManualActionRequired { instructions: instructions@ }
            },
        }
    }
}

impl SupervisorErrorView {
    /// The class of the failure.
    pub open spec fn kind(self) -> ErrorKind {
        match self {
            SupervisorErrorView::ResourceNotFound { .. } => ErrorKind::ResourceNotFound,
            SupervisorErrorView::ProcessSpawnFailure { .. } => ErrorKind::ProcessSpawnFailure,
            SupervisorErrorView::ProcessExitFailure { .. } => ErrorKind::ProcessExitFailure,
            SupervisorErrorView::EngineUnavailable => ErrorKind::EngineUnavailable,
            SupervisorErrorView::ManualActionRequired { .. } => ErrorKind::ManualActionRequired,
        }
    }

    /// The text shown to the user.
    pub open spec fn message(self) -> Seq<char> {
        match self {
            SupervisorErrorView::ResourceNotFound { resource, path } => not_found_text(
                resource,
                quoted_path(path),
            ),
            SupervisorErrorView::ProcessSpawnFailure { stage, reason } => spawn_failure_prefix(
                stage,
            ) + reason,
            SupervisorErrorView::ProcessExitFailure { command } => exit_failure_text(command),
            SupervisorErrorView::EngineUnavailable => "Docker is not available"@,
            SupervisorErrorView::ManualActionRequired { instructions } => "Por favor, instale o Docker manualmente:\n"@
                + instructions,
        }
    }
}

/// The message for a missing resource, where `shown` is its path as it is to
/// appear. The message for a missing runtime names no path.
pub open spec fn not_found_text(resource: Resource, shown: Seq<char>) -> Seq<char> {
    match resource {
        Resource::PhoenixdBinary => "Phoenixd binary not found at: "@ + shown
            + ". Please ensure phoenixd is installed."@,
        Resource::NodeRuntime => "Node.js not found. Please install Node.js or include it in the app bundle."@,
        Resource::BackendEntry => "Backend entry point not found at: "@ + shown,
        Resource::FrontendEntry => "Frontend server not found at: "@ + shown
            + ". Make sure to build with 'next build' (standalone output)."@,
        Resource::ComposeFile => "docker-compose.yml not found at "@ + shown,
    }
}

/// How the message of a refused step begins; the reason follows.
pub open spec fn spawn_failure_prefix(stage: Stage) -> Seq<char> {
    match stage {
        Stage::DataDir => "Failed to create phoenixd home dir: "@,
        Stage::Phoenixd => "Failed to start phoenixd: "@,
        Stage::Backend => "Failed to start backend: "@,
        Stage::Frontend => "Failed to start frontend: "@,
        Stage::ComposeUp => "Failed to start containers: "@,
        Stage::ComposeDown => "Failed to stop containers: "@,
        Stage::InstallScript => "Failed to run install script: "@,
    }
}

/// The message for a command that ran and failed.
pub open spec fn exit_failure_text(command: CheckedCommand) -> Seq<char> {
    match command {
        CheckedCommand::ComposeUp => "Failed to start Docker containers"@,
        CheckedCommand::ComposeDown => "Failed to stop Docker containers"@,
        CheckedCommand::InstallScript => "Docker installation failed"@,
    }
}

fn spawn_failure_start(stage: Stage) -> (out: &'static str)
    ensures
        out@ == spawn_failure_prefix(stage),
{
    match stage {
        Stage::DataDir => "Failed to create phoenixd home dir: ",
        Stage::Phoenixd => "Failed to start phoenixd: ",
        Stage::Backend => "Failed to start backend: ",
        Stage::Frontend => "Failed to start frontend: ",
        Stage::ComposeUp => "Failed to start containers: ",
        Stage::ComposeDown => "Failed to stop containers: ",
        Stage::InstallScript => "Failed to run install script: ",
    }
}

fn exit_failure_message(command: CheckedCommand) -> (out: &'static str)
    ensures
        out@ == exit_failure_text(command),
{
    match command {
        CheckedCommand::ComposeUp => "Failed to start Docker containers",
        CheckedCommand::ComposeDown => "Failed to stop Docker containers",
        CheckedCommand::InstallScript => "Docker installation failed",
    }
}

/// `head`, then `tail`.
fn concat2(head: &str, tail: &str) -> (out: String)
    ensures
        out@ == head@ + tail@,
{
    let mut out = String::from_str(head);
    out.append(tail);
    out
}

/// `head`, then `middle`, then `tail`.
fn concat3(head: &str, middle: &str, tail: &str) -> (out: String)
    ensures
        out@ == head@ + middle@ + tail@,
{
    let mut out = concat2(head, middle);
    out.append(tail);
    out
}

/// The message for a missing resource, where `shown` is its path as it is to
/// appear.
pub fn not_found_message(resource: Resource, shown: &str) -> (out: String)
    ensures
        out@ == not_found_text(resource, shown@),
{
    match resource {
        Resource::PhoenixdBinary => concat3(
            "Phoenixd binary not found at: ",
            shown,
            ". Please ensure phoenixd is installed.",
        ),
        Resource::NodeRuntime => String::from_str(
            "Node.js not found. Please install Node.js or include it in the app bundle.",
        ),
        Resource::BackendEntry => concat2("Backend entry point not found at: ", shown),
        Resource::FrontendEntry => concat3(
            "Frontend server not found at: ",
            shown,
            ". Make sure to build with 'next build' (standalone output).",
        ),
        Resource::ComposeFile => concat2("docker-compose.yml not found at ", shown),
    }
}

impl SupervisorError {
    /// The class of the failure.
    pub fn kind(&self) -> (k: ErrorKind)
        ensures
            k == self@.kind(),
    {
        match self {
            SupervisorError::ResourceNotFound { .. } => ErrorKind::ResourceNotFound,
            SupervisorError::ProcessSpawnFailure { .. } => ErrorKind::ProcessSpawnFailure,
            SupervisorError::ProcessExitFailure { .. } => ErrorKind::ProcessExitFailure,
            SupervisorError::EngineUnavailable => ErrorKind::EngineUnavailable,
            SupervisorError::ManualActionRequired { .. } => ErrorKind::ManualActionRequired,
        }
    }

    /// The text shown to the user.
    pub fn message(&self) -> (out: String)
        ensures
            out@ == self@.message(),
    {
        match self {
            SupervisorError::ResourceNotFound { resource, path } => {
                let shown = quoted(path.as_str());
                not_found_message(*resource, shown.as_str())
            },
            SupervisorError::ProcessSpawnFailure { stage, reason } => {
                let mut out = String::from_str(spawn_failure_start(*stage));
                out.append(reason.as_str());
                out
            },
            SupervisorError::ProcessExitFailure { command } => String::from_str(
                exit_failure_message(*command),
            ),
            SupervisorError::EngineUnavailable => String::from_str("Docker is not available"),
            SupervisorError::ManualActionRequired { instructions } => {
                let mut out = String::from_str("Por favor, instale o Docker manualmente:\n");
                out.append(instructions.as_str());
                out
            },
        }
    }
}

} // verus!
