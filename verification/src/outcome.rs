//! How an activation attempt ends.

use crate::generation::ParseError;
use vstd::prelude::*;
use vstd::string::*;

verus! {

/// The two shell commands of a request.
#[derive(Clone, Copy, Debug, PartialEq, Eq, Structural)]
pub enum Hook {
    /// The command that sets a new profile up.
    Bootstrap,
    /// The command that brings a profile into effect.
    Activation,
}

/// The four operations of the profile backend.
#[derive(Clone, Copy, Debug, PartialEq, Eq, Structural)]
pub enum Operation {
    /// Point the profile at a closure, as a new generation.
    Switch,
    /// Point the profile at the generation before the current one.
    Rollback,
    /// List the generations of the profile.
    ListGenerations,
    /// Remove one generation from the history.
    DeleteGeneration,
}

/// What went wrong in an activation attempt.
#[derive(Clone, Debug, PartialEq, Eq)]
pub enum ActivationError {
    /// An operation of the profile backend failed.
    Backend { operation: Operation, detail: String },
    /// A hook could not be launched.
    Spawn { hook: Hook, detail: String },
    /// A hook ran and reported failure.
    HookFailure { hook: Hook },
    /// The generation listing names no generation to remove.
    Parse { cause: ParseError },
    /// The profile path could not be removed after a failed bootstrap.
    Filesystem { detail: String },
}

/// An error as characters.
pub enum ErrorView {
    Backend { operation: Operation, detail: Seq<char> },
    Spawn { hook: Hook, detail: Seq<char> },
    HookFailure { hook: Hook },
    Parse { cause: ParseError },
    Filesystem { detail: Seq<char> },
}

impl View for ActivationError {
    type V = ErrorView;

    open spec fn view(&self) -> ErrorView {
        match *self {
            ActivationError::Backend { operation, detail } => ErrorView::Backend {
                operation,
                detail: detail@,
            },
            ActivationError::Spawn { hook, detail } => ErrorView::Spawn { hook, detail: detail@ },
            ActivationError::HookFailure { hook } => ErrorView::HookFailure { hook },
            ActivationError::Parse { cause } => ErrorView::Parse { cause },
            ActivationError::Filesystem { detail } => ErrorView::Filesystem { detail: detail@ },
        }
    }
}

/// The name of a hook in a message.
pub open spec fn hook_name_of(hook: Hook) -> Seq<char> {
    match hook {
        Hook::Bootstrap => "bootstrap"@,
        Hook::Activation => "activation"@,
    }
}

/// What the backend was to do, in a message.
pub open spec fn operation_name_of(operation: Operation) -> Seq<char> {
    match operation {
        Operation::Switch => "set the profile"@,
        Operation::Rollback => "roll back the profile"@,
        Operation::ListGenerations => "list the generations"@,
        Operation::DeleteGeneration => "delete the generation"@,
    }
}

/// The message that stands for a parse error.
pub open spec fn parse_message_of(cause: ParseError) -> Seq<char> {
    match cause {
        ParseError::NotText => "Expected the generation list to be text"@,
        ParseError::NoGeneration => "Expected to find a generation in list"@,
        ParseError::NoIdentifier => "Expected to get ID from generation entry"@,
    }
}

/// The message that stands for an error: one line, with the detail that
/// the failed step gave at its end.
pub open spec fn message_of(error: ErrorView) -> Seq<char> {
    match error {
        ErrorView::Backend { operation, detail } => "Failed to "@ + operation_name_of(operation)
            + ": "@ + detail,
        ErrorView::Spawn { hook, detail } => "Failed to execute "@ + hook_name_of(hook)
            + " command: "@ + detail,
        ErrorView::HookFailure { hook } => "Failed to execute "@ + hook_name_of(hook)
            + " command"@,
        ErrorView::Parse { cause } => parse_message_of(cause),
        ErrorView::Filesystem { detail } => "Failed to remove the profile path: "@ + detail,
    }
}

impl Hook {
    /// The name of the hook.
    pub fn name(self) -> (name: &'static str)
        ensures
            name@ == hook_name_of(self),
    {
        match self {
            Hook::Bootstrap => "bootstrap",
            Hook::Activation => "activation",
        }
    }
}

impl Operation {
    /// What the operation does, in words.
    pub fn name(self) -> (name: &'static str)
        ensures
            name@ == operation_name_of(self),
    {
        match self {
            Operation::Switch => "set the profile",
            Operation::Rollback => "roll back the profile",
            Operation::ListGenerations => "list the generations",
            Operation::DeleteGeneration => "delete the generation",
        }
    }
}

impl ActivationError {
    /// The message with which the error is reported.
    pub fn message(&self) -> (text: String)
        ensures
            text@ == message_of(self@),
    {
        match self {
            ActivationError::Backend { operation, detail } => {
                let mut text = String::from_str("Failed to ");
                text.append(operation.name());
                text.append(": ");
                text.append(detail.as_str());
                text
            },
            ActivationError::Spawn { hook, detail } => {
                let mut text = String::from_str("Failed to execute ");
                text.append(hook.name());
                text.append(" command: ");
                text.append(detail.as_str());
                text
            },
            ActivationError::HookFailure { hook } => {
                let mut text = String::from_str("Failed to execute ");
                text.append(hook.name());
                text.append(" command");
                text
            },
            ActivationError::Parse { cause } => match cause {
                ParseError::NotText => String::from_str("Expected the generation list to be text"),
                ParseError::NoGeneration => String::from_str(
                    "Expected to find a generation in list",
                ),
                ParseError::NoIdentifier => String::from_str(
                    "Expected to get ID from generation entry",
                ),
            },
            ActivationError::Filesystem { detail } => {
                let mut text = String::from_str("Failed to remove the profile path: ");
                text.append(detail.as_str());
                text
            },
        }
    }
}

/// The result of an attempt that ran to its end.
#[derive(Clone, Debug, PartialEq, Eq)]
pub enum ActivationOutcome {
    /// The profile is switched and in effect.
    Success,
    /// The activation hook failed and nothing was done about it.
    Failed(ActivationError),
    /// The activation hook failed and the profile was rolled back.
    RolledBack(ActivationError),
}

/// An outcome as characters.
pub enum OutcomeView {
    Success,
    Failed(ErrorView),
    RolledBack(ErrorView),
}

impl View for ActivationOutcome {
    type V = OutcomeView;

    open spec fn view(&self) -> OutcomeView {
        match *self {
            ActivationOutcome::Success => OutcomeView::Success,
            ActivationOutcome::Failed(reason) => OutcomeView::Failed(reason@),
            ActivationOutcome::RolledBack(reason) => OutcomeView::RolledBack(reason@),
        }
    }
}

/// What a verdict stands for: the outcome of an attempt that ran to its end,
/// or the error that stopped it.
pub open spec fn verdict_view(verdict: Result<ActivationOutcome, ActivationError>) -> Result<
    OutcomeView,
    ErrorView,
> {
    match verdict {
        Ok(outcome) => Ok(outcome@),
        Err(error) => Err(error@),
    }
}

/// The exit code that goes with a verdict, zero for success and one for all
/// else.
pub open spec fn exit_code_of(verdict: Result<OutcomeView, ErrorView>) -> int {
    if verdict == Ok::<OutcomeView, ErrorView>(OutcomeView::Success) {
        0
    } else {
        1
    }
}

/// The exit code with which the process reports `verdict`.
pub fn exit_code(verdict: &Result<ActivationOutcome, ActivationError>) -> (code: i32)
    ensures
        code == exit_code_of(verdict_view(*verdict)),
{
    match verdict {
        Ok(ActivationOutcome::Success) => 0,
        _ => 1,
    }
}

} // verus!
