//! The activation protocol as a state machine.
//!
//! The machine decides; a driver acts. The machine names an [`Action`], the
//! driver performs it and hands back what happened as an [`Event`], and
//! [`step`] answers with the next state and the next action, until the
//! action is [`Action::Finish`] and the state holds the verdict.

use crate::generation::{parsed_view, superseded_generation, superseded_of, Generation};
use crate::outcome::{
    verdict_view, ActivationError, ActivationOutcome, ErrorView, Hook, Operation, OutcomeView,
};
use crate::request::{ActivationRequest, RequestView};
use vstd::prelude::*;

verus! {

/// What the driver is to do next.
#[derive(Clone, Debug, PartialEq, Eq)]
pub enum Action {
    /// Look whether the profile path exists.
    ProbePath { path: String },
    /// Have the backend point the profile at the closure.
    SetProfile { path: String, closure: String },
    /// Run a shell command. `profile` is the value of the environment
    /// variable `PROFILE`, if it is to be set; with `capture_output` the
    /// command's output is kept from the operator and thrown away.
    RunHook { hook: Hook, command: String, profile: Option<String>, capture_output: bool },
    /// Remove the profile path from the file system.
    RemovePath { path: String },
    /// Have the backend roll the profile back by one generation.
    Rollback { path: String },
    /// Have the backend list the generations of the profile.
    ListGenerations { path: String },
    /// Have the backend delete the generation `id`, after telling the
    /// operator of `entry`, the line of the listing that names it, and of
    /// `id`.
    DeleteGeneration { path: String, id: String, entry: String },
    /// Nothing more: the state holds the verdict.
    Finish,
}

/// An action as characters.
pub enum ActionView {
    ProbePath { path: Seq<char> },
    SetProfile { path: Seq<char>, closure: Seq<char> },
    RunHook { hook: Hook, command: Seq<char>, profile: Option<Seq<char>>, capture_output: bool },
    RemovePath { path: Seq<char> },
    Rollback { path: Seq<char> },
    ListGenerations { path: Seq<char> },
    DeleteGeneration { path: Seq<char>, id: Seq<char>, entry: Seq<char> },
    Finish,
}

impl View for Action {
    type V = ActionView;

    open spec fn view(&self) -> ActionView {
        match *self {
            Action::ProbePath { path } => ActionView::ProbePath { path: path@ },
            Action::SetProfile { path, closure } => ActionView::SetProfile {
                path: path@,
                closure: closure@,
            },
            Action::RunHook { hook, command, profile, capture_output } => ActionView::RunHook {
                hook,
                command: command@,
                profile: match profile {
                    Some(p) => Some(p@),
                    None => None,
                },
                capture_output,
            },
            Action::RemovePath { path } => ActionView::RemovePath { path: path@ },
            Action::Rollback { path } => ActionView::Rollback { path: path@ },
            Action::ListGenerations { path } => ActionView::ListGenerations { path: path@ },
            Action::DeleteGeneration { path, id, entry } => ActionView::DeleteGeneration {
                path: path@,
                id: id@,
                entry: entry@,
            },
            Action::Finish => ActionView::Finish,
        }
    }
}

/// What the driver reports of the action it performed.
#[derive(Clone, Debug, PartialEq, Eq)]
pub enum Event {
    /// The profile path was looked for.
    Probed { existed: bool },
    /// The backend operation, or the removal of the path, succeeded.
    Completed,
    /// The backend operation, or the removal of the path, failed.
    Failed { detail: String },
    /// The hook ran to its end; `success` tells whether its exit status was
    /// zero.
    Exited { success: bool },
    /// The hook could not be launched.
    SpawnFailed { detail: String },
    /// The backend listed the generations: `output` is what it printed.
    Listed { output: Vec<u8> },
}

/// An event as characters and bytes.
pub enum EventView {
    Probed { existed: bool },
    Completed,
    Failed { detail: Seq<char> },
    Exited { success: bool },
    SpawnFailed { detail: Seq<char> },
    Listed { output: Seq<u8> },
}

impl View for Event {
    type V = EventView;

    open spec fn view(&self) -> EventView {
        match *self {
            Event::Probed { existed } => EventView::Probed { existed },
            Event::Completed => EventView::Completed,
            Event::Failed { detail } => EventView::Failed { detail: detail@ },
            Event::Exited { success } => EventView::Exited { success },
            Event::SpawnFailed { detail } => EventView::SpawnFailed { detail: detail@ },
            Event::Listed { output } => EventView::Listed { output: output@ },
        }
    }
}

/// Where an activation attempt stands: what it waits for.
#[derive(Debug, PartialEq, Eq)]
pub enum State {
    /// Waits to learn whether the profile path exists.
    Probing,
    /// Waits for the backend to switch the profile. `existed` tells whether
    /// the path was there before.
    Switching { existed: bool },
    /// Waits for the bootstrap hook.
    Bootstrapping,
    /// The bootstrap failed with `cause`; waits for the removal of the
    /// profile path. The generation that the switch made stays in the
    /// history of the backend.
    Discarding { cause: ActivationError },
    /// Waits for the activation hook.
    Activating,
    /// The activation failed with `cause`; waits for the backend to roll
    /// back.
    RollingBack { cause: ActivationError },
    /// Rolled back; waits for the generation listing.
    Listing { cause: ActivationError },
    /// Waits for the backend to delete the superseded generation.
    Deleting { cause: ActivationError },
    /// Waits for the second run of the activation hook.
    Reactivating { cause: ActivationError },
    /// The attempt is over.
    Finished { verdict: Result<ActivationOutcome, ActivationError> },
}

/// A state as characters.
pub enum StateView {
    Probing,
    Switching { existed: bool },
    Bootstrapping,
    Discarding { cause: ErrorView },
    Activating,
    RollingBack { cause: ErrorView },
    Listing { cause: ErrorView },
    Deleting { cause: ErrorView },
    Reactivating { cause: ErrorView },
    Finished { verdict: Result<OutcomeView, ErrorView> },
}

impl View for State {
    type V = StateView;

    open spec fn view(&self) -> StateView {
        match *self {
            State::Probing => StateView::Probing,
            State::Switching { existed } => StateView::Switching { existed },
            State::Bootstrapping => StateView::Bootstrapping,
            State::Discarding { cause } => StateView::Discarding { cause: cause@ },
            State::Activating => StateView::Activating,
            State::RollingBack { cause } => StateView::RollingBack { cause: cause@ },
            State::Listing { cause } => StateView::Listing { cause: cause@ },
            State::Deleting { cause } => StateView::Deleting { cause: cause@ },
            State::Reactivating { cause } => StateView::Reactivating { cause: cause@ },
            State::Finished { verdict } => StateView::Finished { verdict: verdict_view(verdict) },
        }
    }
}

impl State {
    /// Whether the attempt is over.
    pub fn is_finished(&self) -> (over: bool)
        ensures
            over == (self@ is Finished),
    {
        match self {
            State::Finished { .. } => true,
            _ => false,
        }
    }

    /// The verdict of an attempt that is over, and `None` while it runs.
    pub fn into_verdict(self) -> (verdict: Option<Result<ActivationOutcome, ActivationError>>)
        ensures
            match verdict {
                Some(v) => self@ == (StateView::Finished { verdict: verdict_view(v) }),
                None => !(self@ is Finished),
            },
    {
        match self {
            State::Finished { verdict } => Some(verdict),
            _ => None,
        }
    }
}

/// The end of an attempt with `verdict`.
pub open spec fn finish_of(verdict: Result<OutcomeView, ErrorView>) -> (StateView, ActionView) {
    (StateView::Finished { verdict }, ActionView::Finish)
}

/// How an attempt starts: by looking whether the profile path exists,
/// before anything has touched it.
pub open spec fn start_of(request: RequestView) -> (StateView, ActionView) {
    (StateView::Probing, ActionView::ProbePath { path: request.profile_path })
}

/// What follows the switch of the profile, `existed` telling whether the
/// path was there before the switch: the bootstrap hook on a profile that
/// is new, the activation otherwise.
pub open spec fn switched_of(request: RequestView, existed: bool) -> (StateView, ActionView) {
    match request.bootstrap_command {
        Some(command) if !existed => (
            StateView::Bootstrapping,
            ActionView::RunHook {
                hook: Hook::Bootstrap,
                command,
                profile: Some(request.profile_path),
                capture_output: true,
            },
        ),
        _ => activation_of(request),
    }
}

/// The activation: the hook is run in view of the operator; a request
/// without one has succeeded.
pub open spec fn activation_of(request: RequestView) -> (StateView, ActionView) {
    match request.activation_command {
        Some(command) => (
            StateView::Activating,
            ActionView::RunHook {
                hook: Hook::Activation,
                command,
                profile: Some(request.profile_path),
                capture_output: false,
            },
        ),
        None => finish_of(Ok(OutcomeView::Success)),
    }
}

/// What follows an activation that failed with `cause`: a rollback where
/// the request asks for one, the end otherwise.
pub open spec fn failure_of(request: RequestView, cause: ErrorView) -> (StateView, ActionView) {
    if request.auto_rollback {
        (StateView::RollingBack { cause }, ActionView::Rollback { path: request.profile_path })
    } else {
        finish_of(Ok(OutcomeView::Failed(cause)))
    }
}

/// What follows the listing `output`: the deletion of the generation that
/// its last line names.
pub open spec fn listed_of(request: RequestView, cause: ErrorView, output: Seq<u8>) -> (
    StateView,
    ActionView,
) {
    match superseded_of(output) {
        Ok(generation) => (
            StateView::Deleting { cause },
            ActionView::DeleteGeneration {
                path: request.profile_path,
                id: generation.id,
                entry: generation.entry,
            },
        ),
        Err(error) => finish_of(Err(ErrorView::Parse { cause: error })),
    }
}

/// What follows the deletion of the superseded generation: the activation
/// hook once more, without `PROFILE` and in view of the operator.
pub open spec fn deleted_of(request: RequestView, cause: ErrorView) -> (StateView, ActionView) {
    match request.activation_command {
        Some(command) => (
            StateView::Reactivating { cause },
            ActionView::RunHook {
                hook: Hook::Activation,
                command,
                profile: None,
                capture_output: false,
            },
        ),
        None => finish_of(Ok(OutcomeView::RolledBack(cause))),
    }
}

/// The transition of the machine: the state and action that follow `event`
/// in `state`, and `None` where `state` does not wait for such an event.
pub open spec fn next_of(request: RequestView, state: StateView, event: EventView) -> Option<
    (StateView, ActionView),
> {
    match (state, event) {
        (StateView::Probing, EventView::Probed { existed }) => Some(
            (
                StateView::Switching { existed },
                ActionView::SetProfile { path: request.profile_path, closure: request.closure },
            ),
        ),
        (StateView::Switching { existed }, EventView::Completed) => Some(
            switched_of(request, existed),
        ),
        (StateView::Switching { .. }, EventView::Failed { detail }) => Some(
            finish_of(Err(ErrorView::Backend { operation: Operation::Switch, detail })),
        ),
        (StateView::Bootstrapping, EventView::Exited { success }) => Some(
            if success {
                activation_of(request)
            } else {
                (
                    StateView::Discarding { cause: ErrorView::HookFailure { hook: Hook::Bootstrap } },
                    ActionView::RemovePath { path: request.profile_path },
                )
            },
        ),
        (StateView::Bootstrapping, EventView::SpawnFailed { detail }) => Some(
            (
                StateView::Discarding { cause: ErrorView::Spawn { hook: Hook::Bootstrap, detail } },
                ActionView::RemovePath { path: request.profile_path },
            ),
        ),
        (StateView::Discarding { cause }, EventView::Completed) => Some(finish_of(Err(cause))),
        (StateView::Discarding { .. }, EventView::Failed { detail }) => Some(
            finish_of(Err(ErrorView::Filesystem { detail })),
        ),
        (StateView::Activating, EventView::Exited { success }) => Some(
            if success {
                finish_of(Ok(OutcomeView::Success))
            } else {
                failure_of(request, ErrorView::HookFailure { hook: Hook::Activation })
            },
        ),
        (StateView::Activating, EventView::SpawnFailed { detail }) => Some(
            failure_of(request, ErrorView::Spawn { hook: Hook::Activation, detail }),
        ),
        (StateView::RollingBack { cause }, EventView::Completed) => Some(
            (StateView::Listing { cause }, ActionView::ListGenerations { path: request.profile_path }),
        ),
        (StateView::RollingBack { .. }, EventView::Failed { detail }) => Some(
            finish_of(Err(ErrorView::Backend { operation: Operation::Rollback, detail })),
        ),
        (StateView::Listing { cause }, EventView::Listed { output }) => Some(
            listed_of(request, cause, output),
        ),
        (StateView::Listing { .. }, EventView::Failed { detail }) => Some(
            finish_of(Err(ErrorView::Backend { operation: Operation::ListGenerations, detail })),
        ),
        (StateView::Deleting { cause }, EventView::Completed) => Some(deleted_of(request, cause)),
        (StateView::Deleting { .. }, EventView::Failed { detail }) => Some(
            finish_of(Err(ErrorView::Backend { operation: Operation::DeleteGeneration, detail })),
        ),
        (StateView::Reactivating { cause }, EventView::Exited { .. }) => Some(
            finish_of(Ok(OutcomeView::RolledBack(cause))),
        ),
        (StateView::Reactivating { cause }, EventView::SpawnFailed { .. }) => Some(
            finish_of(Ok(OutcomeView::RolledBack(cause))),
        ),
        _ => None,
    }
}

/// What a transition stands for.
pub open spec fn transition_view(transition: Option<(State, Action)>) -> Option<
    (StateView, ActionView),
> {
    match transition {
        Some((state, action)) => Some((state@, action@)),
        None => None,
    }
}

fn finish(verdict: Result<ActivationOutcome, ActivationError>) -> (r: (State, Action))
    ensures
        (r.0@, r.1@) == finish_of(verdict_view(verdict)),
{
    (State::Finished { verdict }, Action::Finish)
}

fn activation(request: &ActivationRequest) -> (r: (State, Action))
    ensures
        (r.0@, r.1@) == activation_of(request@),
{
    match &request.activation_command {
        Some(command) => (
            State::Activating,
            Action::RunHook {
                hook: Hook::Activation,
                command: command.clone(),
                profile: Some(request.profile_path.clone()),
                capture_output: false,
            },
        ),
        None => finish(Ok(ActivationOutcome::Success)),
    }
}

fn switched(request: &ActivationRequest, existed: bool) -> (r: (State, Action))
    ensures
        (r.0@, r.1@) == switched_of(request@, existed),
{
    match &request.bootstrap_command {
        Some(command) if !existed => (
            State::Bootstrapping,
            Action::RunHook {
                hook: Hook::Bootstrap,
                command: command.clone(),
                profile: Some(request.profile_path.clone()),
                capture_output: true,
            },
        ),
        _ => activation(request),
    }
}

fn discard(request: &ActivationRequest, cause: ActivationError) -> (r: (State, Action))
    ensures
        r.0@ == (StateView::Discarding { cause: cause@ }),
        r.1@ == (ActionView::RemovePath { path: request@.profile_path }),
{
    (State::Discarding { cause }, Action::RemovePath { path: request.profile_path.clone() })
}

fn failure(request: &ActivationRequest, cause: ActivationError) -> (r: (State, Action))
    ensures
        (r.0@, r.1@) == failure_of(request@, cause@),
{
    if request.auto_rollback {
        (State::RollingBack { cause }, Action::Rollback { path: request.profile_path.clone() })
    } else {
        finish(Ok(ActivationOutcome::Failed(cause)))
    }
}

fn listed(request: &ActivationRequest, cause: ActivationError, output: Vec<u8>) -> (r: (
    State,
    Action,
))
    ensures
        (r.0@, r.1@) == listed_of(request@, cause@, output@),
{
    match superseded_generation(output) {
        Ok(generation) => (
            State::Deleting { cause },
            Action::DeleteGeneration {
                path: request.profile_path.clone(),
                id: generation.id,
                entry: generation.entry,
            },
        ),
        Err(error) => finish(Err(ActivationError::Parse { cause: error })),
    }
}

fn deleted(request: &ActivationRequest, cause: ActivationError) -> (r: (State, Action))
    ensures
        (r.0@, r.1@) == deleted_of(request@, cause@),
{
    match &request.activation_command {
        Some(command) => (
            State::Reactivating { cause },
            Action::RunHook {
                hook: Hook::Activation,
                command: command.clone(),
                profile: None,
                capture_output: false,
            },
        ),
        None => finish(Ok(ActivationOutcome::RolledBack(cause))),
    }
}

/// Starts an attempt: the first state and the first action.
pub fn begin(request: &ActivationRequest) -> (r: (State, Action))
    ensures
        (r.0@, r.1@) == start_of(request@),
{
    (State::Probing, Action::ProbePath { path: request.profile_path.clone() })
}

/// Takes the attempt one step on: from `state` and the `event` that the
/// driver reports of the last action to the next state and action. Returns
/// `None` where `state` does not wait for such an event.
pub fn step(request: &ActivationRequest, state: State, event: Event) -> (r: Option<(State, Action)>)
    ensures
        transition_view(r) == next_of(request@, state@, event@),
{
    match (state, event) {
        (State::Probing, Event::Probed { existed }) => Some(
            (
                State::Switching { existed },
                Action::SetProfile {
                    path: request.profile_path.clone(),
                    closure: request.closure.clone(),
                },
            ),
        ),
        (State::Switching { existed }, Event::Completed) => Some(switched(request, existed)),
        (State::Switching { .. }, Event::Failed { detail }) => Some(
            finish(Err(ActivationError::Backend { operation: Operation::Switch, detail })),
        ),
        (State::Bootstrapping, Event::Exited { success }) => Some(
            if success {
                activation(request)
            } else {
                discard(request, ActivationError::HookFailure { hook: Hook::Bootstrap })
            },
        ),
        (State::Bootstrapping, Event::SpawnFailed { detail }) => Some(
            discard(request, ActivationError::Spawn { hook: Hook::Bootstrap, detail }),
        ),
        (State::Discarding { cause }, Event::Completed) => Some(finish(Err(cause))),
        (State::Discarding { .. }, Event::Failed { detail }) => Some(
            finish(Err(ActivationError::Filesystem { detail })),
        ),
        (State::Activating, Event::Exited { success }) => Some(
            if success {
                finish(Ok(ActivationOutcome::Success))
            } else {
                failure(request, ActivationError::HookFailure { hook: Hook::Activation })
            },
        ),
        (State::Activating, Event::SpawnFailed { detail }) => Some(
            failure(request, ActivationError::Spawn { hook: Hook::Activation, detail }),
        ),
        (State::RollingBack { cause }, Event::Completed) => Some(
            (State::Listing { cause }, Action::ListGenerations { path: request.profile_path.clone() }),
        ),
        (State::RollingBack { .. }, Event::Failed { detail }) => Some(
            finish(Err(ActivationError::Backend { operation: Operation::Rollback, detail })),
        ),
        (State::Listing { cause }, Event::Listed { output }) => Some(listed(request, cause, output)),
        (State::Listing { .. }, Event::Failed { detail }) => Some(
            finish(Err(ActivationError::Backend { operation: Operation::ListGenerations, detail })),
        ),
        (State::Deleting { cause }, Event::Completed) => Some(deleted(request, cause)),
        (State::Deleting { .. }, Event::Failed { detail }) => Some(
            finish(Err(ActivationError::Backend { operation: Operation::DeleteGeneration, detail })),
        ),
        (State::Reactivating { cause }, Event::Exited { .. }) => Some(
            finish(Ok(ActivationOutcome::RolledBack(cause))),
        ),
        (State::Reactivating { cause }, Event::SpawnFailed { .. }) => Some(
            finish(Ok(ActivationOutcome::RolledBack(cause))),
        ),
        _ => None,
    }
}

} // verus!
