//! Whole runs of the protocol, and what holds of every one of them.
//!
//! A run is what the machine does when a driver reports one event after
//! another: the actions it names, in their order, and the state it ends in.

use crate::generation::superseded_of;
use crate::outcome::{ErrorView, Hook, OutcomeView};
use crate::protocol::{next_of, start_of, ActionView, EventView, StateView};
use crate::request::RequestView;
use vstd::prelude::*;

verus! {

/// What a run has come to: the state it is in and the actions it has named
/// so far, the first one first.
pub struct Trace {
    pub state: StateView,
    pub actions: Seq<ActionView>,
}

/// The run of an attempt on `request` in which the driver reports `events`
/// in turn. It is `None` where one of the events is not what the machine
/// waits for.
pub open spec fn run_of(request: RequestView, events: Seq<EventView>) -> Option<Trace>
    decreases events.len(),
{
    if events.len() == 0 {
        let (state, action) = start_of(request);
        Some(Trace { state, actions: seq![action] })
    } else {
        match run_of(request, events.drop_last()) {
            None => None,
            Some(before) => match next_of(request, before.state, events.last()) {
                None => None,
                Some((state, action)) => Some(Trace { state, actions: before.actions.push(action) }),
            },
        }
    }
}

/// Whether `action` runs the bootstrap hook.
pub open spec fn runs_bootstrap(action: ActionView) -> bool {
    action matches ActionView::RunHook { hook: Hook::Bootstrap, .. }
}

/// Whether `action` runs the activation hook.
pub open spec fn runs_activation(action: ActionView) -> bool {
    action matches ActionView::RunHook { hook: Hook::Activation, .. }
}

/// Whether `action` belongs to a rollback: the backend is told to roll
/// back, to list the generations or to delete one.
pub open spec fn rolls_back(action: ActionView) -> bool {
    action is Rollback || action is ListGenerations || action is DeleteGeneration
}

/// Whether `event` reports that a hook failed: it ran and reported failure,
/// or it could not be launched.
pub open spec fn hook_failed(event: EventView) -> bool {
    event == (EventView::Exited { success: false }) || event is SpawnFailed
}

/// Whether `event` reports on a hook at all.
pub open spec fn hook_reported(event: EventView) -> bool {
    event is Exited || event is SpawnFailed
}

/// The error that the failure `event` of `hook` stands for.
pub open spec fn hook_error(hook: Hook, event: EventView) -> ErrorView {
    match event {
        EventView::SpawnFailed { detail } => ErrorView::Spawn { hook, detail },
        _ => ErrorView::HookFailure { hook },
    }
}

/// Whether `event` is an answer to `action`: what a driver may report after
/// performing it.
pub open spec fn answers(action: ActionView, event: EventView) -> bool {
    match action {
        ActionView::ProbePath { .. } => event is Probed,
        ActionView::SetProfile { .. } => event is Completed || event is Failed,
        ActionView::RunHook { .. } => event is Exited || event is SpawnFailed,
        ActionView::RemovePath { .. } => event is Completed || event is Failed,
        ActionView::Rollback { .. } => event is Completed || event is Failed,
        ActionView::ListGenerations { .. } => event is Listed || event is Failed,
        ActionView::DeleteGeneration { .. } => event is Completed || event is Failed,
        ActionView::Finish => false,
    }
}

/// How many steps an attempt in `state` can still take at most.
pub open spec fn steps_left(state: StateView) -> nat {
    match state {
        StateView::Probing => 8,
        StateView::Switching { .. } => 7,
        StateView::Bootstrapping => 6,
        StateView::Discarding { .. } => 1,
        StateView::Activating => 5,
        StateView::RollingBack { .. } => 4,
        StateView::Listing { .. } => 3,
        StateView::Deleting { .. } => 2,
        StateView::Reactivating { .. } => 1,
        StateView::Finished { .. } => 0,
    }
}

/// The machine waits for exactly the answers to the action that it named
/// last, and it names `Finish` exactly when it has finished. So a driver
/// that answers each action is never turned away, and one that stops at
/// `Finish` finds the verdict.
pub proof fn law_answers_are_taken(
    request: RequestView,
    state: StateView,
    event: EventView,
    reply: EventView,
)
    requires
        next_of(request, state, event) is Some,
    ensures
        ({
            let (state2, action) = next_of(request, state, event)->0;
            &&& next_of(request, state2, reply) is Some <==> answers(action, reply)
            &&& action is Finish <==> state2 is Finished
        }),
        next_of(request, start_of(request).0, reply) is Some <==> answers(
            start_of(request).1,
            reply,
        ),
{
}

/// Every step brings the end nearer: no attempt takes more than eight
/// steps.
pub proof fn law_steps_are_counted(request: RequestView, state: StateView, event: EventView)
    requires
        next_of(request, state, event) is Some,
    ensures
        ({
            let (state2, _) = next_of(request, state, event)->0;
            steps_left(state2) < steps_left(state)
        }),
{
}

/// A run is as long as its events say: it has named one action more than
/// it has taken events, and it is over after eight events at most.
pub proof fn law_run_is_bounded(request: RequestView, events: Seq<EventView>)
    requires
        run_of(request, events) is Some,
    ensures
        run_of(request, events)->0.actions.len() == events.len() + 1,
        events.len() + steps_left(run_of(request, events)->0.state) <= 8,
    decreases events.len(),
{
    if events.len() > 0 {
        law_run_is_bounded(request, events.drop_last());
    }
}

/// The first thing a run does is to look whether the profile path exists,
/// and the switch of the profile is the second: the path is looked for
/// before anything can have made it.
pub proof fn law_probe_comes_first(request: RequestView, events: Seq<EventView>)
    requires
        run_of(request, events) is Some,
    ensures
        ({
            let actions = run_of(request, events)->0.actions;
            &&& actions[0] == (ActionView::ProbePath { path: request.profile_path })
            &&& forall|i: int|
                0 <= i < actions.len() && (#[trigger] actions[i]) is SetProfile ==> i == 1
            &&& forall|i: int|
                0 <= i < actions.len() && (#[trigger] actions[i]) is ProbePath ==> i == 0
        }),
    decreases events.len(),
{
    if events.len() > 0 {
        law_run_is_bounded(request, events.drop_last());
        law_probe_comes_first(request, events.drop_last());
    }
}

/// The bootstrap is skipped where the request has no bootstrap command,
/// and where the profile path was there before the switch, whatever the
/// command holds: such a run never runs the bootstrap hook and never
/// removes the profile path.
pub proof fn law_bootstrap_is_skipped(request: RequestView, events: Seq<EventView>)
    requires
        run_of(request, events) is Some,
        request.bootstrap_command is None || (events.len() > 0 && events[0] == (
            EventView::Probed { existed: true }
        )),
    ensures
        ({
            let run = run_of(request, events)->0;
            &&& forall|i: int|
                0 <= i < run.actions.len() ==> !runs_bootstrap(#[trigger] run.actions[i])
                    && !(run.actions[i] is RemovePath)
            &&& !(run.state is Bootstrapping)
            &&& !(run.state is Discarding)
            &&& run.state matches StateView::Switching { existed } ==> existed
                || request.bootstrap_command is None
        }),
    decreases events.len(),
{
    if events.len() > 1 {
        let before = events.drop_last();
        assert(before[0] == events[0]);
        law_bootstrap_is_skipped(request, before);
    } else if events.len() == 1 {
        assert(events.drop_last().len() == 0);
        assert(events.last() == events[0]);
        if request.bootstrap_command is None {
            law_bootstrap_is_skipped(request, events.drop_last());
        }
    }
}

/// The bootstrap hook is run exactly on a profile that is new: where the
/// request has a bootstrap command and the path was not there before the
/// switch, the switch is followed by that command, with `PROFILE` set to the
/// profile path and its output kept from the operator.
pub proof fn law_bootstrap_is_run(request: RequestView)
    requires
        request.bootstrap_command is Some,
    ensures
        run_of(request, seq![EventView::Probed { existed: false }, EventView::Completed]) == Some(
            Trace {
                state: StateView::Bootstrapping,
                actions: seq![
                    ActionView::ProbePath { path: request.profile_path },
                    ActionView::SetProfile { path: request.profile_path, closure: request.closure },
                    ActionView::RunHook {
                        hook: Hook::Bootstrap,
                        command: request.bootstrap_command->0,
                        profile: Some(request.profile_path),
                        capture_output: true,
                    },
                ],
            },
        ),
{
    let first = seq![EventView::Probed { existed: false }];
    let both = seq![EventView::Probed { existed: false }, EventView::Completed];
    assert(first.drop_last() =~= Seq::<EventView>::empty());
    assert(both.drop_last() =~= first);
    assert(run_of(request, Seq::<EventView>::empty()) is Some);
    assert(run_of(request, first) is Some);
    assert(run_of(request, both)->0.actions =~= seq![
        ActionView::ProbePath { path: request.profile_path },
        ActionView::SetProfile { path: request.profile_path, closure: request.closure },
        ActionView::RunHook {
            hook: Hook::Bootstrap,
            command: request.bootstrap_command->0,
            profile: Some(request.profile_path),
            capture_output: true,
        },
    ]);
}

/// One event more takes a run one step on.
pub proof fn lemma_run_push(request: RequestView, events: Seq<EventView>, event: EventView)
    ensures
        run_of(request, events.push(event)) == match run_of(request, events) {
            None => None,
            Some(before) => match next_of(request, before.state, event) {
                None => None,
                Some((state, action)) => Some(Trace { state, actions: before.actions.push(action) }),
            },
        },
{
    assert(events.push(event).drop_last() =~= events);
    assert(events.push(event).last() == event);
}

/// A run that goes on has gone through each of its beginnings.
pub proof fn lemma_run_prefix(request: RequestView, events: Seq<EventView>, k: int)
    requires
        run_of(request, events) is Some,
        0 <= k <= events.len(),
    ensures
        run_of(request, events.take(k)) is Some,
    decreases events.len() - k,
{
    if k < events.len() {
        assert(events.drop_last().take(k) =~= events.take(k));
        lemma_run_prefix(request, events.drop_last(), k);
    } else {
        assert(events.take(k) =~= events);
    }
}

/// A request without an activation command never has the activation hook
/// run and never has the backend roll back, and where its attempt runs to
/// an outcome, the outcome is success.
pub proof fn law_nothing_to_activate(request: RequestView, events: Seq<EventView>)
    requires
        run_of(request, events) is Some,
        request.activation_command is None,
    ensures
        ({
            let run = run_of(request, events)->0;
            &&& forall|i: int|
                0 <= i < run.actions.len() ==> !runs_activation(#[trigger] run.actions[i])
                    && !rolls_back(run.actions[i])
            &&& run.state is Probing || run.state is Switching || run.state is Bootstrapping
                || run.state is Discarding || run.state is Finished
            &&& run.state matches StateView::Finished { verdict: Ok(outcome) } ==> outcome
                == OutcomeView::Success
        }),
    decreases events.len(),
{
    if events.len() > 0 {
        law_nothing_to_activate(request, events.drop_last());
    }
}

/// Without an activation command the attempt has succeeded as soon as the
/// profile is switched, where no bootstrap is due, and else as soon as the
/// bootstrap has succeeded.
pub proof fn law_success_without_activation(request: RequestView, existed: bool)
    requires
        request.activation_command is None,
    ensures
        request.bootstrap_command is None || existed ==> run_of(
            request,
            seq![EventView::Probed { existed }, EventView::Completed],
        ) == Some(
            Trace {
                state: StateView::Finished { verdict: Ok(OutcomeView::Success) },
                actions: seq![
                    ActionView::ProbePath { path: request.profile_path },
                    ActionView::SetProfile { path: request.profile_path, closure: request.closure },
                    ActionView::Finish,
                ],
            },
        ),
        request.bootstrap_command is Some && !existed ==> run_of(
            request,
            seq![
                EventView::Probed { existed },
                EventView::Completed,
                EventView::Exited { success: true },
            ],
        ) == Some(
            Trace {
                state: StateView::Finished { verdict: Ok(OutcomeView::Success) },
                actions: seq![
                    ActionView::ProbePath { path: request.profile_path },
                    ActionView::SetProfile { path: request.profile_path, closure: request.closure },
                    ActionView::RunHook {
                        hook: Hook::Bootstrap,
                        command: request.bootstrap_command->0,
                        profile: Some(request.profile_path),
                        capture_output: true,
                    },
                    ActionView::Finish,
                ],
            },
        ),
{
    let none = Seq::<EventView>::empty();
    let probed = EventView::Probed { existed };
    lemma_run_push(request, none, probed);
    lemma_run_push(request, none.push(probed), EventView::Completed);
    let two = seq![probed, EventView::Completed];
    assert(two =~= none.push(probed).push(EventView::Completed));
    if request.bootstrap_command is None || existed {
        assert(run_of(request, two)->0.actions =~= seq![
            ActionView::ProbePath { path: request.profile_path },
            ActionView::SetProfile { path: request.profile_path, closure: request.closure },
            ActionView::Finish,
        ]);
    } else {
        let three = seq![probed, EventView::Completed, EventView::Exited { success: true }];
        lemma_run_push(request, two, EventView::Exited { success: true });
        assert(three =~= two.push(EventView::Exited { success: true }));
        assert(run_of(request, three)->0.actions =~= seq![
            ActionView::ProbePath { path: request.profile_path },
            ActionView::SetProfile { path: request.profile_path, closure: request.closure },
            ActionView::RunHook {
                hook: Hook::Bootstrap,
                command: request.bootstrap_command->0,
                profile: Some(request.profile_path),
                capture_output: true,
            },
            ActionView::Finish,
        ]);
    }
}

/// Where the request does not ask for a rollback, none happens: the backend
/// is never told to roll back, to list or to delete, the activation hook is
/// never run a second time, and no attempt ends as rolled back.
pub proof fn law_no_rollback_unasked(request: RequestView, events: Seq<EventView>)
    requires
        run_of(request, events) is Some,
        !request.auto_rollback,
    ensures
        ({
            let run = run_of(request, events)->0;
            &&& forall|i: int|
                0 <= i < run.actions.len() ==> !rolls_back(#[trigger] run.actions[i])
            &&& forall|i: int|
                0 <= i < run.actions.len() ==> (#[trigger] run.actions[i] matches ActionView::RunHook {
                    profile,
                    ..
                } ==> profile is Some)
            &&& !(run.state is RollingBack) && !(run.state is Listing) && !(run.state is Deleting)
                && !(run.state is Reactivating)
            &&& run.state matches StateView::Finished { verdict: Ok(outcome) } ==> !(outcome
                is RolledBack)
        }),
    decreases events.len(),
{
    if events.len() > 0 {
        law_no_rollback_unasked(request, events.drop_last());
    }
}

/// Where the request does not ask for a rollback, a failed activation is
/// the end: the attempt has failed, for the reason that the hook gave.
pub proof fn law_failure_stands(request: RequestView, events: Seq<EventView>, failure: EventView)
    requires
        run_of(request, events) is Some,
        run_of(request, events)->0.state is Activating,
        hook_failed(failure),
        !request.auto_rollback,
    ensures
        run_of(request, events.push(failure)) == Some(
            Trace {
                state: StateView::Finished {
                    verdict: Ok(OutcomeView::Failed(hook_error(Hook::Activation, failure))),
                },
                actions: run_of(request, events)->0.actions.push(ActionView::Finish),
            },
        ),
{
    lemma_run_push(request, events, failure);
}

/// Up to the activation nothing of a rollback has happened: the backend
/// has not been told to roll back, to list or to delete, and the activation
/// hook has been run once if the attempt waits for it, and not at all
/// before. An attempt that waits for the activation hook has a command for
/// it.
pub proof fn law_activation_comes_once(request: RequestView, events: Seq<EventView>)
    requires
        run_of(request, events) is Some,
        ({
            let state = run_of(request, events)->0.state;
            state is Probing || state is Switching || state is Bootstrapping || state is Discarding
                || state is Activating
        }),
    ensures
        ({
            let run = run_of(request, events)->0;
            &&& forall|i: int|
                0 <= i < run.actions.len() ==> !rolls_back(#[trigger] run.actions[i])
            &&& forall|i: int|
                0 <= i < run.actions.len() && runs_activation(#[trigger] run.actions[i]) ==> i
                    == run.actions.len() - 1 && run.state is Activating
            &&& run.state is Activating ==> request.activation_command is Some
        }),
    decreases events.len(),
{
    if events.len() > 0 {
        law_activation_comes_once(request, events.drop_last());
    }
}

/// Where the request asks for a rollback, a failed activation is followed
/// by one rollback, one listing of the generations, one deletion, of the
/// generation that the last line of the listing names by its first token,
/// and one more run of the activation command, without `PROFILE`, in this
/// order whatever that last run reports. The attempt then ends as rolled
/// back, for the reason that the failed hook gave. Nothing of this has
/// happened before the failure.
pub proof fn law_rollback_in_order(
    request: RequestView,
    events: Seq<EventView>,
    failure: EventView,
    listing: Seq<u8>,
    report: EventView,
)
    requires
        run_of(request, events) is Some,
        run_of(request, events)->0.state is Activating,
        request.auto_rollback,
        hook_failed(failure),
        superseded_of(listing) is Ok,
        hook_reported(report),
    ensures
        request.activation_command is Some,
        forall|i: int|
            0 <= i < run_of(request, events)->0.actions.len() ==> !rolls_back(
                #[trigger] run_of(request, events)->0.actions[i],
            ),
        run_of(
            request,
            events + seq![
                failure,
                EventView::Completed,
                EventView::Listed { output: listing },
                EventView::Completed,
                report,
            ],
        ) == Some(
            Trace {
                state: StateView::Finished {
                    verdict: Ok(OutcomeView::RolledBack(hook_error(Hook::Activation, failure))),
                },
                actions: run_of(request, events)->0.actions + seq![
                    ActionView::Rollback { path: request.profile_path },
                    ActionView::ListGenerations { path: request.profile_path },
                    ActionView::DeleteGeneration {
                        path: request.profile_path,
                        id: superseded_of(listing)->Ok_0.id,
                        entry: superseded_of(listing)->Ok_0.entry,
                    },
                    ActionView::RunHook {
                        hook: Hook::Activation,
                        command: request.activation_command->0,
                        profile: None,
                        capture_output: false,
                    },
                    ActionView::Finish,
                ],
            },
        ),
{
    law_activation_comes_once(request, events);
    let listed = EventView::Listed { output: listing };
    let e1 = events.push(failure);
    let e2 = e1.push(EventView::Completed);
    let e3 = e2.push(listed);
    let e4 = e3.push(EventView::Completed);
    let e5 = e4.push(report);
    lemma_run_push(request, events, failure);
    lemma_run_push(request, e1, EventView::Completed);
    lemma_run_push(request, e2, listed);
    lemma_run_push(request, e3, EventView::Completed);
    lemma_run_push(request, e4, report);
    assert(e5 =~= events + seq![failure, EventView::Completed, listed, EventView::Completed, report]);
    assert(run_of(request, e5)->0.actions =~= run_of(request, events)->0.actions + seq![
        ActionView::Rollback { path: request.profile_path },
        ActionView::ListGenerations { path: request.profile_path },
        ActionView::DeleteGeneration {
            path: request.profile_path,
            id: superseded_of(listing)->Ok_0.id,
            entry: superseded_of(listing)->Ok_0.entry,
        },
        ActionView::RunHook {
            hook: Hook::Activation,
            command: request.activation_command->0,
            profile: None,
            capture_output: false,
        },
        ActionView::Finish,
    ]);
}

/// A rollback that cannot be carried through stops the attempt with the
/// error of the step that failed, and no further step is taken: neither a
/// deletion after a listing that names no generation, nor a second run of
/// the activation hook after a deletion that failed.
pub proof fn law_rollback_stops_on_error(
    request: RequestView,
    state: StateView,
    event: EventView,
)
    requires
        state is RollingBack || state is Listing || state is Deleting,
        event is Failed || (event matches EventView::Listed { output } && superseded_of(output)
            is Err),
        next_of(request, state, event) is Some,
    ensures
        ({
            let (state2, action) = next_of(request, state, event)->0;
            &&& action is Finish
            &&& state2 matches StateView::Finished { verdict: Err(error) } && (error is Backend
                || error is Parse)
        }),
{
}

/// A failed bootstrap has the profile path removed.
pub proof fn law_bootstrap_failure_removes(
    request: RequestView,
    events: Seq<EventView>,
    failure: EventView,
)
    requires
        run_of(request, events) is Some,
        run_of(request, events)->0.state is Bootstrapping,
        hook_failed(failure),
    ensures
        run_of(request, events.push(failure)) == Some(
            Trace {
                state: StateView::Discarding { cause: hook_error(Hook::Bootstrap, failure) },
                actions: run_of(request, events)->0.actions.push(
                    ActionView::RemovePath { path: request.profile_path },
                ),
            },
        ),
{
    lemma_run_push(request, events, failure);
}

/// After a failed bootstrap nothing follows but the removal of the profile
/// path and the end: the backend is never told to roll back, to list or to
/// delete, the activation hook is never run, and the attempt ends with an
/// error, that of the bootstrap or, where the removal failed, that of the
/// removal. Here the bootstrap fails with the event at `k`.
pub proof fn law_bootstrap_failure_is_final(
    request: RequestView,
    events: Seq<EventView>,
    k: int,
)
    requires
        run_of(request, events) is Some,
        0 <= k < events.len(),
        run_of(request, events.take(k))->0.state is Bootstrapping,
        hook_failed(events[k]),
    ensures
        events.len() <= k + 2,
        ({
            let run = run_of(request, events)->0;
            let cause = hook_error(Hook::Bootstrap, events[k]);
            &&& forall|i: int|
                0 <= i < run.actions.len() ==> !rolls_back(#[trigger] run.actions[i])
                    && !runs_activation(run.actions[i])
            &&& events.len() == k + 1 ==> run.state == (StateView::Discarding { cause })
                && run.actions.last() == (ActionView::RemovePath { path: request.profile_path })
            &&& events.len() == k + 2 ==> run.actions.last() is Finish && (run.state == (
                StateView::Finished { verdict: Err(cause) }
            ) || run.state matches StateView::Finished {
                verdict: Err(ErrorView::Filesystem { .. }),
            })
        }),
    decreases events.len(),
{
    let before = events.drop_last();
    lemma_run_prefix(request, events, k);
    if events.len() == k + 1 {
        assert(before =~= events.take(k));
        assert(events.last() == events[k]);
        law_activation_comes_once(request, before);
    } else {
        assert(before.take(k) =~= events.take(k));
        assert(before[k] == events[k]);
        law_bootstrap_failure_is_final(request, before, k);
    }
}

/// Whether `error` is the failure of `hook`: the hook reported failure or
/// could not be launched.
pub open spec fn failure_of_hook(hook: Hook, error: ErrorView) -> bool {
    match error {
        ErrorView::HookFailure { hook: failed } => failed == hook,
        ErrorView::Spawn { hook: failed, .. } => failed == hook,
        _ => false,
    }
}

/// Which failure leads where. Only a failure of the activation hook makes
/// an attempt end as failed or as rolled back, the one without and the other
/// with a rollback asked for. A failure of the bootstrap hook, like every
/// failure of the backend, of the removal of the path and of the reading of
/// the listing, stops the attempt with an error.
pub proof fn law_causes(request: RequestView, events: Seq<EventView>)
    requires
        run_of(request, events) is Some,
    ensures
        match run_of(request, events)->0.state {
            StateView::Discarding { cause } => failure_of_hook(Hook::Bootstrap, cause),
            StateView::RollingBack { cause }
            | StateView::Listing { cause }
            | StateView::Deleting { cause }
            | StateView::Reactivating { cause } => request.auto_rollback && failure_of_hook(
                Hook::Activation,
                cause,
            ),
            StateView::Finished { verdict: Ok(OutcomeView::Failed(cause)) } => !request.auto_rollback
                && failure_of_hook(Hook::Activation, cause),
            StateView::Finished { verdict: Ok(OutcomeView::RolledBack(cause)) } => request.auto_rollback
                && failure_of_hook(Hook::Activation, cause),
            StateView::Finished { verdict: Err(error) } => error is Backend || error is Parse
                || error is Filesystem || failure_of_hook(Hook::Bootstrap, error),
            _ => true,
        },
    decreases events.len(),
{
    if events.len() > 0 {
        law_causes(request, events.drop_last());
    }
}

} // verus!
