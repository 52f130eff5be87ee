use activate::generation::ParseError;
use activate::outcome::{exit_code, ActivationError, ActivationOutcome, Hook, Operation};
use activate::protocol::{begin, step, Action, Event, State};
use activate::request::ActivationRequest;

/// A host for the tests: it answers each action from what it was told to
/// answer, keeps track of whether the profile path exists, and records what
/// it was asked to do.
struct Host {
    exists: bool,
    set_fails: bool,
    remove_fails: bool,
    rollback_fails: bool,
    list_fails: bool,
    delete_fails: bool,
    spawn_fails: bool,
    listing: Vec<u8>,
    asked: Vec<Action>,
}

fn host(exists: bool) -> Host {
    Host {
        exists,
        set_fails: false,
        remove_fails: false,
        rollback_fails: false,
        list_fails: false,
        delete_fails: false,
        spawn_fails: false,
        listing: Vec::new(),
        asked: Vec::new(),
    }
}

fn done(fails: bool, what: &str) -> Event {
    if fails {
        Event::Failed { detail: what.to_string() }
    } else {
        Event::Completed
    }
}

impl Host {
    fn answer(&mut self, action: &Action) -> Event {
        match action {
            Action::ProbePath { .. } => Event::Probed { existed: self.exists },
            Action::SetProfile { .. } => {
                if !self.set_fails {
                    self.exists = true;
                }
                done(self.set_fails, "set refused")
            }
            Action::RunHook { command, .. } => {
                if self.spawn_fails {
                    Event::SpawnFailed { detail: "no shell".to_string() }
                } else {
                    Event::Exited { success: command == "exit 0" }
                }
            }
            Action::RemovePath { .. } => {
                if !self.remove_fails {
                    self.exists = false;
                }
                done(self.remove_fails, "remove refused")
            }
            Action::Rollback { .. } => done(self.rollback_fails, "rollback refused"),
            Action::ListGenerations { .. } => {
                if self.list_fails {
                    Event::Failed { detail: "list refused".to_string() }
                } else {
                    Event::Listed { output: self.listing.clone() }
                }
            }
            Action::DeleteGeneration { .. } => done(self.delete_fails, "delete refused"),
            Action::Finish => unreachable!(),
        }
    }

    fn run(&mut self, request: &ActivationRequest) -> Result<ActivationOutcome, ActivationError> {
        let (mut state, mut action) = begin(request);
        loop {
            if action == Action::Finish {
                break;
            }
            self.asked.push(action.clone());
            let event = self.answer(&action);
            let (next, then) = step(request, state, event).unwrap();
            state = next;
            action = then;
        }
        assert!(state.is_finished());
        state.into_verdict().unwrap()
    }
}

fn request(
    bootstrap: Option<&str>,
    activate: Option<&str>,
    auto_rollback: bool,
) -> ActivationRequest {
    ActivationRequest::new(
        "/p".to_string(),
        "c1".to_string(),
        bootstrap.map(|c| c.to_string()),
        activate.map(|c| c.to_string()),
        auto_rollback,
    )
}

fn probe() -> Action {
    Action::ProbePath { path: "/p".to_string() }
}

fn set() -> Action {
    Action::SetProfile { path: "/p".to_string(), closure: "c1".to_string() }
}

fn bootstrap_run(command: &str) -> Action {
    Action::RunHook {
        hook: Hook::Bootstrap,
        command: command.to_string(),
        profile: Some("/p".to_string()),
        capture_output: true,
    }
}

fn activation_run(command: &str) -> Action {
    Action::RunHook {
        hook: Hook::Activation,
        command: command.to_string(),
        profile: Some("/p".to_string()),
        capture_output: false,
    }
}

fn second_run(command: &str) -> Action {
    Action::RunHook {
        hook: Hook::Activation,
        command: command.to_string(),
        profile: None,
        capture_output: false,
    }
}

fn rollback() -> Action {
    Action::Rollback { path: "/p".to_string() }
}

fn list() -> Action {
    Action::ListGenerations { path: "/p".to_string() }
}

fn delete(id: &str, entry: &str) -> Action {
    Action::DeleteGeneration { path: "/p".to_string(), id: id.to_string(), entry: entry.to_string() }
}

fn remove() -> Action {
    Action::RemovePath { path: "/p".to_string() }
}

fn activation_failed() -> ActivationError {
    ActivationError::HookFailure { hook: Hook::Activation }
}

#[test]
fn activation_that_succeeds_is_success() {
    let mut h = host(true);
    let verdict = h.run(&request(None, Some("exit 0"), false));
    assert_eq!(verdict, Ok(ActivationOutcome::Success));
    assert_eq!(h.asked, vec![probe(), set(), activation_run("exit 0")]);
    assert_eq!(exit_code(&verdict), 0);
}

#[test]
fn failed_activation_without_rollback_is_failed() {
    let mut h = host(true);
    let verdict = h.run(&request(None, Some("exit 1"), false));
    assert_eq!(verdict, Ok(ActivationOutcome::Failed(activation_failed())));
    assert_eq!(h.asked, vec![probe(), set(), activation_run("exit 1")]);
    assert_ne!(exit_code(&verdict), 0);
    assert_eq!(exit_code(&verdict), 1);
}

#[test]
fn failed_activation_with_rollback_is_rolled_back() {
    let mut h = host(true);
    h.listing = b"41 2023-12-31\n42 2024-01-01".to_vec();
    let verdict = h.run(&request(None, Some("exit 1"), true));
    assert_eq!(verdict, Ok(ActivationOutcome::RolledBack(activation_failed())));
    assert_eq!(
        h.asked,
        vec![
            probe(),
            set(),
            activation_run("exit 1"),
            rollback(),
            list(),
            delete("42", "42 2024-01-01"),
            second_run("exit 1"),
        ]
    );
    assert_eq!(exit_code(&verdict), 1);
}

#[test]
fn failed_bootstrap_removes_the_path_and_stops() {
    let mut h = host(false);
    let verdict = h.run(&request(Some("exit 1"), Some("exit 0"), true));
    assert_eq!(verdict, Err(ActivationError::HookFailure { hook: Hook::Bootstrap }));
    assert_eq!(h.asked, vec![probe(), set(), bootstrap_run("exit 1"), remove()]);
    assert!(!h.exists);
    assert_eq!(exit_code(&verdict), 1);
}

#[test]
fn bootstrap_runs_on_a_new_profile_only() {
    let mut new = host(false);
    let verdict = new.run(&request(Some("exit 0"), Some("exit 0"), false));
    assert_eq!(verdict, Ok(ActivationOutcome::Success));
    assert_eq!(new.asked, vec![probe(), set(), bootstrap_run("exit 0"), activation_run("exit 0")]);

    let mut old = host(true);
    let verdict = old.run(&request(Some("exit 1"), Some("exit 0"), false));
    assert_eq!(verdict, Ok(ActivationOutcome::Success));
    assert_eq!(old.asked, vec![probe(), set(), activation_run("exit 0")]);
}

#[test]
fn no_activation_command_is_success_at_once() {
    let mut h = host(true);
    let verdict = h.run(&request(None, None, true));
    assert_eq!(verdict, Ok(ActivationOutcome::Success));
    assert_eq!(h.asked, vec![probe(), set()]);

    let mut new = host(false);
    let verdict = new.run(&request(Some("exit 0"), None, true));
    assert_eq!(verdict, Ok(ActivationOutcome::Success));
    assert_eq!(new.asked, vec![probe(), set(), bootstrap_run("exit 0")]);
}

#[test]
fn no_activation_command_does_not_hide_a_failed_bootstrap() {
    let mut h = host(false);
    let verdict = h.run(&request(Some("exit 1"), None, false));
    assert_eq!(verdict, Err(ActivationError::HookFailure { hook: Hook::Bootstrap }));
    assert_eq!(h.asked, vec![probe(), set(), bootstrap_run("exit 1"), remove()]);
}

#[test]
fn failed_switch_is_fatal() {
    let mut h = host(false);
    h.set_fails = true;
    let verdict = h.run(&request(Some("exit 0"), Some("exit 0"), true));
    assert_eq!(
        verdict,
        Err(ActivationError::Backend {
            operation: Operation::Switch,
            detail: "set refused".to_string()
        })
    );
    assert_eq!(h.asked, vec![probe(), set()]);
    assert_eq!(exit_code(&verdict), 1);
}

#[test]
fn bootstrap_that_cannot_be_launched_removes_the_path() {
    let mut h = host(false);
    h.spawn_fails = true;
    let verdict = h.run(&request(Some("exit 0"), Some("exit 0"), true));
    assert_eq!(
        verdict,
        Err(ActivationError::Spawn { hook: Hook::Bootstrap, detail: "no shell".to_string() })
    );
    assert_eq!(h.asked, vec![probe(), set(), bootstrap_run("exit 0"), remove()]);
}

#[test]
fn failed_removal_is_reported_in_place_of_the_bootstrap() {
    let mut h = host(false);
    h.remove_fails = true;
    let verdict = h.run(&request(Some("exit 1"), Some("exit 0"), true));
    assert_eq!(verdict, Err(ActivationError::Filesystem { detail: "remove refused".to_string() }));
    assert_eq!(h.asked, vec![probe(), set(), bootstrap_run("exit 1"), remove()]);
}

#[test]
fn activation_that_cannot_be_launched_counts_as_failed() {
    let mut h = host(true);
    h.spawn_fails = true;
    let cause = ActivationError::Spawn { hook: Hook::Activation, detail: "no shell".to_string() };
    let verdict = h.run(&request(None, Some("exit 0"), false));
    assert_eq!(verdict, Ok(ActivationOutcome::Failed(cause.clone())));

    let mut h = host(true);
    h.spawn_fails = true;
    h.listing = b"7 x\n".to_vec();
    let verdict = h.run(&request(None, Some("exit 0"), true));
    assert_eq!(verdict, Ok(ActivationOutcome::RolledBack(cause)));
    assert_eq!(
        h.asked,
        vec![
            probe(),
            set(),
            activation_run("exit 0"),
            rollback(),
            list(),
            delete("7", "7 x"),
            second_run("exit 0"),
        ]
    );
}

#[test]
fn failed_rollback_is_fatal() {
    let mut h = host(true);
    h.rollback_fails = true;
    let verdict = h.run(&request(None, Some("exit 1"), true));
    assert_eq!(
        verdict,
        Err(ActivationError::Backend {
            operation: Operation::Rollback,
            detail: "rollback refused".to_string()
        })
    );
    assert_eq!(h.asked, vec![probe(), set(), activation_run("exit 1"), rollback()]);
}

#[test]
fn failed_listing_is_fatal() {
    let mut h = host(true);
    h.list_fails = true;
    let verdict = h.run(&request(None, Some("exit 1"), true));
    assert_eq!(
        verdict,
        Err(ActivationError::Backend {
            operation: Operation::ListGenerations,
            detail: "list refused".to_string()
        })
    );
    assert_eq!(h.asked, vec![probe(), set(), activation_run("exit 1"), rollback(), list()]);
}

#[test]
fn failed_deletion_is_fatal() {
    let mut h = host(true);
    h.delete_fails = true;
    h.listing = b"3 a\n4 b\n".to_vec();
    let verdict = h.run(&request(None, Some("exit 1"), true));
    assert_eq!(
        verdict,
        Err(ActivationError::Backend {
            operation: Operation::DeleteGeneration,
            detail: "delete refused".to_string()
        })
    );
    assert_eq!(
        h.asked,
        vec![probe(), set(), activation_run("exit 1"), rollback(), list(), delete("4", "4 b")]
    );
}

#[test]
fn listing_without_a_generation_is_fatal() {
    let mut h = host(true);
    let verdict = h.run(&request(None, Some("exit 1"), true));
    assert_eq!(verdict, Err(ActivationError::Parse { cause: ParseError::NoGeneration }));
    assert_eq!(h.asked, vec![probe(), set(), activation_run("exit 1"), rollback(), list()]);
}

#[test]
fn listing_without_an_identifier_is_fatal() {
    let mut h = host(true);
    h.listing = b"41 x\n   \n".to_vec();
    let verdict = h.run(&request(None, Some("exit 1"), true));
    assert_eq!(verdict, Err(ActivationError::Parse { cause: ParseError::NoIdentifier }));
    assert_eq!(h.asked, vec![probe(), set(), activation_run("exit 1"), rollback(), list()]);
}

#[test]
fn listing_that_is_not_text_is_fatal() {
    let mut h = host(true);
    h.listing = vec![b'4', b'2', 0xff, b'\n'];
    let verdict = h.run(&request(None, Some("exit 1"), true));
    assert_eq!(verdict, Err(ActivationError::Parse { cause: ParseError::NotText }));
}

#[test]
fn second_run_is_not_looked_at() {
    let r = request(None, Some("exit 1"), true);
    let waiting = || State::Reactivating { cause: activation_failed() };
    let over = || {
        Some((
            State::Finished { verdict: Ok(ActivationOutcome::RolledBack(activation_failed())) },
            Action::Finish,
        ))
    };
    assert_eq!(step(&r, waiting(), Event::Exited { success: true }), over());
    assert_eq!(step(&r, waiting(), Event::Exited { success: false }), over());
    assert_eq!(step(&r, waiting(), Event::SpawnFailed { detail: "gone".to_string() }), over());
}

#[test]
fn probe_comes_before_the_switch() {
    let r = request(Some("exit 0"), Some("exit 0"), false);
    let (state, action) = begin(&r);
    assert_eq!(state, State::Probing);
    assert_eq!(action, probe());
    let (state, action) = step(&r, state, Event::Probed { existed: false }).unwrap();
    assert_eq!(state, State::Switching { existed: false });
    assert_eq!(action, set());
    let (state, action) = step(&r, state, Event::Completed).unwrap();
    assert_eq!(state, State::Bootstrapping);
    assert_eq!(action, bootstrap_run("exit 0"));
}

#[test]
fn event_that_is_not_awaited_is_refused() {
    let r = request(None, Some("exit 0"), true);
    assert_eq!(step(&r, State::Probing, Event::Completed), None);
    assert_eq!(step(&r, State::Switching { existed: true }, Event::Exited { success: true }), None);
    assert_eq!(step(&r, State::Activating, Event::Completed), None);
    assert_eq!(step(&r, State::Bootstrapping, Event::Listed { output: Vec::new() }), None);
    assert_eq!(
        step(&r, State::Listing { cause: activation_failed() }, Event::Completed),
        None
    );
    assert_eq!(
        step(&r, State::Deleting { cause: activation_failed() }, Event::Probed { existed: true }),
        None
    );
}

#[test]
fn finished_attempt_takes_no_event() {
    let r = request(None, None, false);
    let over = || State::Finished { verdict: Ok(ActivationOutcome::Success) };
    assert_eq!(step(&r, over(), Event::Completed), None);
    assert_eq!(step(&r, over(), Event::Probed { existed: true }), None);
    assert_eq!(step(&r, over(), Event::Exited { success: true }), None);
    assert_eq!(step(&r, over(), Event::Failed { detail: String::new() }), None);
    assert_eq!(step(&r, over(), Event::SpawnFailed { detail: String::new() }), None);
    assert_eq!(step(&r, over(), Event::Listed { output: Vec::new() }), None);
    assert!(over().is_finished());
    assert!(!State::Probing.is_finished());
    assert_eq!(State::Activating.into_verdict(), None);
    assert_eq!(over().into_verdict(), Some(Ok(ActivationOutcome::Success)));
}

#[test]
fn exit_code_is_zero_for_success_alone() {
    assert_eq!(exit_code(&Ok(ActivationOutcome::Success)), 0);
    assert_eq!(exit_code(&Ok(ActivationOutcome::Failed(activation_failed()))), 1);
    assert_eq!(exit_code(&Ok(ActivationOutcome::RolledBack(activation_failed()))), 1);
    assert_eq!(exit_code(&Err(activation_failed())), 1);
    assert_eq!(exit_code(&Err(ActivationError::Parse { cause: ParseError::NoGeneration })), 1);
}
