use activate::generation::ParseError;
use activate::notice::{notices, Level, Notice};
use activate::outcome::{ActivationError, Hook, Operation};
use activate::protocol::Action;

fn notice(level: Level, text: &str) -> Notice {
    Notice { level, text: text.to_string() }
}

#[test]
fn start_is_announced() {
    assert_eq!(
        notices(&Action::ProbePath { path: "/p".to_string() }),
        vec![notice(Level::Info, "Activating profile")]
    );
}

#[test]
fn deletion_is_announced_with_entry_and_identifier() {
    let action = Action::DeleteGeneration {
        path: "/p".to_string(),
        id: "42".to_string(),
        entry: "42 2024-01-01".to_string(),
    };
    assert_eq!(
        notices(&action),
        vec![
            notice(Level::Info, "Removing generation entry 42 2024-01-01"),
            notice(Level::Warning, "Removing generation by ID 42"),
        ]
    );
}

#[test]
fn other_actions_are_not_announced() {
    let path = || "/p".to_string();
    assert_eq!(notices(&Action::SetProfile { path: path(), closure: "c".to_string() }), vec![]);
    assert_eq!(notices(&Action::RemovePath { path: path() }), vec![]);
    assert_eq!(notices(&Action::Rollback { path: path() }), vec![]);
    assert_eq!(notices(&Action::ListGenerations { path: path() }), vec![]);
    assert_eq!(notices(&Action::Finish), vec![]);
    assert_eq!(
        notices(&Action::RunHook {
            hook: Hook::Activation,
            command: "exit 0".to_string(),
            profile: None,
            capture_output: false,
        }),
        vec![]
    );
}

#[test]
fn names_of_hooks_and_operations() {
    assert_eq!(Hook::Bootstrap.name(), "bootstrap");
    assert_eq!(Hook::Activation.name(), "activation");
    assert_eq!(Operation::Switch.name(), "set the profile");
    assert_eq!(Operation::Rollback.name(), "roll back the profile");
    assert_eq!(Operation::ListGenerations.name(), "list the generations");
    assert_eq!(Operation::DeleteGeneration.name(), "delete the generation");
}

#[test]
fn messages_of_errors() {
    assert_eq!(
        ActivationError::HookFailure { hook: Hook::Bootstrap }.message(),
        "Failed to execute bootstrap command"
    );
    assert_eq!(
        ActivationError::HookFailure { hook: Hook::Activation }.message(),
        "Failed to execute activation command"
    );
    assert_eq!(
        ActivationError::Spawn { hook: Hook::Activation, detail: "no shell".to_string() }.message(),
        "Failed to execute activation command: no shell"
    );
    assert_eq!(
        ActivationError::Backend { operation: Operation::Rollback, detail: "gone".to_string() }
            .message(),
        "Failed to roll back the profile: gone"
    );
    assert_eq!(
        ActivationError::Backend { operation: Operation::Switch, detail: "gone".to_string() }
            .message(),
        "Failed to set the profile: gone"
    );
    assert_eq!(
        ActivationError::Filesystem { detail: "busy".to_string() }.message(),
        "Failed to remove the profile path: busy"
    );
    assert_eq!(
        ActivationError::Parse { cause: ParseError::NotText }.message(),
        "Expected the generation list to be text"
    );
    assert_eq!(
        ActivationError::Parse { cause: ParseError::NoGeneration }.message(),
        "Expected to find a generation in list"
    );
    assert_eq!(
        ActivationError::Parse { cause: ParseError::NoIdentifier }.message(),
        "Expected to get ID from generation entry"
    );
}
