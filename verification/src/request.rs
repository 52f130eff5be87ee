//! What one activation attempt is asked to do.

use vstd::prelude::*;

verus! {

/// The input of one activation attempt. Nothing in it changes while the
/// attempt runs.
#[derive(Clone, Debug, PartialEq, Eq)]
pub struct ActivationRequest {
    /// Where the named profile lives in the file system.
    pub profile_path: String,
    /// The content that the profile is to point at.
    pub closure: String,
    /// Shell command run once, when the profile is first created.
    pub bootstrap_command: Option<String>,
    /// Shell command run at every activation.
    pub activation_command: Option<String>,
    /// Whether a failed activation is answered by a rollback.
    pub auto_rollback: bool,
}

/// A request as characters.
pub struct RequestView {
    pub profile_path: Seq<char>,
    pub closure: Seq<char>,
    pub bootstrap_command: Option<Seq<char>>,
    pub activation_command: Option<Seq<char>>,
    pub auto_rollback: bool,
}

/// The characters of an optional command.
pub open spec fn command_view(command: Option<String>) -> Option<Seq<char>> {
    match command {
        Some(c) => Some(c@),
        None => None,
    }
}

impl View for ActivationRequest {
    type V = RequestView;

    open spec fn view(&self) -> RequestView {
        RequestView {
            profile_path: self.profile_path@,
            closure: self.closure@,
            bootstrap_command: command_view(self.bootstrap_command),
            activation_command: command_view(self.activation_command),
            auto_rollback: self.auto_rollback,
        }
    }
}

impl ActivationRequest {
    /// A request from its five parts.
    pub fn new(
        profile_path: String,
        closure: String,
        bootstrap_command: Option<String>,
        activation_command: Option<String>,
        auto_rollback: bool,
    ) -> (request: ActivationRequest)
        ensures
            request.profile_path == profile_path,
            request.closure == closure,
            request.bootstrap_command == bootstrap_command,
            request.activation_command == activation_command,
            request.auto_rollback == auto_rollback,
    {
        ActivationRequest {
            profile_path,
            closure,
            bootstrap_command,
            activation_command,
            auto_rollback,
        }
    }
}

} // verus!
