//! What the operator is told while an attempt runs.

use crate::protocol::{Action, ActionView};
use vstd::prelude::*;
use vstd::string::*;

verus! {

/// How much a notice weighs.
#[derive(Clone, Copy, Debug, PartialEq, Eq, Structural)]
pub enum Level {
    /// For the record.
    Info,
    /// Something was given up.
    Warning,
}

/// One line for the operator.
#[derive(Clone, Debug, PartialEq, Eq)]
pub struct Notice {
    pub level: Level,
    pub text: String,
}

/// A notice as characters.
pub struct NoticeView {
    pub level: Level,
    pub text: Seq<char>,
}

impl View for Notice {
    type V = NoticeView;

    open spec fn view(&self) -> NoticeView {
        NoticeView { level: self.level, text: self.text@ }
    }
}

/// The notices that go before `action`. The attempt is announced when it
/// starts. Before a generation is deleted the operator learns which: the
/// whole entry of the listing for the record, and the identifier as a
/// warning. Nothing else is announced.
pub open spec fn notices_of(action: ActionView) -> Seq<NoticeView> {
    match action {
        ActionView::ProbePath { .. } => seq![
            NoticeView { level: Level::Info, text: "Activating profile"@ },
        ],
        ActionView::DeleteGeneration { id, entry, .. } => seq![
            NoticeView { level: Level::Info, text: "Removing generation entry "@ + entry },
            NoticeView { level: Level::Warning, text: "Removing generation by ID "@ + id },
        ],
        _ => Seq::empty(),
    }
}

/// The notices that the driver gives the operator before it performs
/// `action`, in their order.
pub fn notices(action: &Action) -> (lines: Vec<Notice>)
    ensures
        lines@.map_values(|n: Notice| n@) == notices_of(action@),
{
    let mut lines: Vec<Notice> = Vec::new();
    match action {
        Action::ProbePath { .. } => {
            lines.push(Notice { level: Level::Info, text: String::from_str("Activating profile") });
        },
        Action::DeleteGeneration { id, entry, .. } => {
            let mut first = String::from_str("Removing generation entry ");
            first.append(entry.as_str());
            let mut second = String::from_str("Removing generation by ID ");
            second.append(id.as_str());
            lines.push(Notice { level: Level::Info, text: first });
            lines.push(Notice { level: Level::Warning, text: second });
        },
        _ => {},
    }
    assert(lines@.map_values(|n: Notice| n@) =~= notices_of(action@));
    lines
}

} // verus!
