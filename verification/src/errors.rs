//! The failures that the node reports to its callers.

use vstd::prelude::*;
use crate::pid::{Pid, PidView};

verus! {

/// What an [`Error`] stands for.
#[allow(inconsistent_fields)]
pub enum ErrorView {
    SendFailure { description: Seq<char>, pid: Option<PidView> },
    SpawnConflict { description: Seq<char>, pid: PidView },
}

/// A failure of the node. Each is a value for the caller to log or report.
#[allow(inconsistent_fields)]
#[derive(Debug, PartialEq, Eq)]
pub enum Error {
    /// A message could not be placed on a channel. `description` names the
    /// message, `pid` the target where one is known.
    SendFailure { description: String, pid: Option<Pid> },
    /// `pid` is registered already; its target was left as it was.
    SpawnConflict { description: String, pid: Pid },
}

impl View for Error {
    type V = ErrorView;

    open spec fn view(&self) -> ErrorView {
        match *self {
            Error::SendFailure { description, pid } => ErrorView::SendFailure {
                description: description@,
                pid: match pid {
                    Some(p) => Some(p@),
                    None => None,
                },
            },
            Error::SpawnConflict { description, pid } => ErrorView::SpawnConflict {
                description: description@,
                pid: pid@,
            },
        }
    }
}

impl Error {
    /// The text that describes the failure.
    pub fn description(&self) -> (text: &String)
        ensures
            text@ == (match self@ {
                ErrorView::SendFailure { description, .. } => description,
                ErrorView::SpawnConflict { description, .. } => description,
            }),
    {
        match self {
            Error::SendFailure { description, .. } => description,
            Error::SpawnConflict { description, .. } => description,
        }
    }
}

} // verus!
