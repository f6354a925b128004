use vstd::prelude::*;

use super::command::Command;
use super::traits::{InteractiveAction, InteractiveExecute};

verus! {

impl InteractiveExecute for Command {
    /// Searching as one types searches for the pattern typed so far, and the
    /// filters filter by it; other commands do nothing while being typed.
    fn interactive_execute(&self) -> (r: Option<InteractiveAction>)
        ensures
            match *self {
                Command::SearchIncremental { pattern } => r matches Some(
                    InteractiveAction::SearchString(p),
                ) && p@ == pattern@,
                Command::FilterGlob { pattern } => r matches Some(InteractiveAction::FilterGlob(p))
                    && p@ == pattern@,
                Command::FilterRegex { pattern } => r matches Some(InteractiveAction::FilterRegex(p))
                    && p@ == pattern@,
                Command::FilterString { pattern } => r matches Some(
                    InteractiveAction::FilterString(p),
                ) && p@ == pattern@,
                _ => r is None,
            },
    {
        match self {
            Command::SearchIncremental { pattern } => Some(
                InteractiveAction::SearchString(pattern.clone()),
            ),
            Command::FilterGlob { pattern } => Some(InteractiveAction::FilterGlob(pattern.clone())),
            Command::FilterRegex { pattern } => Some(InteractiveAction::FilterRegex(pattern.clone())),
            Command::FilterString { pattern } => Some(InteractiveAction::FilterString(pattern.clone())),
            _ => None,
        }
    }
}

} // verus!
