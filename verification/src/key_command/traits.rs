use vstd::prelude::*;

use super::command::JoshutoError;

verus! {

/// A command that knows the name it is written with.
pub trait AppCommand {
    /// The name the command is written with.
    fn command(&self) -> &'static str;
}

/// A command that can describe itself on the help page.
pub trait CommandComment {
    /// What the command does, in a few words.
    fn comment(&self) -> &'static str;
}

/// What a command does when a number was typed before it.
#[derive(Clone, Copy, Debug, PartialEq, Eq, Structural)]
pub enum NumberedAction {
    /// Move the cursor up by this many entries.
    CursorMoveUp(usize),
    /// Move the cursor down by this many entries.
    CursorMoveDown(usize),
}

/// A command that can take a number typed before it.
pub trait NumberedExecute {
    /// What the command does with `number_prefix` typed before it.
    fn numbered_execute(&self, number_prefix: usize) -> Result<NumberedAction, JoshutoError>;
}

/// What a command does to the listing while its argument is being typed.
#[derive(Clone, Debug)]
pub enum InteractiveAction {
    /// Move to the first entry that holds the pattern.
    SearchString(String),
    /// Show only the entries that match the glob.
    FilterGlob(String),
    /// Show only the entries that match the regular expression.
    FilterRegex(String),
    /// Show only the entries that hold the text.
    FilterString(String),
}

/// A command that acts while its argument is being typed.
pub trait InteractiveExecute {
    /// What the command does while it is being typed, if anything.
    fn interactive_execute(&self) -> Option<InteractiveAction>;
}

} // verus!
