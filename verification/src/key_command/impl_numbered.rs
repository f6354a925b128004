use vstd::prelude::*;

use super::command::{Command, JoshutoError, JoshutoErrorKind};
use super::traits::{NumberedAction, NumberedExecute};

verus! {

impl NumberedExecute for Command {
    /// Moving the cursor up or down goes by `number_prefix` entries; no other
    /// command takes a number.
    fn numbered_execute(&self, number_prefix: usize) -> (r: Result<NumberedAction, JoshutoError>)
        ensures
            match *self {
                Command::CursorMoveUp { .. } => r == Ok::<NumberedAction, JoshutoError>(
                    NumberedAction::CursorMoveUp(number_prefix),
                ),
                Command::CursorMoveDown { .. } => r == Ok::<NumberedAction, JoshutoError>(
                    NumberedAction::CursorMoveDown(number_prefix),
                ),
                _ => r matches Err(e) && e.kind == JoshutoErrorKind::UnrecognizedCommand
                    && e.message@ == "Command cannot be prefixed by a number"@,
            },
    {
        match self {
            Command::CursorMoveUp { .. } => Ok(NumberedAction::CursorMoveUp(number_prefix)),
            Command::CursorMoveDown { .. } => Ok(NumberedAction::CursorMoveDown(number_prefix)),
            _ => Err(
                JoshutoError::new(
                    JoshutoErrorKind::UnrecognizedCommand,
                    String::from_str("Command cannot be prefixed by a number"),
                ),
            ),
        }
    }
}

} // verus!
