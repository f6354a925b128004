use vstd::prelude::*;

verus! {

/// Leaves the program.
#[derive(Clone, Copy, Debug, PartialEq, Eq, Structural)]
pub struct Quit;

impl Quit {
    /// The command.
    pub fn new() -> (r: Self)
        ensures
            r == Quit,
    {
        Quit
    }

    /// The name the command is written with in a keymap.
    pub fn command() -> (r: &'static str)
        ensures
            r@ == "quit"@,
    {
        proof {
            reveal_strlit("quit");
        }
        "quit"
    }

    /// The command as a keymap writes it: its name.
    pub fn to_string(&self) -> (r: String)
        ensures
            r@ == "quit"@,
    {
        String::from_str(Self::command())
    }
}

impl super::JoshutoCommand for Quit {}

} // verus!
