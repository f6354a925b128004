use vstd::prelude::*;

verus! {

/// Asks for a name and makes a directory of that name.
#[derive(Clone, Copy, Debug, PartialEq, Eq, Structural)]
pub struct NewDirectory;

impl NewDirectory {
    /// The command.
    pub fn new() -> (r: Self)
        ensures
            r == NewDirectory,
    {
        NewDirectory
    }

    /// The name the command is written with in a keymap.
    pub fn command() -> (r: &'static str)
        ensures
            r@ == "mkdir"@,
    {
        proof {
            reveal_strlit("mkdir");
        }
        "mkdir"
    }

    /// The command as a keymap writes it: its name.
    pub fn to_string(&self) -> (r: String)
        ensures
            r@ == "mkdir"@,
    {
        String::from_str(Self::command())
    }
}

impl super::JoshutoCommand for NewDirectory {}

} // verus!
