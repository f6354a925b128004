use vstd::prelude::*;

verus! {

/// Moves to the parent directory.
#[derive(Clone, Copy, Debug, PartialEq, Eq, Structural)]
pub struct ParentDirectory;

impl ParentDirectory {
    /// The command.
    pub fn new() -> (r: Self)
        ensures
            r == ParentDirectory,
    {
        ParentDirectory
    }

    /// The name the command is written with in a keymap.
    pub fn command() -> (r: &'static str)
        ensures
            r@ == "parent_directory"@,
    {
        proof {
            reveal_strlit("parent_directory");
        }
        "parent_directory"
    }

    /// The command as a keymap writes it: its name.
    pub fn to_string(&self) -> (r: String)
        ensures
            r@ == "parent_directory"@,
    {
        String::from_str(Self::command())
    }
}

impl super::JoshutoCommand for ParentDirectory {}

} // verus!
