use vstd::prelude::*;

verus! {

/// Deletes the selected files after asking.
#[derive(Clone, Copy, Debug, PartialEq, Eq, Structural)]
pub struct DeleteFiles;

impl DeleteFiles {
    /// The command.
    pub fn new() -> (r: Self)
        ensures
            r == DeleteFiles,
    {
        DeleteFiles
    }

    /// The name the command is written with in a keymap.
    pub fn command() -> (r: &'static str)
        ensures
            r@ == "delete_files"@,
    {
        proof {
            reveal_strlit("delete_files");
        }
        "delete_files"
    }

    /// The command as a keymap writes it: its name.
    pub fn to_string(&self) -> (r: String)
        ensures
            r@ == "delete_files"@,
    {
        String::from_str(Self::command())
    }
}

impl DeleteFiles {
    /// Whether the key `ch` answers the question with yes: 'y' or Enter.
    pub fn confirmed(ch: i32) -> (r: bool)
        ensures
            r == (ch == 'y' as i32 || ch == crate::keymap::ENTER),
    {
        ch == 'y' as i32 || ch == crate::keymap::ENTER
    }
}

impl super::JoshutoCommand for DeleteFiles {}

} // verus!
