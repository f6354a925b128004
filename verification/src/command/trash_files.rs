use vstd::prelude::*;

verus! {

/// Moves the selected files to the trash after asking.
#[derive(Clone, Copy, Debug, PartialEq, Eq, Structural)]
pub struct TrashFiles;

impl TrashFiles {
    /// The command.
    pub fn new() -> (r: Self)
        ensures
            r == TrashFiles,
    {
        TrashFiles
    }

    /// The name the command is written with in a keymap.
    pub fn command() -> (r: &'static str)
        ensures
            r@ == "trash_files"@,
    {
        proof {
            reveal_strlit("trash_files");
        }
        "trash_files"
    }

    /// The command as a keymap writes it: its name.
    pub fn to_string(&self) -> (r: String)
        ensures
            r@ == "trash_files"@,
    {
        String::from_str(Self::command())
    }
}

impl TrashFiles {
    /// Whether the key `ch` answers the question with yes: 'y' or Enter.
    pub fn confirmed(ch: i32) -> (r: bool)
        ensures
            r == (ch == 'y' as i32 || ch == crate::keymap::ENTER),
    {
        ch == 'y' as i32 || ch == crate::keymap::ENTER
    }
}

impl super::JoshutoCommand for TrashFiles {}

} // verus!
