use vstd::prelude::*;

verus! {

/// Reads the current directory again.
#[derive(Clone, Copy, Debug, PartialEq, Eq, Structural)]
pub struct ReloadDirList;

impl ReloadDirList {
    /// The command.
    pub fn new() -> (r: Self)
        ensures
            r == ReloadDirList,
    {
        ReloadDirList
    }

    /// The name the command is written with in a keymap.
    pub fn command() -> (r: &'static str)
        ensures
            r@ == "reload_dir_list"@,
    {
        proof {
            reveal_strlit("reload_dir_list");
        }
        "reload_dir_list"
    }

    /// The command as a keymap writes it: its name.
    pub fn to_string(&self) -> (r: String)
        ensures
            r@ == "reload_dir_list"@,
    {
        String::from_str(Self::command())
    }
}

impl super::JoshutoCommand for ReloadDirList {}

} // verus!
