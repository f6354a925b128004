use vstd::prelude::*;

verus! {

/// Moves to the directory `path`.
#[derive(Clone, Debug)]
pub struct ChangeDirectory {
    pub path: String,
}

impl ChangeDirectory {
    /// A move to `path`.
    pub fn new(path: String) -> (r: Self)
        ensures
            r.path@ == path@,
    {
        ChangeDirectory { path }
    }

    /// The name the command is written with in a keymap.
    pub fn command() -> (r: &'static str)
        ensures
            r@ == "cd"@,
    {
        proof {
            reveal_strlit("cd");
        }
        "cd"
    }

    /// The command as a keymap writes it: its name and its path.
    pub fn to_string(&self) -> (r: String)
        ensures
            r@ == "cd "@ + self.path@,
    {
        proof {
            reveal_strlit("cd ");
        }
        crate::text::concat("cd ", self.path.as_str())
    }
}

impl super::JoshutoCommand for ChangeDirectory {}

} // verus!
