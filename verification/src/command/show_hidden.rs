use vstd::prelude::*;

use crate::sort::{sort_option_of, SortOption, SortType};

verus! {

/// Shows hidden files if they were hidden, and hides them if they were shown.
#[derive(Clone, Copy, Debug, PartialEq, Eq, Structural)]
pub struct ToggleHiddenFiles;

impl ToggleHiddenFiles {
    /// The command.
    pub fn new() -> (r: Self)
        ensures
            r == ToggleHiddenFiles,
    {
        ToggleHiddenFiles
    }

    /// The name the command is written with in a keymap.
    pub fn command() -> (r: &'static str)
        ensures
            r@ == "toggle_hidden"@,
    {
        proof {
            reveal_strlit("toggle_hidden");
        }
        "toggle_hidden"
    }

    /// The command as a keymap writes it: its name.
    pub fn to_string(&self) -> (r: String)
        ensures
            r@ == "toggle_hidden"@,
    {
        String::from_str(Self::command())
    }

    /// Flips whether `sort_type` shows hidden files, keeping its other options.
    pub fn toggle_hidden(sort_type: &mut SortType)
        ensures
            sort_option_of(*final(sort_type)) == (SortOption {
                show_hidden: !sort_option_of(*old(sort_type)).show_hidden,
                ..sort_option_of(*old(sort_type))
            }),
            (*old(sort_type) is SortNatural) == (*final(sort_type) is SortNatural),
    {
        let opposite = !sort_type.show_hidden();
        sort_type.set_show_hidden(opposite);
    }
}

impl super::JoshutoCommand for ToggleHiddenFiles {}

/// Toggling twice gives back the sort type one started with.
pub proof fn lemma_toggle_hidden_twice(t: SortType, once: SortType, twice: SortType)
    requires
        sort_option_of(once) == (SortOption { show_hidden: !sort_option_of(t).show_hidden, ..sort_option_of(t) }),
        (t is SortNatural) == (once is SortNatural),
        sort_option_of(twice) == (SortOption { show_hidden: !sort_option_of(once).show_hidden, ..sort_option_of(once) }),
        (once is SortNatural) == (twice is SortNatural),
    ensures
        twice == t,
{
}

} // verus!
