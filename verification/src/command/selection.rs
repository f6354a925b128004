use vstd::prelude::*;

use crate::structs::JoshutoDirList;

verus! {

/// Selects files: with `toggle` and without `all`, toggles the entry under
/// the cursor and moves down one entry.
#[derive(Clone, Copy, Debug, PartialEq, Eq, Structural)]
pub struct SelectFiles {
    pub toggle: bool,
    pub all: bool,
}

impl SelectFiles {
    /// The command with its two options.
    pub fn new(toggle: bool, all: bool) -> (r: Self)
        ensures
            r.toggle == toggle,
            r.all == all,
    {
        SelectFiles { toggle, all }
    }

    /// The name the command is written with in a keymap.
    pub fn command() -> (r: &'static str)
        ensures
            r@ == "select_files"@,
    {
        proof {
            reveal_strlit("select_files");
        }
        "select_files"
    }

    /// Toggles the entry under the cursor of `curr_list` and moves the
    /// cursor down one entry, when the options ask for it.
    pub fn execute(&self, curr_list: &mut JoshutoDirList)
        requires
            old(curr_list).wf(),
        ensures
            final(curr_list).wf(),
            !(self.toggle && !self.all) ==> *final(curr_list) == *old(curr_list),
            self.toggle && !self.all ==> {
                &&& final(curr_list).contents@.len() == old(curr_list).contents@.len()
                &&& forall|j: int| 0 <= j < old(curr_list).contents@.len() && j != old(curr_list).index
                    ==> final(curr_list).contents@[j] == old(curr_list).contents@[j]
                &&& 0 <= old(curr_list).index ==> final(curr_list).contents@[old(curr_list).index as int]
                    == (crate::structs::JoshutoDirEntry {
                    selected: !old(curr_list).contents@[old(curr_list).index as int].selected,
                    ..old(curr_list).contents@[old(curr_list).index as int]
                })
                &&& match super::cursor_move::cursor_target(old(curr_list).index, old(curr_list).index + 1, old(curr_list).contents@.len() as int) {
                    Some(t) => final(curr_list).index == t,
                    None => final(curr_list).index == old(curr_list).index,
                }
            },
    {
        if self.toggle && !self.all {
            curr_list.curr_toggle_select();
            let subcommand = super::cursor_move::CursorMove::new(1);
            subcommand.execute(curr_list);
        }
    }

    /// The command as a keymap writes it, with its two options.
    pub fn to_string(&self) -> (r: String)
        ensures
            r@ == "select_files toggle="@ + crate::text::spec_bool_str(self.toggle) + " all="@
                + crate::text::spec_bool_str(self.all),
    {
        proof {
            reveal_strlit("select_files toggle=");
            reveal_strlit(" all=");
        }
        let mut s = String::from_str("select_files toggle=");
        s.append(crate::text::bool_to_string(self.toggle).as_str());
        s.append(" all=");
        s.append(crate::text::bool_to_string(self.all).as_str());
        s
    }
}

impl super::JoshutoCommand for SelectFiles {}

} // verus!
