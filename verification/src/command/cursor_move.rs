use vstd::prelude::*;

use crate::structs::JoshutoDirList;

verus! {

/// Where the cursor goes when asked to go to `new_index` from `curr_index` in
/// a listing of `len` entries: clamped to the listing, and nowhere when it
/// would stay on the first or the last entry.
pub open spec fn cursor_target(curr_index: i32, new_index: int, len: int) -> Option<int> {
    if new_index <= 0 {
        if curr_index <= 0 {
            None
        } else {
            Some(0)
        }
    } else if new_index >= len {
        if curr_index == len - 1 {
            None
        } else {
            Some(len - 1)
        }
    } else {
        Some(new_index)
    }
}

/// Half of `c`, rounded toward zero as integer division does.
pub open spec fn half_of(c: i32) -> int {
    if c >= 0 {
        c as int / 2
    } else {
        -((-(c as int)) / 2)
    }
}

/// The listing after the cursor was asked to go to `new_index`: only the
/// cursor changes, as `cursor_target` says.
pub open spec fn moved_to(old: JoshutoDirList, new: JoshutoDirList, new_index: int) -> bool {
    &&& new.contents == old.contents
    &&& new.path == old.path
    &&& new.metadata == old.metadata
    &&& new.update_needed == old.update_needed
    &&& new.pagestate == old.pagestate
    &&& match cursor_target(old.index, new_index, old.contents@.len() as int) {
        Some(t) => new.index == t,
        None => new.index == old.index,
    }
}

/// Where a move asked for `new_index` leaves the cursor of a non-empty
/// listing: on that entry when it lies inside the listing, on the last entry
/// when it lies past the end, on the first when it lies before the start;
/// so a move down never takes the cursor up, nor a move up down.
pub proof fn lemma_cursor_move_lands(old: JoshutoDirList, new: JoshutoDirList, new_index: int)
    requires
        old.wf(),
        old.contents@.len() > 0,
        moved_to(old, new, new_index),
    ensures
        0 <= new_index < old.contents@.len() ==> new.index == new_index,
        new_index >= old.contents@.len() ==> new.index == old.contents@.len() - 1,
        new_index < 0 ==> new.index == 0,
        new_index > old.index ==> new.index >= old.index,
        new_index < old.index ==> new.index <= old.index,
        0 <= new.index < old.contents@.len(),
{
}

/// Moves the cursor down by `movement` entries (up when negative).
#[derive(Clone, Copy, Debug, PartialEq, Eq, Structural)]
pub struct CursorMove {
    pub movement: i32,
}

impl CursorMove {
    /// A move by `movement` entries.
    pub fn new(movement: i32) -> (r: Self)
        ensures
            r.movement == movement,
    {
        CursorMove { movement }
    }

    /// The name the command is written with in a keymap.
    pub fn command() -> (r: &'static str)
        ensures
            r@ == "cursor_move"@,
    {
        proof {
            reveal_strlit("cursor_move");
        }
        "cursor_move"
    }

    /// Puts the cursor of `curr_list` at `new_index`, clamped to the listing.
    /// Returns whether the cursor moved, and so whether the view needs redrawing.
    pub fn cursor_move(new_index: i32, curr_list: &mut JoshutoDirList) -> (r: bool)
        requires
            old(curr_list).wf(),
        ensures
            final(curr_list).wf(),
            moved_to(*old(curr_list), *final(curr_list), new_index as int),
            r == cursor_target(old(curr_list).index, new_index as int, old(curr_list).contents@.len() as int) is Some,
            0 <= new_index < old(curr_list).contents@.len() ==> final(curr_list).index == new_index,
            old(curr_list).contents@.len() > 0 && new_index >= old(curr_list).contents@.len()
                ==> final(curr_list).index == old(curr_list).contents@.len() - 1,
            old(curr_list).contents@.len() > 0 && new_index < 0 ==> final(curr_list).index == 0,
    {
        let curr_index = curr_list.index;
        let dir_len = curr_list.contents.len() as i32;
        let mut new_index = new_index;
        if new_index <= 0 {
            new_index = 0;
            if curr_index <= 0 {
                return false;
            }
        } else if new_index >= dir_len {
            new_index = dir_len - 1;
            if curr_index == dir_len - 1 {
                return false;
            }
        }
        curr_list.index = new_index;
        true
    }

    /// Moves the cursor of `curr_list` by this command's movement.
    pub fn execute(&self, curr_list: &mut JoshutoDirList) -> (r: bool)
        requires
            old(curr_list).wf(),
            i32::MIN <= old(curr_list).index + self.movement <= i32::MAX,
        ensures
            final(curr_list).wf(),
            moved_to(*old(curr_list), *final(curr_list), old(curr_list).index + self.movement),
            r == cursor_target(old(curr_list).index, old(curr_list).index + self.movement, old(curr_list).contents@.len() as int) is Some,
    {
        let movement = curr_list.index + self.movement;
        Self::cursor_move(movement, curr_list)
    }

    /// The command as a keymap writes it: its name and its movement.
    pub fn to_string(&self) -> (r: String)
        ensures
            r@ == "cursor_move "@ + crate::text::spec_signed_decimal(self.movement as int),
    {
        proof {
            reveal_strlit("cursor_move ");
        }
        let n = crate::text::i32_to_string(self.movement);
        crate::text::concat("cursor_move ", n.as_str())
    }
}

impl super::JoshutoCommand for CursorMove {}

/// Moves the cursor up by half the width of the middle window.
#[derive(Clone, Copy, Debug, PartialEq, Eq, Structural)]
pub struct CursorMovePageUp;

impl CursorMovePageUp {
    /// The command.
    pub fn new() -> (r: Self)
        ensures
            r == CursorMovePageUp,
    {
        CursorMovePageUp
    }

    /// The name the command is written with in a keymap.
    pub fn command() -> (r: &'static str)
        ensures
            r@ == "cursor_move_page_up"@,
    {
        proof {
            reveal_strlit("cursor_move_page_up");
        }
        "cursor_move_page_up"
    }

    /// The command as a keymap writes it: its name.
    pub fn to_string(&self) -> (r: String)
        ensures
            r@ == "cursor_move_page_up"@,
    {
        String::from_str(Self::command())
    }

    /// Moves the cursor of `curr_list` up by half of `win_cols`, unless it is
    /// already on the first entry or there is none.
    pub fn execute(&self, curr_list: &mut JoshutoDirList, win_cols: i32) -> (r: bool)
        requires
            old(curr_list).wf(),
            i32::MIN <= old(curr_list).index - half_of(win_cols) <= i32::MAX,
        ensures
            final(curr_list).wf(),
            old(curr_list).index <= 0 ==> *final(curr_list) == *old(curr_list) && !r,
            old(curr_list).index > 0 ==> moved_to(*old(curr_list), *final(curr_list), old(curr_list).index - half_of(win_cols))
                && r == cursor_target(old(curr_list).index, old(curr_list).index - half_of(win_cols), old(curr_list).contents@.len() as int) is Some,
    {
        let curr_index = curr_list.index;
        if curr_index <= 0 {
            return false;
        }
        let half_page = win_cols / 2;
        CursorMove::cursor_move(curr_index - half_page, curr_list)
    }
}

impl super::JoshutoCommand for CursorMovePageUp {}

/// Moves the cursor down by half the width of the middle window.
#[derive(Clone, Copy, Debug, PartialEq, Eq, Structural)]
pub struct CursorMovePageDown;

impl CursorMovePageDown {
    /// The command.
    pub fn new() -> (r: Self)
        ensures
            r == CursorMovePageDown,
    {
        CursorMovePageDown
    }

    /// The name the command is written with in a keymap.
    pub fn command() -> (r: &'static str)
        ensures
            r@ == "cursor_move_page_down"@,
    {
        proof {
            reveal_strlit("cursor_move_page_down");
        }
        "cursor_move_page_down"
    }

    /// The command as a keymap writes it: its name.
    pub fn to_string(&self) -> (r: String)
        ensures
            r@ == "cursor_move_page_down"@,
    {
        String::from_str(Self::command())
    }

    /// Moves the cursor of `curr_list` down by half of `win_cols`, unless it
    /// is already on the last entry.
    pub fn execute(&self, curr_list: &mut JoshutoDirList, win_cols: i32) -> (r: bool)
        requires
            old(curr_list).wf(),
            i32::MIN <= old(curr_list).index + half_of(win_cols) <= i32::MAX,
        ensures
            final(curr_list).wf(),
            old(curr_list).index >= old(curr_list).contents@.len() - 1 ==> *final(curr_list) == *old(curr_list) && !r,
            old(curr_list).index < old(curr_list).contents@.len() - 1 ==> moved_to(*old(curr_list), *final(curr_list), old(curr_list).index + half_of(win_cols))
                && r == cursor_target(old(curr_list).index, old(curr_list).index + half_of(win_cols), old(curr_list).contents@.len() as int) is Some,
    {
        let curr_index = curr_list.index;
        let dir_len = curr_list.contents.len();
        if curr_index >= dir_len as i32 - 1 {
            return false;
        }
        let half_page = win_cols / 2;
        CursorMove::cursor_move(curr_index + half_page, curr_list)
    }
}

impl super::JoshutoCommand for CursorMovePageDown {}

/// Moves the cursor to the first entry.
#[derive(Clone, Copy, Debug, PartialEq, Eq, Structural)]
pub struct CursorMoveHome;

impl CursorMoveHome {
    /// The command.
    pub fn new() -> (r: Self)
        ensures
            r == CursorMoveHome,
    {
        CursorMoveHome
    }

    /// The name the command is written with in a keymap.
    pub fn command() -> (r: &'static str)
        ensures
            r@ == "cursor_move_home"@,
    {
        proof {
            reveal_strlit("cursor_move_home");
        }
        "cursor_move_home"
    }

    /// The command as a keymap writes it: its name.
    pub fn to_string(&self) -> (r: String)
        ensures
            r@ == "cursor_move_home"@,
    {
        String::from_str(Self::command())
    }

    /// Moves the cursor of `curr_list` to its first entry, unless it is there already.
    pub fn execute(&self, curr_list: &mut JoshutoDirList) -> (r: bool)
        requires
            old(curr_list).wf(),
        ensures
            final(curr_list).wf(),
            moved_to(*old(curr_list), *final(curr_list), 0),
            r == (old(curr_list).index > 0),
            r ==> final(curr_list).index == 0,
    {
        let curr_index = curr_list.index;
        if curr_index <= 0 {
            return false;
        }
        CursorMove::cursor_move(0, curr_list)
    }
}

impl super::JoshutoCommand for CursorMoveHome {}

/// Moves the cursor to the last entry.
#[derive(Clone, Copy, Debug, PartialEq, Eq, Structural)]
pub struct CursorMoveEnd;

impl CursorMoveEnd {
    /// The command.
    pub fn new() -> (r: Self)
        ensures
            r == CursorMoveEnd,
    {
        CursorMoveEnd
    }

    /// The name the command is written with in a keymap.
    pub fn command() -> (r: &'static str)
        ensures
            r@ == "cursor_move_end"@,
    {
        proof {
            reveal_strlit("cursor_move_end");
        }
        "cursor_move_end"
    }

    /// The command as a keymap writes it: its name.
    pub fn to_string(&self) -> (r: String)
        ensures
            r@ == "cursor_move_end"@,
    {
        String::from_str(Self::command())
    }

    /// Moves the cursor of `curr_list` to its last entry, unless it is there already.
    pub fn execute(&self, curr_list: &mut JoshutoDirList) -> (r: bool)
        requires
            old(curr_list).wf(),
        ensures
            final(curr_list).wf(),
            r == (old(curr_list).index < old(curr_list).contents@.len() - 1),
            r ==> moved_to(*old(curr_list), *final(curr_list), old(curr_list).contents@.len() - 1)
                && final(curr_list).index == old(curr_list).contents@.len() - 1,
            !r ==> *final(curr_list) == *old(curr_list),
    {
        let curr_index = curr_list.index;
        let dir_len = curr_list.contents.len();
        if curr_index >= dir_len as i32 - 1 {
            return false;
        }
        CursorMove::cursor_move(dir_len as i32 - 1, curr_list)
    }
}

impl super::JoshutoCommand for CursorMoveEnd {}

} // verus!
