use vstd::prelude::*;

verus! {

/// Opens a new tab and switches to it.
#[derive(Clone, Copy, Debug, PartialEq, Eq, Structural)]
pub struct NewTab;

impl NewTab {
    /// The command.
    pub fn new() -> (r: Self)
        ensures
            r == NewTab,
    {
        NewTab
    }

    /// The name the command is written with in a keymap.
    pub fn command() -> (r: &'static str)
        ensures
            r@ == "new_tab"@,
    {
        proof {
            reveal_strlit("new_tab");
        }
        "new_tab"
    }

    /// The command as a keymap writes it: its name.
    pub fn to_string(&self) -> (r: String)
        ensures
            r@ == "new_tab"@,
    {
        String::from_str(Self::command())
    }

    /// Adds `tab` after the other tabs and makes it the current one.
    pub fn new_tab<T>(tabs: &mut Vec<T>, tab_index: &mut usize, tab: T)
        ensures
            final(tabs)@ == old(tabs)@.push(tab),
            *final(tab_index) == old(tabs)@.len(),
    {
        tabs.push(tab);
        *tab_index = tabs.len() - 1;
    }
}

impl super::JoshutoCommand for NewTab {}

/// Closes the current tab, unless it is the only one.
#[derive(Clone, Copy, Debug, PartialEq, Eq, Structural)]
pub struct CloseTab;

impl CloseTab {
    /// The command.
    pub fn new() -> (r: Self)
        ensures
            r == CloseTab,
    {
        CloseTab
    }

    /// The name the command is written with in a keymap.
    pub fn command() -> (r: &'static str)
        ensures
            r@ == "close_tab"@,
    {
        proof {
            reveal_strlit("close_tab");
        }
        "close_tab"
    }

    /// The command as a keymap writes it: its name.
    pub fn to_string(&self) -> (r: String)
        ensures
            r@ == "close_tab"@,
    {
        String::from_str(Self::command())
    }

    /// Removes the current tab when there are at least two, and makes the
    /// one before it current (the first stays current when it was the first).
    /// Returns whether a tab was closed.
    pub fn close_tab<T>(tabs: &mut Vec<T>, tab_index: &mut usize) -> (r: bool)
        requires
            old(tabs)@.len() > 1 ==> *old(tab_index) < old(tabs)@.len(),
        ensures
            r == (old(tabs)@.len() > 1),
            !r ==> final(tabs)@ == old(tabs)@ && *final(tab_index) == *old(tab_index),
            r ==> final(tabs)@ == old(tabs)@.remove(*old(tab_index) as int),
            r ==> *final(tab_index) == if *old(tab_index) > 0 {
                *old(tab_index) - 1
            } else {
                0
            },
            r ==> *final(tab_index) < final(tabs)@.len(),
    {
        if tabs.len() <= 1 {
            return false;
        }
        tabs.remove(*tab_index);
        if *tab_index > 0 {
            *tab_index = *tab_index - 1;
        }
        true
    }
}

impl super::JoshutoCommand for CloseTab {}

} // verus!
