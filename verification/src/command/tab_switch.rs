use vstd::prelude::*;

verus! {

/// Switches to the tab `movement` places after the current one, going round.
#[derive(Clone, Copy, Debug, PartialEq, Eq, Structural)]
pub struct TabSwitch {
    pub movement: i32,
}

impl TabSwitch {
    /// A switch by `movement` tabs.
    pub fn new(movement: i32) -> (r: Self)
        ensures
            r.movement == movement,
    {
        TabSwitch { movement }
    }

    /// The name the command is written with in a keymap.
    pub fn command() -> (r: &'static str)
        ensures
            r@ == "tab_switch"@,
    {
        proof {
            reveal_strlit("tab_switch");
        }
        "tab_switch"
    }

    /// The tab to switch to from `curr_tab_index` among `tab_len` tabs.
    pub fn execute(&self, curr_tab_index: usize, tab_len: usize) -> (r: usize)
        requires
            0 < tab_len <= i32::MAX,
            curr_tab_index <= i32::MAX,
            curr_tab_index + self.movement <= i32::MAX,
        ensures
            r < tab_len,
            r as int == (curr_tab_index + self.movement) % (tab_len as int),
    {
        let tab_len_i = tab_len as i32;
        let mut new_index = curr_tab_index as i32 + self.movement;
        while new_index < 0
            invariant
                tab_len_i == tab_len,
                tab_len_i > 0,
                new_index <= i32::MAX,
                (new_index as int) % (tab_len as int) == (curr_tab_index + self.movement) % (tab_len as int),
            decreases (if new_index < 0 { -(new_index as int) } else { 0 }),
        {
            proof {
                vstd::arithmetic::div_mod::lemma_mod_add_multiples_vanish(new_index as int, tab_len as int);
            }
            new_index = new_index + tab_len_i;
        }
        while new_index >= tab_len_i
            invariant
                tab_len_i == tab_len,
                tab_len_i > 0,
                new_index >= 0,
                (new_index as int) % (tab_len as int) == (curr_tab_index + self.movement) % (tab_len as int),
            decreases new_index,
        {
            proof {
                vstd::arithmetic::div_mod::lemma_mod_sub_multiples_vanish(new_index as int, tab_len as int);
            }
            new_index = new_index - tab_len_i;
        }
        proof {
            vstd::arithmetic::div_mod::lemma_small_mod(new_index as nat, tab_len as nat);
        }
        new_index as usize
    }

    /// The command as a keymap writes it: its name and its movement.
    pub fn to_string(&self) -> (r: String)
        ensures
            r@ == "tab_switch "@ + crate::text::spec_signed_decimal(self.movement as int),
    {
        proof {
            reveal_strlit("tab_switch ");
        }
        let n = crate::text::i32_to_string(self.movement);
        crate::text::concat("tab_switch ", n.as_str())
    }
}

impl super::JoshutoCommand for TabSwitch {}

} // verus!
