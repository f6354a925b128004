use vstd::prelude::*;

use crate::structs::{JoshutoDirEntry, JoshutoMetadata};

verus! {

/// Asks for the permissions of the file under the cursor.
#[derive(Clone, Copy, Debug, PartialEq, Eq, Structural)]
pub struct SetMode;

impl SetMode {
    /// The command.
    pub fn new() -> (r: Self)
        ensures
            r == SetMode,
    {
        SetMode
    }

    /// The name the command is written with in a keymap.
    pub fn command() -> (r: &'static str)
        ensures
            r@ == "set_mode"@,
    {
        proof {
            reveal_strlit("set_mode");
        }
        "set_mode"
    }

    /// The command as a keymap writes it: its name.
    pub fn to_string(&self) -> (r: String)
        ensures
            r@ == "set_mode"@,
    {
        String::from_str(Self::command())
    }

    /// The text the prompt opens with for a file of mode `mode`: its mode
    /// string without the file-type letter.
    pub fn initial_text(mode: u32) -> (r: String)
        ensures
            r@ == crate::unix::spec_stringify_mode(mode).drop_first(),
    {
        let s = crate::unix::stringify_mode(mode);
        let v = crate::text::str_to_chars(s.as_str());
        proof {
            crate::unix::lemma_mode_string_round_trip(mode);
        }
        crate::text::chars_to_string(v.as_slice(), 1, v.len())
    }

    /// Applies the answer `user_input` to `entry`: its mode becomes the bits
    /// the answer sets, as a regular file. Returns whether there was an answer.
    pub fn set_mode(&self, entry: &mut JoshutoDirEntry, user_input: Option<&str>) -> (r: bool)
        requires
            user_input matches Some(s) ==> s@.len() <= 9,
        ensures
            r == user_input is Some,
            user_input is None ==> *final(entry) == *old(entry),
            user_input matches Some(s) ==> *final(entry) == (JoshutoDirEntry {
                metadata: JoshutoMetadata {
                    permissions: (crate::unix::spec_parse_mode(s@) + 0x8000) as u32,
                    ..old(entry).metadata
                },
                ..*old(entry)
            }),
    {
        if let Some(s) = user_input {
            let mode = crate::unix::parse_mode(s);
            assert(mode <= 0o777u32) by {
                lemma_parse_mode_small(s@);
            }
            assert((1u32 << 15u32) == 0x8000u32) by (bit_vector);
            entry.metadata.permissions = mode + (1u32 << 15u32);
            return true;
        }
        return false;
    }
}

/// The bits a permission answer sets are among the nine permission bits.
pub proof fn lemma_parse_mode_small(s: Seq<char>)
    requires
        s.len() <= 9,
    ensures
        crate::unix::spec_parse_mode(s) <= 0o777u32,
        crate::unix::spec_parse_mode(s) & 0o777u32 == crate::unix::spec_parse_mode(s),
    decreases s.len(),
{
    if s.len() == 0 {
        assert(0u32 & 0o777u32 == 0u32) by (bit_vector);
    } else {
        lemma_parse_mode_small(s.drop_last());
        let a = crate::unix::spec_parse_mode(s.drop_last());
        let b: u32 = if s[s.len() - 1] == crate::unix::perm_letter(s.len() - 1) {
            crate::unix::perm_bit(s.len() - 1)
        } else {
            0
        };
        assert(crate::unix::spec_parse_mode(s) == a | b);
        assert(b == 0 || b == 0o400 || b == 0o200 || b == 0o100 || b == 0o040 || b == 0o020 || b == 0o010 || b == 0o004 || b == 0o002 || b == 0o001);
        assert((b == 0 || b == 0o400 || b == 0o200 || b == 0o100 || b == 0o040 || b == 0o020 || b == 0o010 || b == 0o004 || b == 0o002 || b == 0o001) ==> b & 0o777u32 == b) by (bit_vector);
        assert(a & 0o777u32 == a && b & 0o777u32 == b ==> (a | b) & 0o777u32 == a | b) by (bit_vector);
        assert((a | b) & 0o777u32 == a | b ==> a | b <= 0o777u32) by (bit_vector);
    }
}

impl super::JoshutoCommand for SetMode {}

} // verus!
