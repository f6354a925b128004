use std::collections::HashMap;

use vstd::prelude::*;

use crate::command::change_directory::ChangeDirectory;
use crate::command::cursor_move::{CursorMove, CursorMoveEnd, CursorMoveHome, CursorMovePageDown, CursorMovePageUp};
use crate::command::delete_file::DeleteFiles;
use crate::command::file_operation::{CopyFiles, CopyOptions, CutFiles, PasteFiles};
use crate::command::new_directory::NewDirectory;
use crate::command::open_file::{OpenFile, OpenFileWith};
use crate::command::parent_directory::ParentDirectory;
use crate::command::quit::Quit;
use crate::command::rename_file::{RenameFile, RenameFileMethod};
use crate::command::show_hidden::ToggleHiddenFiles;
use crate::command::{
    args_view, from_args, spec_from_args, spec_split_shell_style,
    split_shell_style, KeyCommand,
};
use crate::text::{
    chars_eq, find_char, lemma_find, lemma_split_char_nonempty, seq_to_string, spec_find,
    spec_split_char, split_char, str_to_chars, sub_chars,
};

verus! {

broadcast use vstd::std_specs::hash::group_hash_axioms;

/// The key code of Backspace.
pub const BACKSPACE: i32 = 0x7F;
/// The key code of Tab.
pub const TAB: i32 = 0x9;
/// The key code of Enter.
pub const ENTER: i32 = 0xA;
/// The key code of Escape.
pub const ESCAPE: i32 = 0x1B;

/// The terminal's key code of the down arrow.
pub const KEY_DOWN: i32 = 0o402;
/// The terminal's key code of the up arrow.
pub const KEY_UP: i32 = 0o403;
/// The terminal's key code of the left arrow.
pub const KEY_LEFT: i32 = 0o404;
/// The terminal's key code of the right arrow.
pub const KEY_RIGHT: i32 = 0o405;
/// The terminal's key code of Home.
pub const KEY_HOME: i32 = 0o406;
/// The terminal's key code of the function key F0; F`n` is this plus `n`.
pub const KEY_F0: i32 = 0o410;
/// The terminal's key code of Delete.
pub const KEY_DC: i32 = 0o512;
/// The terminal's key code of Insert.
pub const KEY_IC: i32 = 0o513;
/// The terminal's key code of Page Down.
pub const KEY_NPAGE: i32 = 0o522;
/// The terminal's key code of Page Up.
pub const KEY_PPAGE: i32 = 0o523;
/// The terminal's key code of Print Screen.
pub const KEY_PRINT: i32 = 0o532;
/// The terminal's key code of End.
pub const KEY_END: i32 = 0o550;

/// The key code that a keymap file names `name`: a single ASCII character
/// stands for itself, and a few names stand for special keys.
pub open spec fn spec_key_code(name: Seq<char>) -> Option<i32> {
    if name.len() == 1 {
        if (name[0] as u32) < 128 {
            Some(name[0] as u32 as i32)
        } else {
            None
        }
    } else if name == "Comma"@ {
        Some(44)
    } else if name == "Tab"@ {
        Some(TAB)
    } else if name == "Space"@ {
        Some(32)
    } else if name == "Backspace"@ {
        Some(BACKSPACE)
    } else if name == "Delete"@ {
        Some(KEY_DC)
    } else if name == "Enter"@ {
        Some(ENTER)
    } else if name == "Escape"@ {
        Some(ESCAPE)
    } else if name == "F0"@ {
        Some(KEY_F0)
    } else if name == "F1"@ {
        Some((KEY_F0 + 1) as i32)
    } else if name == "F2"@ {
        Some((KEY_F0 + 2) as i32)
    } else if name == "F3"@ {
        Some((KEY_F0 + 3) as i32)
    } else if name == "F4"@ {
        Some((KEY_F0 + 4) as i32)
    } else if name == "F5"@ {
        Some((KEY_F0 + 5) as i32)
    } else if name == "F6"@ {
        Some((KEY_F0 + 6) as i32)
    } else if name == "F7"@ {
        Some((KEY_F0 + 7) as i32)
    } else if name == "F8"@ {
        Some((KEY_F0 + 8) as i32)
    } else if name == "F9"@ {
        Some((KEY_F0 + 9) as i32)
    } else if name == "F10"@ {
        Some((KEY_F0 + 10) as i32)
    } else if name == "F11"@ {
        Some((KEY_F0 + 11) as i32)
    } else if name == "F12"@ {
        Some((KEY_F0 + 12) as i32)
    } else if name == "F13"@ {
        Some((KEY_F0 + 13) as i32)
    } else if name == "F14"@ {
        Some((KEY_F0 + 14) as i32)
    } else if name == "F15"@ {
        Some((KEY_F0 + 15) as i32)
    } else if name == "Insert"@ {
        Some(KEY_IC)
    } else if name == "PageUp"@ {
        Some(KEY_PPAGE)
    } else if name == "PageDown"@ {
        Some(KEY_NPAGE)
    } else if name == "PrintScreen"@ {
        Some(KEY_PRINT)
    } else if name == "Up"@ {
        Some(KEY_UP)
    } else if name == "Down"@ {
        Some(KEY_DOWN)
    } else if name == "Left"@ {
        Some(KEY_LEFT)
    } else if name == "Right"@ {
        Some(KEY_RIGHT)
    } else if name == "Home"@ {
        Some(KEY_HOME)
    } else if name == "End"@ {
        Some(KEY_END)
    } else {
        None
    }
}

/// A single ASCII character names the key that types it, another single
/// character names no key, and each special name stands for the terminal's
/// code of the key it names (the codes the curses library gives these keys).
#[verifier::rlimit(60)]
pub proof fn lemma_key_names()
    ensures
        forall|c: char| (c as u32) < 128 ==> #[trigger] spec_key_code(seq![c]) == Some(c as u32 as i32),
        forall|c: char| (c as u32) >= 128 ==> #[trigger] spec_key_code(seq![c]) is None,
        spec_key_code("Comma"@) == Some(44i32),
        spec_key_code("Tab"@) == Some(9i32),
        spec_key_code("Space"@) == Some(32i32),
        spec_key_code("Backspace"@) == Some(127i32),
        spec_key_code("Delete"@) == Some(0o512i32),
        spec_key_code("Enter"@) == Some(10i32),
        spec_key_code("Escape"@) == Some(27i32),
        spec_key_code("F0"@) == Some(264i32),
        spec_key_code("F1"@) == Some(265i32),
        spec_key_code("F2"@) == Some(266i32),
        spec_key_code("F3"@) == Some(267i32),
        spec_key_code("F4"@) == Some(268i32),
        spec_key_code("F5"@) == Some(269i32),
        spec_key_code("F6"@) == Some(270i32),
        spec_key_code("F7"@) == Some(271i32),
        spec_key_code("F8"@) == Some(272i32),
        spec_key_code("F9"@) == Some(273i32),
        spec_key_code("F10"@) == Some(274i32),
        spec_key_code("F11"@) == Some(275i32),
        spec_key_code("F12"@) == Some(276i32),
        spec_key_code("F13"@) == Some(277i32),
        spec_key_code("F14"@) == Some(278i32),
        spec_key_code("F15"@) == Some(279i32),
        spec_key_code("Insert"@) == Some(0o513i32),
        spec_key_code("PageUp"@) == Some(0o523i32),
        spec_key_code("PageDown"@) == Some(0o522i32),
        spec_key_code("PrintScreen"@) == Some(0o532i32),
        spec_key_code("Up"@) == Some(0o403i32),
        spec_key_code("Down"@) == Some(0o402i32),
        spec_key_code("Left"@) == Some(0o404i32),
        spec_key_code("Right"@) == Some(0o405i32),
        spec_key_code("Home"@) == Some(0o406i32),
        spec_key_code("End"@) == Some(0o550i32),
{
    reveal_strlit("Comma");
    reveal_strlit("Tab");
    reveal_strlit("Space");
    reveal_strlit("Backspace");
    reveal_strlit("Delete");
    reveal_strlit("Enter");
    reveal_strlit("Escape");
    reveal_strlit("F0");
    reveal_strlit("F1");
    reveal_strlit("F2");
    reveal_strlit("F3");
    reveal_strlit("F4");
    reveal_strlit("F5");
    reveal_strlit("F6");
    reveal_strlit("F7");
    reveal_strlit("F8");
    reveal_strlit("F9");
    reveal_strlit("F10");
    reveal_strlit("F11");
    reveal_strlit("F12");
    reveal_strlit("F13");
    reveal_strlit("F14");
    reveal_strlit("F15");
    reveal_strlit("Insert");
    reveal_strlit("PageUp");
    reveal_strlit("PageDown");
    reveal_strlit("PrintScreen");
    reveal_strlit("Up");
    reveal_strlit("Down");
    reveal_strlit("Left");
    reveal_strlit("Right");
    reveal_strlit("Home");
    reveal_strlit("End");
    assert("F1"@ != "F0"@) by { assert("F1"@[1] != "F0"@[1]); }
    assert("F2"@ != "F0"@) by { assert("F2"@[1] != "F0"@[1]); }
    assert("F3"@ != "F0"@) by { assert("F3"@[1] != "F0"@[1]); }
    assert("F4"@ != "F0"@) by { assert("F4"@[1] != "F0"@[1]); }
    assert("F5"@ != "F0"@) by { assert("F5"@[1] != "F0"@[1]); }
    assert("F6"@ != "F0"@) by { assert("F6"@[1] != "F0"@[1]); }
    assert("F7"@ != "F0"@) by { assert("F7"@[1] != "F0"@[1]); }
    assert("F8"@ != "F0"@) by { assert("F8"@[1] != "F0"@[1]); }
    assert("F9"@ != "F0"@) by { assert("F9"@[1] != "F0"@[1]); }
    assert("F2"@ != "F1"@) by { assert("F2"@[1] != "F1"@[1]); }
    assert("F3"@ != "F1"@) by { assert("F3"@[1] != "F1"@[1]); }
    assert("F4"@ != "F1"@) by { assert("F4"@[1] != "F1"@[1]); }
    assert("F5"@ != "F1"@) by { assert("F5"@[1] != "F1"@[1]); }
    assert("F6"@ != "F1"@) by { assert("F6"@[1] != "F1"@[1]); }
    assert("F7"@ != "F1"@) by { assert("F7"@[1] != "F1"@[1]); }
    assert("F8"@ != "F1"@) by { assert("F8"@[1] != "F1"@[1]); }
    assert("F9"@ != "F1"@) by { assert("F9"@[1] != "F1"@[1]); }
    assert("F3"@ != "F2"@) by { assert("F3"@[1] != "F2"@[1]); }
    assert("F4"@ != "F2"@) by { assert("F4"@[1] != "F2"@[1]); }
    assert("F5"@ != "F2"@) by { assert("F5"@[1] != "F2"@[1]); }
    assert("F6"@ != "F2"@) by { assert("F6"@[1] != "F2"@[1]); }
    assert("F7"@ != "F2"@) by { assert("F7"@[1] != "F2"@[1]); }
    assert("F8"@ != "F2"@) by { assert("F8"@[1] != "F2"@[1]); }
    assert("F9"@ != "F2"@) by { assert("F9"@[1] != "F2"@[1]); }
    assert("F4"@ != "F3"@) by { assert("F4"@[1] != "F3"@[1]); }
    assert("F5"@ != "F3"@) by { assert("F5"@[1] != "F3"@[1]); }
    assert("F6"@ != "F3"@) by { assert("F6"@[1] != "F3"@[1]); }
    assert("F7"@ != "F3"@) by { assert("F7"@[1] != "F3"@[1]); }
    assert("F8"@ != "F3"@) by { assert("F8"@[1] != "F3"@[1]); }
    assert("F9"@ != "F3"@) by { assert("F9"@[1] != "F3"@[1]); }
    assert("F5"@ != "F4"@) by { assert("F5"@[1] != "F4"@[1]); }
    assert("F6"@ != "F4"@) by { assert("F6"@[1] != "F4"@[1]); }
    assert("F7"@ != "F4"@) by { assert("F7"@[1] != "F4"@[1]); }
    assert("F8"@ != "F4"@) by { assert("F8"@[1] != "F4"@[1]); }
    assert("F9"@ != "F4"@) by { assert("F9"@[1] != "F4"@[1]); }
    assert("F6"@ != "F5"@) by { assert("F6"@[1] != "F5"@[1]); }
    assert("F7"@ != "F5"@) by { assert("F7"@[1] != "F5"@[1]); }
    assert("F8"@ != "F5"@) by { assert("F8"@[1] != "F5"@[1]); }
    assert("F9"@ != "F5"@) by { assert("F9"@[1] != "F5"@[1]); }
    assert("F7"@ != "F6"@) by { assert("F7"@[1] != "F6"@[1]); }
    assert("F8"@ != "F6"@) by { assert("F8"@[1] != "F6"@[1]); }
    assert("F9"@ != "F6"@) by { assert("F9"@[1] != "F6"@[1]); }
    assert("F8"@ != "F7"@) by { assert("F8"@[1] != "F7"@[1]); }
    assert("F9"@ != "F7"@) by { assert("F9"@[1] != "F7"@[1]); }
    assert("F9"@ != "F8"@) by { assert("F9"@[1] != "F8"@[1]); }
    assert("F11"@ != "F10"@) by { assert("F11"@[2] != "F10"@[2]); }
    assert("F12"@ != "F10"@) by { assert("F12"@[2] != "F10"@[2]); }
    assert("F13"@ != "F10"@) by { assert("F13"@[2] != "F10"@[2]); }
    assert("F14"@ != "F10"@) by { assert("F14"@[2] != "F10"@[2]); }
    assert("F15"@ != "F10"@) by { assert("F15"@[2] != "F10"@[2]); }
    assert("F12"@ != "F11"@) by { assert("F12"@[2] != "F11"@[2]); }
    assert("F13"@ != "F11"@) by { assert("F13"@[2] != "F11"@[2]); }
    assert("F14"@ != "F11"@) by { assert("F14"@[2] != "F11"@[2]); }
    assert("F15"@ != "F11"@) by { assert("F15"@[2] != "F11"@[2]); }
    assert("F13"@ != "F12"@) by { assert("F13"@[2] != "F12"@[2]); }
    assert("F14"@ != "F12"@) by { assert("F14"@[2] != "F12"@[2]); }
    assert("F15"@ != "F12"@) by { assert("F15"@[2] != "F12"@[2]); }
    assert("F14"@ != "F13"@) by { assert("F14"@[2] != "F13"@[2]); }
    assert("F15"@ != "F13"@) by { assert("F15"@[2] != "F13"@[2]); }
    assert("F15"@ != "F14"@) by { assert("F15"@[2] != "F14"@[2]); }
}

/// What a key, or a sequence of keys pressed one after the other, is bound to.
#[derive(Debug)]
pub enum CommandKeybind {
    /// The keys run this command.
    SimpleKeybind(KeyCommand),
    /// The keys start longer sequences, bound in this map by their next key.
    CompositeKeybind(HashMap<i32, CommandKeybind>),
}

/// The key bindings of the program.
#[derive(Debug)]
pub struct JoshutoKeymap {
    pub keymaps: HashMap<i32, CommandKeybind>,
}

/// What a sequence of keys leads to in a keymap.
#[derive(Debug)]
pub enum KeyLookup {
    /// The keys run this command.
    Command(KeyCommand),
    /// The keys are the start of longer bound sequences (the empty sequence always is).
    Prefix,
    /// Nothing is bound to the keys.
    Unbound,
}

/// What the keys `path` lead to from the bindings `m`.
pub open spec fn lookup(m: Map<i32, CommandKeybind>, path: Seq<i32>) -> KeyLookup
    decreases path.len(),
{
    if path.len() == 0 {
        KeyLookup::Prefix
    } else if !m.contains_key(path[0]) {
        KeyLookup::Unbound
    } else {
        match m[path[0]] {
            CommandKeybind::SimpleKeybind(c) => if path.len() == 1 {
                KeyLookup::Command(c)
            } else {
                KeyLookup::Unbound
            },
            CommandKeybind::CompositeKeybind(sub) => lookup(sub@, path.drop_first()),
        }
    }
}

/// The codes of the keys named by `keys`, up to the first name that is no key.
pub open spec fn spec_key_codes(keys: Seq<Seq<char>>) -> Seq<i32>
    decreases keys.len(),
{
    if keys.len() == 0 {
        Seq::empty()
    } else {
        match spec_key_code(keys[0]) {
            Some(c) => seq![c] + spec_key_codes(keys.drop_first()),
            None => Seq::empty(),
        }
    }
}

/// Whether binding `keys` in `m` would bind longer keys under a key that
/// already runs a command on its own.
pub open spec fn spec_ambiguous(m: Map<i32, CommandKeybind>, keys: Seq<Seq<char>>) -> bool
    decreases keys.len(),
{
    if keys.len() <= 1 {
        false
    } else {
        match spec_key_code(keys[0]) {
            Some(c) => if m.contains_key(c) {
                match m[c] {
                    CommandKeybind::SimpleKeybind(_) => true,
                    CommandKeybind::CompositeKeybind(sub) => spec_ambiguous(sub@, keys.drop_first()),
                }
            } else {
                false
            },
            None => false,
        }
    }
}

/// What `path` leads to after `cmd` has been bound to `keys` in the bindings
/// `m`: the keys run the command, the keys before them start sequences, and
/// longer sequences through them are unbound. Where a name in `keys` is no
/// key, only the keys before it are made to start sequences.
pub open spec fn lookup_after_insert(
    m: Map<i32, CommandKeybind>,
    keys: Seq<Seq<char>>,
    cmd: KeyCommand,
    path: Seq<i32>,
) -> KeyLookup {
    let t = spec_key_codes(keys);
    if t.len() == keys.len() {
        if path == t {
            KeyLookup::Command(cmd)
        } else if 0 < path.len() < t.len() && path == t.take(path.len() as int) {
            KeyLookup::Prefix
        } else if path.len() > t.len() && path.take(t.len() as int) == t {
            KeyLookup::Unbound
        } else {
            lookup(m, path)
        }
    } else {
        if 0 < path.len() <= t.len() && path == t.take(path.len() as int) {
            KeyLookup::Prefix
        } else {
            lookup(m, path)
        }
    }
}

/// The names of `keys` as strings of characters.
pub open spec fn keys_view(keys: &[&str]) -> Seq<Seq<char>> {
    keys@.map_values(|k: &str| k@)
}

impl JoshutoKeymap {
    /// The key code that `keycode` names, as `spec_key_code` says.
    pub fn from_str(keycode: &str) -> (r: Option<i32>)
        ensures
            r == spec_key_code(keycode@),
    {
        let v = str_to_chars(keycode);
        if v.len() == 1 {
            let c = v[0];
            if (c as u32) < 128 {
                Some(c as u32 as i32)
            } else {
                None
            }
        } else if chars_eq(v.as_slice(), "Comma") {
            Some(44)
        } else if chars_eq(v.as_slice(), "Tab") {
            Some(TAB)
        } else if chars_eq(v.as_slice(), "Space") {
            Some(32)
        } else if chars_eq(v.as_slice(), "Backspace") {
            Some(BACKSPACE)
        } else if chars_eq(v.as_slice(), "Delete") {
            Some(KEY_DC)
        } else if chars_eq(v.as_slice(), "Enter") {
            Some(ENTER)
        } else if chars_eq(v.as_slice(), "Escape") {
            Some(ESCAPE)
        } else if chars_eq(v.as_slice(), "F0") {
            Some(KEY_F0)
        } else if chars_eq(v.as_slice(), "F1") {
            Some(KEY_F0 + 1)
        } else if chars_eq(v.as_slice(), "F2") {
            Some(KEY_F0 + 2)
        } else if chars_eq(v.as_slice(), "F3") {
            Some(KEY_F0 + 3)
        } else if chars_eq(v.as_slice(), "F4") {
            Some(KEY_F0 + 4)
        } else if chars_eq(v.as_slice(), "F5") {
            Some(KEY_F0 + 5)
        } else if chars_eq(v.as_slice(), "F6") {
            Some(KEY_F0 + 6)
        } else if chars_eq(v.as_slice(), "F7") {
            Some(KEY_F0 + 7)
        } else if chars_eq(v.as_slice(), "F8") {
            Some(KEY_F0 + 8)
        } else if chars_eq(v.as_slice(), "F9") {
            Some(KEY_F0 + 9)
        } else if chars_eq(v.as_slice(), "F10") {
            Some(KEY_F0 + 10)
        } else if chars_eq(v.as_slice(), "F11") {
            Some(KEY_F0 + 11)
        } else if chars_eq(v.as_slice(), "F12") {
            Some(KEY_F0 + 12)
        } else if chars_eq(v.as_slice(), "F13") {
            Some(KEY_F0 + 13)
        } else if chars_eq(v.as_slice(), "F14") {
            Some(KEY_F0 + 14)
        } else if chars_eq(v.as_slice(), "F15") {
            Some(KEY_F0 + 15)
        } else if chars_eq(v.as_slice(), "Insert") {
            Some(KEY_IC)
        } else if chars_eq(v.as_slice(), "PageUp") {
            Some(KEY_PPAGE)
        } else if chars_eq(v.as_slice(), "PageDown") {
            Some(KEY_NPAGE)
        } else if chars_eq(v.as_slice(), "PrintScreen") {
            Some(KEY_PRINT)
        } else if chars_eq(v.as_slice(), "Up") {
            Some(KEY_UP)
        } else if chars_eq(v.as_slice(), "Down") {
            Some(KEY_DOWN)
        } else if chars_eq(v.as_slice(), "Left") {
            Some(KEY_LEFT)
        } else if chars_eq(v.as_slice(), "Right") {
            Some(KEY_RIGHT)
        } else if chars_eq(v.as_slice(), "Home") {
            Some(KEY_HOME)
        } else if chars_eq(v.as_slice(), "End") {
            Some(KEY_END)
        } else {
            None
        }
    }
}

/// Why a line of a keymap file bound nothing.
#[derive(Clone, Debug)]
pub enum KeymapError {
    /// The keys would bind longer keys under a key that already runs a command.
    Ambiguous,
    /// The line names a command that does not exist, or gives it too few arguments.
    UnknownCommand(String),
    /// The line starts with a word other than `map`.
    UnknownDirective(String),
}

proof fn lemma_key_codes_first(keys: Seq<Seq<char>>, s: i32)
    requires
        keys.len() > 0,
        spec_key_code(keys[0]) == Some(s),
    ensures
        spec_key_codes(keys) == seq![s] + spec_key_codes(keys.drop_first()),
        spec_key_codes(keys).len() == keys.len() <==> spec_key_codes(keys.drop_first()).len()
            == keys.drop_first().len(),
{
}

proof fn lemma_key_codes_len(keys: Seq<Seq<char>>)
    ensures
        spec_key_codes(keys).len() <= keys.len(),
    decreases keys.len(),
{
    if keys.len() > 0 {
        lemma_key_codes_len(keys.drop_first());
    }
}

/// Binding keys that start with `s` leaves sequences that start with another
/// key as they were.
proof fn lemma_lookup_after_insert_other(
    m: Map<i32, CommandKeybind>,
    keys: Seq<Seq<char>>,
    cmd: KeyCommand,
    s: i32,
    p: Seq<i32>,
)
    requires
        keys.len() > 0,
        spec_key_code(keys[0]) == Some(s),
        p.len() > 0,
        p[0] != s,
    ensures
        lookup_after_insert(m, keys, cmd, p) == lookup(m, p),
{
    let t = spec_key_codes(keys);
    lemma_key_codes_first(keys, s);
    assert(t[0] == s);
    assert(p != t);
    if 0 < p.len() <= t.len() {
        assert(t.take(p.len() as int)[0] == s);
    }
    if p.len() > t.len() {
        assert(p.take(t.len() as int)[0] == p[0]);
    }
}

/// Binding keys that start with `s` acts on sequences that start with `s` as
/// binding the rest of the keys acts on the bindings under `s`.
proof fn lemma_lookup_after_insert_step(
    m: Map<i32, CommandKeybind>,
    keys: Seq<Seq<char>>,
    cmd: KeyCommand,
    s: i32,
    sub: Map<i32, CommandKeybind>,
    p: Seq<i32>,
)
    requires
        keys.len() >= 2,
        spec_key_code(keys[0]) == Some(s),
        p.len() > 0,
        p[0] == s,
        m.contains_key(s) ==> (m[s] matches CommandKeybind::CompositeKeybind(h) && h@ == sub),
        !m.contains_key(s) ==> sub == Map::<i32, CommandKeybind>::empty(),
    ensures
        lookup_after_insert(m, keys, cmd, p) == lookup_after_insert(
            sub,
            keys.drop_first(),
            cmd,
            p.drop_first(),
        ),
{
    let t = spec_key_codes(keys);
    let rest = keys.drop_first();
    let t2 = spec_key_codes(rest);
    let q = p.drop_first();
    lemma_key_codes_first(keys, s);
    lemma_key_codes_len(rest);
    assert(t =~= seq![s] + t2);
    assert(p =~= seq![s] + q);
    assert(p == t <==> q == t2) by {
        if p == t {
            assert(q =~= t2);
        }
    }
    assert forall|k: int| 0 <= k <= t2.len() implies #[trigger] t.take(k + 1) =~= seq![s] + t2.take(k) by {}
    if q.len() <= t2.len() {
        assert(p == t.take(p.len() as int) <==> q == t2.take(q.len() as int)) by {
            assert(t.take(p.len() as int) =~= seq![s] + t2.take(q.len() as int));
            if p == t.take(p.len() as int) {
                assert forall|k: int| 0 <= k < q.len() implies q[k] == t2.take(q.len() as int)[k] by {
                    assert(p[k + 1] == t.take(p.len() as int)[k + 1]);
                }
                assert(q =~= t2.take(q.len() as int));
            }
        }
    }
    if q.len() >= t2.len() {
        assert(p.take(t.len() as int) == t <==> q.take(t2.len() as int) == t2) by {
            assert(p.take(t.len() as int) =~= seq![s] + q.take(t2.len() as int));
            if p.take(t.len() as int) == t {
                assert forall|k: int| 0 <= k < t2.len() implies q.take(t2.len() as int)[k]
                    == t2[k] by {
                    assert(p.take(t.len() as int)[k + 1] == t[k + 1]);
                }
                assert(q.take(t2.len() as int) =~= t2);
            }
        }
    }
    if q.len() == 0 {
        assert(lookup(sub, q) == KeyLookup::Prefix);
    } else {
        assert(lookup(m, p) == lookup(sub, q));
    }
}

/// Whether binding `keys[from..]` in `map` would be ambiguous, as `spec_ambiguous` says.
fn ambiguous_from(map: &HashMap<i32, CommandKeybind>, keys: &[&str], from: usize) -> (r: bool)
    requires
        from <= keys@.len(),
    ensures
        r == spec_ambiguous(map@, keys_view(keys).subrange(from as int, keys@.len() as int)),
    decreases keys@.len() - from,
{
    let ghost ks = keys_view(keys).subrange(from as int, keys@.len() as int);
    if keys.len() - from <= 1 {
        return false;
    }
    assert(ks[0] == keys@[from as int]@);
    assert(ks.drop_first() =~= keys_view(keys).subrange(from + 1, keys@.len() as int));
    match JoshutoKeymap::from_str(keys[from]) {
        Some(s) => match map.get(&s) {
            Some(CommandKeybind::SimpleKeybind(_)) => true,
            Some(CommandKeybind::CompositeKeybind(sub)) => ambiguous_from(sub, keys, from + 1),
            None => false,
        },
        None => false,
    }
}

/// Binds `keycommand` to `keys[from..]` in `map`, as `lookup_after_insert` says.
fn insert_from(
    map: &mut HashMap<i32, CommandKeybind>,
    keycommand: KeyCommand,
    keys: &[&str],
    from: usize,
)
    requires
        from < keys@.len(),
        !spec_ambiguous(old(map)@, keys_view(keys).subrange(from as int, keys@.len() as int)),
    ensures
        forall|p: Seq<i32>|
            #[trigger] lookup(final(map)@, p) == lookup_after_insert(
                old(map)@,
                keys_view(keys).subrange(from as int, keys@.len() as int),
                keycommand,
                p,
            ),
    decreases keys@.len() - from,
{
    let ghost ks = keys_view(keys).subrange(from as int, keys@.len() as int);
    let ghost m0 = map@;
    assert(ks[0] == keys@[from as int]@);
    proof {
        lemma_key_codes_len(ks);
    }
    match JoshutoKeymap::from_str(keys[from]) {
        Some(s) => {
            if keys.len() - from == 1 {
                map.insert(s, CommandKeybind::SimpleKeybind(keycommand));
                proof {
                    lemma_key_codes_first(ks, s);
                    assert(ks.drop_first() =~= Seq::<Seq<char>>::empty());
                    assert(spec_key_codes(ks) =~= seq![s]);
                    assert forall|p: Seq<i32>|
                        #[trigger] lookup(map@, p) == lookup_after_insert(m0, ks, keycommand, p) by {
                        if p.len() > 0 && p[0] != s {
                            lemma_lookup_after_insert_other(m0, ks, keycommand, s, p);
                        } else if p.len() > 1 {
                            assert(p.take(1) =~= seq![s]);
                        } else if p.len() == 1 {
                            assert(p =~= seq![s]);
                        }
                    }
                }
            } else {
                let entry = map.remove(&s);
                let ghost m1 = map@;
                let mut sub: HashMap<i32, CommandKeybind> = match entry {
                    Some(CommandKeybind::CompositeKeybind(m)) => m,
                    _ => HashMap::new(),
                };
                let ghost sub0 = sub@;
                proof {
                    assert(ks.drop_first() =~= keys_view(keys).subrange(
                        from + 1,
                        keys@.len() as int,
                    ));
                    if !m0.contains_key(s) {
                        assert(sub0 =~= Map::<i32, CommandKeybind>::empty());
                    }
                }
                insert_from(&mut sub, keycommand, keys, from + 1);
                let ghost sub1 = sub@;
                map.insert(s, CommandKeybind::CompositeKeybind(sub));
                proof {
                    assert forall|p: Seq<i32>|
                        #[trigger] lookup(map@, p) == lookup_after_insert(m0, ks, keycommand, p) by {
                        if p.len() > 0 && p[0] != s {
                            lemma_lookup_after_insert_other(m0, ks, keycommand, s, p);
                            assert(map@[p[0]] == m0[p[0]] || !m0.contains_key(p[0]));
                        } else if p.len() > 0 {
                            lemma_lookup_after_insert_step(m0, ks, keycommand, s, sub0, p);
                            assert(lookup(map@, p) == lookup(sub1, p.drop_first()));
                            assert(lookup(sub1, p.drop_first()) == lookup_after_insert(
                                sub0,
                                ks.drop_first(),
                                keycommand,
                                p.drop_first(),
                            ));
                        }
                    }
                }
            }
        },
        None => {
            proof {
                assert(spec_key_codes(ks) =~= Seq::<i32>::empty());
            }
        },
    }
}

impl JoshutoKeymap {
    /// Binds `keycommand` to the keys named by `keys`, pressed in order. The
    /// binding is refused, and `map` left as it was, where it would bind
    /// longer keys under a key that already runs a command.
    pub fn insert_keycommand(
        map: &mut HashMap<i32, CommandKeybind>,
        keycommand: KeyCommand,
        keys: &[&str],
    ) -> (r: Result<(), KeymapError>)
        requires
            keys@.len() > 0,
        ensures
            r is Err <==> spec_ambiguous(old(map)@, keys_view(keys)),
            r is Err ==> *final(map) == *old(map) && r matches Err(KeymapError::Ambiguous),
            r is Ok ==> forall|p: Seq<i32>|
                #[trigger] lookup(final(map)@, p) == lookup_after_insert(
                    old(map)@,
                    keys_view(keys),
                    keycommand,
                    p,
                ),
    {
        assert(keys_view(keys).subrange(0, keys@.len() as int) =~= keys_view(keys));
        if ambiguous_from(map, keys, 0) {
            Err(KeymapError::Ambiguous)
        } else {
            insert_from(map, keycommand, keys, 0);
            Ok(())
        }
    }
}

/// The keymap line `line` without its comment, which starts at the first `#`.
pub open spec fn spec_strip_comment(line: Seq<char>) -> Seq<char> {
    match spec_find(line, '#') {
        Some(i) => line.take(i),
        None => line,
    }
}

/// The words of the keymap line `line`: those of the line without its
/// comment, ended by a newline, or none where nothing is left of the line.
pub open spec fn spec_line_words(line: Seq<char>) -> Seq<Seq<char>> {
    let l = spec_strip_comment(line);
    if l.len() == 0 {
        Seq::empty()
    } else {
        spec_split_shell_style(l.push('\n'))
    }
}

/// The arguments that follow the command name in the words of a `map` line.
pub open spec fn spec_map_args(words: Seq<Seq<char>>) -> Option<Seq<Seq<char>>> {
    if words.len() > 3 {
        Some(words.skip(3))
    } else {
        None
    }
}

/// Whether `k` is the command that the words of a `map` line name: exactly
/// the one `from_args` builds for a name other than `cd`; for `cd`, a move
/// to some directory, and none without arguments.
pub open spec fn spec_map_command(words: Seq<Seq<char>>, k: Option<KeyCommand>) -> bool {
    let name = words[2];
    let args = spec_map_args(words);
    if name == "cd"@ {
        (args is None ==> k is None) && (k is Some ==> k->0 is ChangeDirectory)
    } else {
        spec_from_args(name, args, k)
    }
}

/// Whether a line with the words `words` changes `old` into `new` and gives
/// `r`, as reading the line with the command `k` does.
pub open spec fn spec_line_outcome(
    words: Seq<Seq<char>>,
    k: Option<KeyCommand>,
    old: HashMap<i32, CommandKeybind>,
    new: HashMap<i32, CommandKeybind>,
    r: Result<(), KeymapError>,
) -> bool {
    let keys = spec_split_char(words[1], ',');
    match k {
        None => new == old && (r matches Err(KeymapError::UnknownCommand(n)) && n@ == words[2]),
        Some(cmd) => {
            &&& (r is Err <==> spec_ambiguous(old@, keys))
            &&& (r is Err ==> new == old && r matches Err(KeymapError::Ambiguous))
            &&& (r is Ok ==> forall|p: Seq<i32>|
                #[trigger] lookup(new@, p) == lookup_after_insert(old@, keys, cmd, p))
        },
    }
}

impl JoshutoKeymap {
    /// Reads one line of a keymap file into `map`. A line is a comment after
    /// `#`; a line with no words does nothing; a line `map KEYS COMMAND ARGS..`
    /// binds the command to the keys named in `KEYS`, separated by commas.
    pub fn parse_line(map: &mut HashMap<i32, CommandKeybind>, line: String) -> (r: Result<
        (),
        KeymapError,
    >)
        requires
            spec_line_words(line@).len() > 0 && spec_line_words(line@)[0] == "map"@
                ==> spec_line_words(line@).len() >= 3,
            spec_line_words(line@).len() > 3 && spec_line_words(line@)[0] == "map"@
                && spec_line_words(line@)[2] == "cd"@ ==> forall|i: int|
                0 <= i < spec_line_words(line@)[3].len() ==> spec_line_words(line@)[3][i] != '\0',
        ensures
            ({
                let words = spec_line_words(line@);
                &&& words.len() == 0 ==> r is Ok && *final(map) == *old(map)
                &&& words.len() > 0 && words[0] != "map"@ ==> *final(map) == *old(map) && (
                r matches Err(KeymapError::UnknownDirective(n)) && n@ == words[0])
                &&& words.len() > 0 && words[0] == "map"@ ==> exists|k: Option<KeyCommand>|
                    spec_map_command(words, k) && spec_line_outcome(
                        words,
                        k,
                        *old(map),
                        *final(map),
                        r,
                    )
            }),
    {
        let v = str_to_chars(line.as_str());
        proof {
            lemma_find(v@, '#');
        }
        assert(v@ == line@);
        let l: Vec<char> = match find_char(v.as_slice(), '#') {
            Some(i) => {
                assert(spec_find(line@, '#') == Some(i as int));
                let l = sub_chars(v.as_slice(), 0, i);
                assert(l@ =~= line@.take(i as int));
                l
            },
            None => v,
        };
        assert(l@ == spec_strip_comment(line@));
        if l.len() == 0 {
            return Ok(());
        }
        let mut l2 = l;
        l2.push('\n');
        let text = seq_to_string(&l2);
        let args = split_shell_style(&text);
        let ghost words = args@.map_values(|w: &str| w@);
        assert(words == spec_line_words(line@));
        if args.len() == 0 {
            return Ok(());
        }
        let first = str_to_chars(args[0]);
        if !chars_eq(first.as_slice(), "map") {
            return Err(KeymapError::UnknownDirective(String::from_str(args[0])));
        }
        assert(args@[1]@ == words[1]);
        assert(args@[2]@ == words[2]);
        let keys_vec = split_char(args[1], ',');
        proof {
            lemma_split_char_nonempty(words[1], ',');
        }
        let mut rest: Vec<String> = Vec::new();
        let mut i: usize = 3;
        while i < args.len()
            invariant
                3 <= i <= args@.len(),
                words == args@.map_values(|w: &str| w@),
                rest@.map_values(|s: String| s@) == words.subrange(3, i as int),
            decreases args@.len() - i,
        {
            assert(args@[i as int]@ == words[i as int]);
            let ghost before = rest@.map_values(|s: String| s@);
            let w = String::from_str(args[i]);
            rest.push(w);
            proof {
                assert(rest@.map_values(|s: String| s@) =~= before.push(w@));
                assert(rest@.map_values(|s: String| s@) =~= words.subrange(3, i + 1));
            }
            i = i + 1;
        }
        let ghost old_map = *map;
        let command = if args.len() > 3 {
            proof {
                assert(words.skip(3) =~= words.subrange(3, args@.len() as int));
                assert(args_view(Some(&rest)) == spec_map_args(words));
                assert(rest@.map_values(|s: String| s@)[0] == words[3]);
                assert(rest@[0]@ == words[3]);
            }
            from_args(args[2], Some(&rest))
        } else {
            from_args(args[2], None)
        };
        proof {
            assert(spec_map_command(words, command));
        }
        match command {
            Some(cmd) => {
                let r = JoshutoKeymap::insert_keycommand(map, cmd, keys_vec.as_slice());
                proof {
                    assert(spec_line_outcome(words, command, old_map, *map, r));
                }
                r
            },
            None => Err(KeymapError::UnknownCommand(String::from_str(args[2]))),
        }
    }
}

/// A key with one command bound to it.
fn simple(c: KeyCommand) -> (r: CommandKeybind)
    ensures
        r == CommandKeybind::SimpleKeybind(c),
{
    CommandKeybind::SimpleKeybind(c)
}

/// The key code of the ASCII character `c`.
pub open spec fn ch(c: char) -> i32 {
    c as u32 as i32
}

impl JoshutoKeymap {
    /// The bindings used where no keymap file is found.
    pub fn new() -> (r: Self)
        ensures
            r.keymaps@.dom() == set![
                ch('q'), KEY_UP, ch('k'), KEY_DOWN, ch('j'), KEY_LEFT, ch('h'), KEY_RIGHT, ch('l'),
                ENTER, ch('r'), KEY_PPAGE, KEY_NPAGE, KEY_HOME, KEY_END, KEY_DC, ch('a'), ch('z'),
                ch('d'), ch('y'), ch('p'), ch('m'),
            ],
            lookup(r.keymaps@, seq![ch('q')]) == KeyLookup::Command(KeyCommand::Quit(Quit)),
            lookup(r.keymaps@, seq![KEY_UP]) == KeyLookup::Command(
                KeyCommand::CursorMove(CursorMove { movement: -1i32 }),
            ),
            lookup(r.keymaps@, seq![ch('k')]) == KeyLookup::Command(
                KeyCommand::CursorMove(CursorMove { movement: -1i32 }),
            ),
            lookup(r.keymaps@, seq![KEY_DOWN]) == KeyLookup::Command(
                KeyCommand::CursorMove(CursorMove { movement: 1 }),
            ),
            lookup(r.keymaps@, seq![ch('j')]) == KeyLookup::Command(
                KeyCommand::CursorMove(CursorMove { movement: 1 }),
            ),
            lookup(r.keymaps@, seq![KEY_LEFT]) == KeyLookup::Command(
                KeyCommand::ParentDirectory(ParentDirectory),
            ),
            lookup(r.keymaps@, seq![ch('h')]) == KeyLookup::Command(
                KeyCommand::ParentDirectory(ParentDirectory),
            ),
            lookup(r.keymaps@, seq![KEY_RIGHT]) == KeyLookup::Command(KeyCommand::OpenFile(OpenFile)),
            lookup(r.keymaps@, seq![ch('l')]) == KeyLookup::Command(KeyCommand::OpenFile(OpenFile)),
            lookup(r.keymaps@, seq![ENTER]) == KeyLookup::Command(KeyCommand::OpenFile(OpenFile)),
            lookup(r.keymaps@, seq![ch('r')]) == KeyLookup::Command(
                KeyCommand::OpenFileWith(OpenFileWith),
            ),
            lookup(r.keymaps@, seq![KEY_PPAGE]) == KeyLookup::Command(
                KeyCommand::CursorMovePageUp(CursorMovePageUp),
            ),
            lookup(r.keymaps@, seq![KEY_NPAGE]) == KeyLookup::Command(
                KeyCommand::CursorMovePageDown(CursorMovePageDown),
            ),
            lookup(r.keymaps@, seq![KEY_HOME]) == KeyLookup::Command(
                KeyCommand::CursorMoveHome(CursorMoveHome),
            ),
            lookup(r.keymaps@, seq![KEY_END]) == KeyLookup::Command(
                KeyCommand::CursorMoveEnd(CursorMoveEnd),
            ),
            lookup(r.keymaps@, seq![KEY_DC]) == KeyLookup::Command(KeyCommand::DeleteFiles(DeleteFiles)),
            lookup(r.keymaps@, seq![ch('a')]) == KeyLookup::Command(
                KeyCommand::RenameFile(RenameFile { method: RenameFileMethod::Append }),
            ),
            lookup(r.keymaps@, seq![ch('z'), ch('h')]) == KeyLookup::Command(
                KeyCommand::ToggleHiddenFiles(ToggleHiddenFiles),
            ),
            lookup(r.keymaps@, seq![ch('d'), ch('d')]) == KeyLookup::Command(
                KeyCommand::CutFiles(CutFiles),
            ),
            lookup(r.keymaps@, seq![ch('d'), ch('D')]) == KeyLookup::Command(
                KeyCommand::DeleteFiles(DeleteFiles),
            ),
            lookup(r.keymaps@, seq![ch('y'), ch('y')]) == KeyLookup::Command(
                KeyCommand::CopyFiles(CopyFiles),
            ),
            lookup(r.keymaps@, seq![ch('p'), ch('p')]) == KeyLookup::Command(
                KeyCommand::PasteFiles(
                    PasteFiles { options: CopyOptions { overwrite: false, skip_exist: false } },
                ),
            ),
            lookup(r.keymaps@, seq![ch('p'), ch('o')]) == KeyLookup::Command(
                KeyCommand::PasteFiles(
                    PasteFiles { options: CopyOptions { overwrite: true, skip_exist: false } },
                ),
            ),
            lookup(r.keymaps@, seq![ch('m'), ch('k')]) == KeyLookup::Command(
                KeyCommand::NewDirectory(NewDirectory),
            ),
            forall|c: i32| #[trigger] r.keymaps@.contains_key(c) && (c == ch('z') || c == ch('d') || c
                == ch('y') || c == ch('p') || c == ch('m')) ==> lookup(r.keymaps@, seq![c])
                == KeyLookup::Prefix,
            r.keymaps@[ch('z')] matches CommandKeybind::CompositeKeybind(m) && m@.dom() == set![ch('h')],
            r.keymaps@[ch('d')] matches CommandKeybind::CompositeKeybind(m) && m@.dom() == set![
                ch('d'),
                ch('D'),
            ],
            r.keymaps@[ch('y')] matches CommandKeybind::CompositeKeybind(m) && m@.dom() == set![ch('y')],
            r.keymaps@[ch('p')] matches CommandKeybind::CompositeKeybind(m) && m@.dom() == set![
                ch('p'),
                ch('o'),
            ],
            r.keymaps@[ch('m')] matches CommandKeybind::CompositeKeybind(m) && m@.dom() == set![ch('k')],
    {
        let mut keymaps: HashMap<i32, CommandKeybind> = HashMap::new();
        keymaps.insert('q' as u32 as i32, simple(KeyCommand::Quit(Quit::new())));
        keymaps.insert(KEY_UP, simple(KeyCommand::CursorMove(CursorMove::new(-1))));
        keymaps.insert('k' as u32 as i32, simple(KeyCommand::CursorMove(CursorMove::new(-1))));
        keymaps.insert(KEY_DOWN, simple(KeyCommand::CursorMove(CursorMove::new(1))));
        keymaps.insert('j' as u32 as i32, simple(KeyCommand::CursorMove(CursorMove::new(1))));
        keymaps.insert(KEY_LEFT, simple(KeyCommand::ParentDirectory(ParentDirectory::new())));
        keymaps.insert('h' as u32 as i32, simple(KeyCommand::ParentDirectory(ParentDirectory::new())));
        keymaps.insert(KEY_RIGHT, simple(KeyCommand::OpenFile(OpenFile::new())));
        keymaps.insert('l' as u32 as i32, simple(KeyCommand::OpenFile(OpenFile::new())));
        keymaps.insert(ENTER, simple(KeyCommand::OpenFile(OpenFile::new())));
        keymaps.insert('r' as u32 as i32, simple(KeyCommand::OpenFileWith(OpenFileWith::new())));
        keymaps.insert(KEY_PPAGE, simple(KeyCommand::CursorMovePageUp(CursorMovePageUp::new())));
        keymaps.insert(KEY_NPAGE, simple(KeyCommand::CursorMovePageDown(CursorMovePageDown::new())));
        keymaps.insert(KEY_HOME, simple(KeyCommand::CursorMoveHome(CursorMoveHome::new())));
        keymaps.insert(KEY_END, simple(KeyCommand::CursorMoveEnd(CursorMoveEnd::new())));
        keymaps.insert(KEY_DC, simple(KeyCommand::DeleteFiles(DeleteFiles::new())));
        keymaps.insert(
            'a' as u32 as i32,
            simple(KeyCommand::RenameFile(RenameFile::new(RenameFileMethod::Append))),
        );

        let mut sub_z: HashMap<i32, CommandKeybind> = HashMap::new();
        sub_z.insert('h' as u32 as i32, simple(KeyCommand::ToggleHiddenFiles(ToggleHiddenFiles::new())));
        let ghost z = sub_z@;
        keymaps.insert('z' as u32 as i32, CommandKeybind::CompositeKeybind(sub_z));

        let mut sub_d: HashMap<i32, CommandKeybind> = HashMap::new();
        sub_d.insert('d' as u32 as i32, simple(KeyCommand::CutFiles(CutFiles::new())));
        sub_d.insert('D' as u32 as i32, simple(KeyCommand::DeleteFiles(DeleteFiles::new())));
        let ghost d = sub_d@;
        keymaps.insert('d' as u32 as i32, CommandKeybind::CompositeKeybind(sub_d));

        let mut sub_y: HashMap<i32, CommandKeybind> = HashMap::new();
        sub_y.insert('y' as u32 as i32, simple(KeyCommand::CopyFiles(CopyFiles::new())));
        let ghost y = sub_y@;
        keymaps.insert('y' as u32 as i32, CommandKeybind::CompositeKeybind(sub_y));

        let mut sub_p: HashMap<i32, CommandKeybind> = HashMap::new();
        sub_p.insert('p' as u32 as i32, simple(KeyCommand::PasteFiles(PasteFiles::new(CopyOptions::new()))));
        let mut options = CopyOptions::new();
        options.overwrite = true;
        sub_p.insert('o' as u32 as i32, simple(KeyCommand::PasteFiles(PasteFiles::new(options))));
        let ghost pm = sub_p@;
        keymaps.insert('p' as u32 as i32, CommandKeybind::CompositeKeybind(sub_p));

        let mut sub_m: HashMap<i32, CommandKeybind> = HashMap::new();
        sub_m.insert('k' as u32 as i32, simple(KeyCommand::NewDirectory(NewDirectory::new())));
        let ghost mm = sub_m@;
        keymaps.insert('m' as u32 as i32, CommandKeybind::CompositeKeybind(sub_m));

        let r = JoshutoKeymap { keymaps };
        proof {
            reveal_with_fuel(lookup, 3);
            assert(r.keymaps@.dom() =~= set![
                ch('q'), KEY_UP, ch('k'), KEY_DOWN, ch('j'), KEY_LEFT, ch('h'), KEY_RIGHT, ch('l'),
                ENTER, ch('r'), KEY_PPAGE, KEY_NPAGE, KEY_HOME, KEY_END, KEY_DC, ch('a'), ch('z'),
                ch('d'), ch('y'), ch('p'), ch('m'),
            ]);
            assert(z.dom() =~= set![ch('h')]);
            assert(d.dom() =~= set![ch('d'), ch('D')]);
            assert(y.dom() =~= set![ch('y')]);
            assert(pm.dom() =~= set![ch('p'), ch('o')]);
            assert(mm.dom() =~= set![ch('k')]);
            assert(seq![ch('z'), ch('h')].drop_first() =~= seq![ch('h')]);
            assert(seq![ch('d'), ch('d')].drop_first() =~= seq![ch('d')]);
            assert(seq![ch('d'), ch('D')].drop_first() =~= seq![ch('D')]);
            assert(seq![ch('y'), ch('y')].drop_first() =~= seq![ch('y')]);
            assert(seq![ch('p'), ch('p')].drop_first() =~= seq![ch('p')]);
            assert(seq![ch('p'), ch('o')].drop_first() =~= seq![ch('o')]);
            assert(seq![ch('m'), ch('k')].drop_first() =~= seq![ch('k')]);
            assert forall|c: i32| #[trigger] r.keymaps@.contains_key(c) && (c == ch('z') || c == ch(
                'd',
            ) || c == ch('y') || c == ch('p') || c == ch('m')) implies lookup(r.keymaps@, seq![c])
                == KeyLookup::Prefix by {
                assert(seq![c].drop_first() =~= Seq::<i32>::empty());
            }
        }
        r
    }
}

/// What a key pressed while reading a sequence of keys does.
#[derive(Debug)]
pub enum KeyStep<'a> {
    /// The reading is given up (Escape).
    Cancel,
    /// The keys so far run this command.
    Run(&'a KeyCommand),
    /// The keys so far start longer sequences, bound here by their next key.
    Continue(&'a HashMap<i32, CommandKeybind>),
    /// Nothing is bound to the keys so far.
    Unbound,
}

/// What pressing `key` does while reading a sequence of keys from the
/// bindings `map`: Escape gives up, otherwise the binding of the key decides.
pub fn next_key_step<'a>(map: &'a HashMap<i32, CommandKeybind>, key: i32) -> (r: KeyStep<'a>)
    ensures
        key == ESCAPE ==> r is Cancel,
        key != ESCAPE && !map@.contains_key(key) ==> r is Unbound,
        key != ESCAPE && map@.contains_key(key) ==> match map@[key] {
            CommandKeybind::SimpleKeybind(c) => r matches KeyStep::Run(x) && *x == c,
            CommandKeybind::CompositeKeybind(m) => r matches KeyStep::Continue(x) && *x == m,
        },
{
    if key == ESCAPE {
        return KeyStep::Cancel;
    }
    match map.get(&key) {
        Some(CommandKeybind::SimpleKeybind(c)) => KeyStep::Run(c),
        Some(CommandKeybind::CompositeKeybind(m)) => KeyStep::Continue(m),
        None => KeyStep::Unbound,
    }
}

/// The command that the keys `keys[from..]`, pressed in order, run from the
/// bindings `map`, where they run one.
fn resolve_from<'a>(map: &'a HashMap<i32, CommandKeybind>, keys: &[i32], from: usize) -> (r: Option<
    &'a KeyCommand,
>)
    requires
        from <= keys@.len(),
    ensures
        match lookup(map@, keys@.subrange(from as int, keys@.len() as int)) {
            KeyLookup::Command(c) => r matches Some(x) && *x == c,
            _ => r is None,
        },
    decreases keys@.len() - from,
{
    let ghost path = keys@.subrange(from as int, keys@.len() as int);
    if from == keys.len() {
        return None;
    }
    assert(path[0] == keys@[from as int]);
    assert(path.drop_first() =~= keys@.subrange(from + 1, keys@.len() as int));
    match map.get(&keys[from]) {
        Some(CommandKeybind::SimpleKeybind(c)) => if from + 1 == keys.len() {
            Some(c)
        } else {
            None
        },
        Some(CommandKeybind::CompositeKeybind(m)) => resolve_from(m, keys, from + 1),
        None => None,
    }
}

impl JoshutoKeymap {
    /// The command that the keys `keys`, pressed in order, run, where they
    /// run one: what `lookup` finds.
    pub fn resolve_keys<'a>(&'a self, keys: &[i32]) -> (r: Option<&'a KeyCommand>)
        ensures
            match lookup(self.keymaps@, keys@) {
                KeyLookup::Command(c) => r matches Some(x) && *x == c,
                _ => r is None,
            },
    {
        assert(keys@.subrange(0, keys@.len() as int) =~= keys@);
        resolve_from(&self.keymaps, keys, 0)
    }
}

/// Binding a command to keys that all name keys makes exactly those keys run it.
pub proof fn lemma_bound_keys_run_command(
    m: Map<i32, CommandKeybind>,
    keys: Seq<Seq<char>>,
    cmd: KeyCommand,
)
    requires
        spec_key_codes(keys).len() == keys.len(),
    ensures
        lookup_after_insert(m, keys, cmd, spec_key_codes(keys)) == KeyLookup::Command(cmd),
{
}

/// Binding a command to keys leaves every sequence that starts with another
/// key as it was.
pub proof fn lemma_binding_keeps_other_keys(
    m: Map<i32, CommandKeybind>,
    keys: Seq<Seq<char>>,
    cmd: KeyCommand,
    path: Seq<i32>,
)
    requires
        keys.len() > 0,
        spec_key_code(keys[0]) is Some,
        path.len() > 0,
        path[0] != spec_key_code(keys[0])->0,
    ensures
        lookup_after_insert(m, keys, cmd, path) == lookup(m, path),
{
    lemma_lookup_after_insert_other(m, keys, cmd, spec_key_code(keys[0])->0, path);
}

} // verus!
