use vstd::prelude::*;

use crate::numparse::{parse_bool, parse_i32, spec_parse_bool, spec_parse_i32};
use crate::text::{chars_eq, is_whitespace, spec_is_whitespace, str_to_chars, sub_chars};

use self::change_directory::ChangeDirectory;
use self::cursor_move::{CursorMove, CursorMoveEnd, CursorMoveHome, CursorMovePageDown, CursorMovePageUp};
use self::delete_file::DeleteFiles;
use self::file_operation::{CopyFiles, CopyOptions, CutFiles, PasteFiles};
use self::new_directory::NewDirectory;
use self::open_file::{OpenFile, OpenFileWith};
use self::parent_directory::ParentDirectory;
use self::quit::Quit;
use self::reload_dir::ReloadDirList;
use self::rename_file::{RenameFile, RenameFileMethod};
use self::search::Search;
use self::selection::SelectFiles;
use self::set_mode::SetMode;
use self::show_hidden::ToggleHiddenFiles;
use self::tab_operation::{CloseTab, NewTab};
use self::tab_switch::TabSwitch;
use self::trash_files::TrashFiles;

pub mod change_directory;
pub mod cursor_move;
pub mod delete_file;
pub mod file_operation;
pub mod new_directory;
pub mod open_file;
pub mod parent_directory;
pub mod quit;
pub mod reload_dir;
pub mod rename_file;
pub mod search;
pub mod selection;
pub mod set_mode;
pub mod show_hidden;
pub mod tab_operation;
pub mod tab_switch;
pub mod trash_files;

verus! {

broadcast use vstd::string::group_string_axioms;

/// A command that a key can be bound to.
pub trait JoshutoCommand {}

/// The first position at or after `from` where `s` holds `c`.
pub open spec fn find_from(s: Seq<char>, c: char, from: int) -> Option<int>
    decreases s.len() - from,
{
    if from < 0 || from >= s.len() {
        None
    } else if s[from] == c {
        Some(from)
    } else {
        find_from(s, c, from + 1)
    }
}

/// The first position at or after `from` where `s` holds whitespace.
pub open spec fn find_whitespace_from(s: Seq<char>, from: int) -> Option<int>
    decreases s.len() - from,
{
    if from < 0 || from >= s.len() {
        None
    } else if spec_is_whitespace(s[from]) {
        Some(from)
    } else {
        find_whitespace_from(s, from + 1)
    }
}

/// The words of `s` from position `i` on, split as a shell splits them: a word
/// in single or double quotes runs to the next such quote and loses its quotes,
/// any other word runs to the next whitespace. A word that nothing closes (an
/// open quote, or a last word with no whitespace after it) is dropped with
/// everything after it.
pub open spec fn spec_split_from(s: Seq<char>, i: int) -> Seq<Seq<char>>
    decreases s.len() - i,
{
    if i < 0 || i >= s.len() {
        Seq::empty()
    } else if spec_is_whitespace(s[i]) {
        spec_split_from(s, i + 1)
    } else if s[i] == '\'' || s[i] == '"' {
        match find_from(s, s[i], i + 1) {
            Some(j) => if i < j && j < s.len() {
                seq![s.subrange(i + 1, j)] + spec_split_from(s, j + 1)
            } else {
                Seq::empty()
            },
            None => Seq::empty(),
        }
    } else {
        match find_whitespace_from(s, i + 1) {
            Some(j) => if i < j && j < s.len() {
                seq![s.subrange(i, j)] + spec_split_from(s, j + 1)
            } else {
                Seq::empty()
            },
            None => Seq::empty(),
        }
    }
}

/// The words of `s`, split as `spec_split_from` describes.
pub open spec fn spec_split_shell_style(s: Seq<char>) -> Seq<Seq<char>> {
    spec_split_from(s, 0)
}

proof fn lemma_find_from(s: Seq<char>, c: char, from: int)
    requires
        0 <= from,
    ensures
        match find_from(s, c, from) {
            Some(j) => from <= j < s.len() && s[j] == c && forall|k: int|
                from <= k < j ==> s[k] != c,
            None => forall|k: int| from <= k < s.len() ==> s[k] != c,
        },
    decreases s.len() - from,
{
    if from < s.len() && s[from] != c {
        lemma_find_from(s, c, from + 1);
    }
}

proof fn lemma_find_whitespace_from(s: Seq<char>, from: int)
    requires
        0 <= from,
    ensures
        match find_whitespace_from(s, from) {
            Some(j) => from <= j < s.len() && spec_is_whitespace(s[j]) && forall|k: int|
                from <= k < j ==> !spec_is_whitespace(s[k]),
            None => forall|k: int| from <= k < s.len() ==> !spec_is_whitespace(s[k]),
        },
    decreases s.len() - from,
{
    if from < s.len() && !spec_is_whitespace(s[from]) {
        lemma_find_whitespace_from(s, from + 1);
    }
}

/// A character that `s` never holds is held by none of its words.
pub proof fn lemma_split_from_lacks(s: Seq<char>, i: int, ch: char)
    requires
        forall|j: int| 0 <= j < s.len() ==> s[j] != ch,
    ensures
        forall|w: int, k: int|
            0 <= w < spec_split_from(s, i).len() && 0 <= k < spec_split_from(s, i)[w].len()
                ==> spec_split_from(s, i)[w][k] != ch,
    decreases s.len() - i,
{
    if 0 <= i < s.len() {
        if spec_is_whitespace(s[i]) {
            lemma_split_from_lacks(s, i + 1, ch);
            assert(spec_split_from(s, i) == spec_split_from(s, i + 1));
        } else if s[i] == '\'' || s[i] == '"' {
            match find_from(s, s[i], i + 1) {
                Some(j) => if i < j && j < s.len() {
                    lemma_split_from_lacks(s, j + 1, ch);
                    let r = spec_split_from(s, j + 1);
                    assert(spec_split_from(s, i).len() == r.len() + 1);
                    assert forall|w: int, k: int|
                        0 <= w < spec_split_from(s, i).len() && 0 <= k < spec_split_from(
                            s,
                            i,
                        )[w].len() implies spec_split_from(s, i)[w][k] != ch by {
                        if w > 0 {
                            assert(spec_split_from(s, i)[w] == r[w - 1]);
                        } else {
                            assert(spec_split_from(s, i)[0][k] == s[i + 1 + k]);
                        }
                    }
                },
                None => {},
            }
        } else {
            match find_whitespace_from(s, i + 1) {
                Some(j) => if i < j && j < s.len() {
                    lemma_split_from_lacks(s, j + 1, ch);
                    let r = spec_split_from(s, j + 1);
                    assert(spec_split_from(s, i).len() == r.len() + 1);
                    assert forall|w: int, k: int|
                        0 <= w < spec_split_from(s, i).len() && 0 <= k < spec_split_from(
                            s,
                            i,
                        )[w].len() implies spec_split_from(s, i)[w][k] != ch by {
                        if w > 0 {
                            assert(spec_split_from(s, i)[w] == r[w - 1]);
                        } else {
                            assert(spec_split_from(s, i)[0][k] == s[i + k]);
                        }
                    }
                },
                None => {},
            }
        }
    }
}

/// The first position at or after `from` where `v` holds `c`.
fn scan_for(v: &Vec<char>, c: char, from: usize) -> (r: Option<usize>)
    requires
        from <= v@.len(),
    ensures
        r == (match find_from(v@, c, from as int) {
            Some(j) => Some(j as usize),
            None => None::<usize>,
        }),
{
    let mut k = from;
    while k < v.len()
        invariant
            from <= k <= v@.len(),
            find_from(v@, c, from as int) == find_from(v@, c, k as int),
        decreases v@.len() - k,
    {
        if v[k] == c {
            return Some(k);
        }
        k = k + 1;
    }
    None
}

/// The first position at or after `from` where `v` holds whitespace.
fn scan_for_whitespace(v: &Vec<char>, from: usize) -> (r: Option<usize>)
    requires
        from <= v@.len(),
    ensures
        r == (match find_whitespace_from(v@, from as int) {
            Some(j) => Some(j as usize),
            None => None::<usize>,
        }),
{
    let mut k = from;
    while k < v.len()
        invariant
            from <= k <= v@.len(),
            find_whitespace_from(v@, from as int) == find_whitespace_from(v@, k as int),
        decreases v@.len() - k,
    {
        if is_whitespace(v[k]) {
            return Some(k);
        }
        k = k + 1;
    }
    None
}

/// Splits `line` into words as a shell does (see `spec_split_from`); each word
/// is a slice of `line`.
pub fn split_shell_style(line: &String) -> (r: Vec<&str>)
    ensures
        r@.map_values(|w: &str| w@) == spec_split_shell_style(line@),
{
    let s: &str = line.as_str();
    let v = str_to_chars(s);
    let n = v.len();
    let mut args: Vec<&str> = Vec::new();
    let mut i: usize = 0;
    while i < n
        invariant
            n == v@.len(),
            v@ == line@,
            s@ == line@,
            i <= n,
            args@.map_values(|w: &str| w@) + spec_split_from(v@, i as int) == spec_split_from(
                v@,
                0,
            ),
        decreases n - i,
    {
        let ch = v[i];
        let ghost before = args@.map_values(|w: &str| w@);
        if is_whitespace(ch) {
            i = i + 1;
        } else if ch == '\'' || ch == '"' {
            proof {
                lemma_find_from(v@, ch, i + 1);
            }
            match scan_for(&v, ch, i + 1) {
                Some(j) => {
                    let w = s.substring_char(i + 1, j);
                    args.push(w);
                    proof {
                        assert(args@.map_values(|w: &str| w@) =~= before.push(w@));
                        assert(before.push(w@) + spec_split_from(v@, j + 1) =~= before + (seq![
                            w@,
                        ] + spec_split_from(v@, j + 1)));
                    }
                    i = j + 1;
                },
                None => {
                    proof {
                        assert(spec_split_from(v@, i as int) =~= Seq::<Seq<char>>::empty());
                        assert(before + spec_split_from(v@, n as int) =~= before);
                    }
                    i = n;
                },
            }
        } else {
            proof {
                lemma_find_whitespace_from(v@, i + 1);
            }
            match scan_for_whitespace(&v, i + 1) {
                Some(j) => {
                    let w = s.substring_char(i, j);
                    args.push(w);
                    proof {
                        assert(args@.map_values(|w: &str| w@) =~= before.push(w@));
                        assert(before.push(w@) + spec_split_from(v@, j + 1) =~= before + (seq![
                            w@,
                        ] + spec_split_from(v@, j + 1)));
                    }
                    i = j + 1;
                },
                None => {
                    proof {
                        assert(spec_split_from(v@, i as int) =~= Seq::<Seq<char>>::empty());
                        assert(before + spec_split_from(v@, n as int) =~= before);
                    }
                    i = n;
                },
            }
        }
    }
    proof {
        assert(spec_split_from(v@, i as int) =~= Seq::<Seq<char>>::empty());
        assert(args@.map_values(|w: &str| w@) + Seq::<Seq<char>>::empty() =~= args@.map_values(
            |w: &str| w@,
        ));
    }
    args
}

/// One of the commands a key can be bound to.
#[derive(Clone, Debug)]
pub enum KeyCommand {
    ChangeDirectory(ChangeDirectory),
    CloseTab(CloseTab),
    CopyFiles(CopyFiles),
    CursorMove(CursorMove),
    CursorMoveEnd(CursorMoveEnd),
    CursorMoveHome(CursorMoveHome),
    CursorMovePageDown(CursorMovePageDown),
    CursorMovePageUp(CursorMovePageUp),
    CutFiles(CutFiles),
    DeleteFiles(DeleteFiles),
    NewDirectory(NewDirectory),
    NewTab(NewTab),
    OpenFile(OpenFile),
    OpenFileWith(OpenFileWith),
    ParentDirectory(ParentDirectory),
    PasteFiles(PasteFiles),
    Quit(Quit),
    ReloadDirList(ReloadDirList),
    RenameFile(RenameFile),
    Search(Search),
    SelectFiles(SelectFiles),
    SetMode(SetMode),
    TabSwitch(TabSwitch),
    ToggleHiddenFiles(ToggleHiddenFiles),
    TrashFiles(TrashFiles),
}

/// The key and the value of an argument written `key=value`: present when the
/// argument holds exactly one `=`.
pub open spec fn spec_key_value(arg: Seq<char>) -> Option<(Seq<char>, Seq<char>)> {
    match find_from(arg, '=', 0) {
        Some(p) => match find_from(arg, '=', p + 1) {
            Some(_) => None,
            None => Some((arg.subrange(0, p), arg.subrange(p + 1, arg.len() as int))),
        },
        None => None,
    }
}

/// The paste options after reading one argument: `overwrite=..` and
/// `skip_exist=..` set their option when the value reads as a `bool`;
/// anything else leaves the options as they were.
pub open spec fn spec_paste_step(arg: Seq<char>, o: CopyOptions) -> CopyOptions {
    match spec_key_value(arg) {
        Some((k, v)) => if k == "overwrite"@ {
            match spec_parse_bool(v) {
                Some(b) => CopyOptions { overwrite: b, ..o },
                None => o,
            }
        } else if k == "skip_exist"@ {
            match spec_parse_bool(v) {
                Some(b) => CopyOptions { skip_exist: b, ..o },
                None => o,
            }
        } else {
            o
        },
        None => o,
    }
}

/// The paste options after reading `args` in order, starting from `o`.
pub open spec fn spec_paste_options(args: Seq<Seq<char>>, o: CopyOptions) -> CopyOptions
    decreases args.len(),
{
    if args.len() == 0 {
        o
    } else {
        spec_paste_options(args.drop_first(), spec_paste_step(args[0], o))
    }
}

/// The selection options `(toggle, all)` after reading one argument:
/// `toggle=..` and `all=..` set their option when the value reads as a `bool`.
pub open spec fn spec_select_step(arg: Seq<char>, o: (bool, bool)) -> (bool, bool) {
    match spec_key_value(arg) {
        Some((k, v)) => if k == "toggle"@ {
            match spec_parse_bool(v) {
                Some(b) => (b, o.1),
                None => o,
            }
        } else if k == "all"@ {
            match spec_parse_bool(v) {
                Some(b) => (o.0, b),
                None => o,
            }
        } else {
            o
        },
        None => o,
    }
}

/// The selection options after reading `args` in order, starting from `o`.
pub open spec fn spec_select_options(args: Seq<Seq<char>>, o: (bool, bool)) -> (bool, bool)
    decreases args.len(),
{
    if args.len() == 0 {
        o
    } else {
        spec_select_options(args.drop_first(), spec_select_step(args[0], o))
    }
}

/// The arguments as strings of characters.
pub open spec fn args_view(args: Option<&Vec<String>>) -> Option<Seq<Seq<char>>> {
    match args {
        Some(a) => Some(a@.map_values(|s: String| s@)),
        None => None,
    }
}

/// The rename method the arguments ask for: `prepend`, `overwrite`, or else `append`.
pub open spec fn spec_rename_method(args: Option<Seq<Seq<char>>>) -> RenameFileMethod {
    match args {
        Some(a) => if a.len() > 0 && a[0] == "prepend"@ {
            RenameFileMethod::Prepend
        } else if a.len() > 0 && a[0] == "overwrite"@ {
            RenameFileMethod::Overwrite
        } else {
            RenameFileMethod::Append
        },
        None => RenameFileMethod::Append,
    }
}

/// The arguments, or none at all.
pub open spec fn args_or_empty(args: Option<Seq<Seq<char>>>) -> Seq<Seq<char>> {
    match args {
        Some(a) => a,
        None => Seq::empty(),
    }
}

/// Whether `k` is the command that `name` and `args` describe, for every
/// command name but `cd` (whose path comes from a shell expansion).
pub open spec fn spec_from_args(name: Seq<char>, args: Option<Seq<Seq<char>>>, k: Option<KeyCommand>) -> bool {
    if name == "copy_files"@ {
        k == Some(KeyCommand::CopyFiles(CopyFiles))
    } else if name == "cursor_move"@ {
        match args {
            Some(a) => if a.len() > 0 {
                match spec_parse_i32(a[0]) {
                    Ok(n) => k == Some(KeyCommand::CursorMove(CursorMove { movement: n as i32 })),
                    Err(_) => k is None,
                }
            } else {
                k is None
            },
            None => k is None,
        }
    } else if name == "cursor_move_home"@ {
        k == Some(KeyCommand::CursorMoveHome(CursorMoveHome))
    } else if name == "cursor_move_end"@ {
        k == Some(KeyCommand::CursorMoveEnd(CursorMoveEnd))
    } else if name == "cursor_move_page_up"@ {
        k == Some(KeyCommand::CursorMovePageUp(CursorMovePageUp))
    } else if name == "cursor_move_page_down"@ {
        k == Some(KeyCommand::CursorMovePageDown(CursorMovePageDown))
    } else if name == "cut_files"@ {
        k == Some(KeyCommand::CutFiles(CutFiles))
    } else if name == "delete_files"@ {
        k == Some(KeyCommand::DeleteFiles(DeleteFiles))
    } else if name == "mkdir"@ {
        k == Some(KeyCommand::NewDirectory(NewDirectory))
    } else if name == "open_file"@ {
        k == Some(KeyCommand::OpenFile(OpenFile))
    } else if name == "open_file_with"@ {
        k == Some(KeyCommand::OpenFileWith(OpenFileWith))
    } else if name == "parent_directory"@ {
        k == Some(KeyCommand::ParentDirectory(ParentDirectory))
    } else if name == "paste_files"@ {
        k == Some(
            KeyCommand::PasteFiles(
                PasteFiles {
                    options: spec_paste_options(
                        args_or_empty(args),
                        CopyOptions { overwrite: false, skip_exist: false },
                    ),
                },
            ),
        )
    } else if name == "quit"@ {
        k == Some(KeyCommand::Quit(Quit))
    } else if name == "reload_dir_list"@ {
        k == Some(KeyCommand::ReloadDirList(ReloadDirList))
    } else if name == "rename_file"@ {
        k == Some(KeyCommand::RenameFile(RenameFile { method: spec_rename_method(args) }))
    } else if name == "search"@ {
        k == Some(KeyCommand::Search(Search))
    } else if name == "select_files"@ {
        let o = spec_select_options(args_or_empty(args), (false, false));
        k == Some(KeyCommand::SelectFiles(SelectFiles { toggle: o.0, all: o.1 }))
    } else if name == "toggle_hidden"@ {
        k == Some(KeyCommand::ToggleHiddenFiles(ToggleHiddenFiles))
    } else {
        k is None
    }
}

/// The key and value of `v` written `key=value`, found as `spec_key_value` says.
fn key_value(v: &Vec<char>) -> (r: Option<(Vec<char>, Vec<char>)>)
    ensures
        match spec_key_value(v@) {
            Some((k, val)) => r matches Some((rk, rv)) && rk@ == k && rv@ == val,
            None => r is None,
        },
{
    proof {
        lemma_find_from(v@, '=', 0);
    }
    match scan_for(v, '=', 0) {
        Some(p) => {
            let n = v.len();
            assert(p < n);
            proof {
                lemma_find_from(v@, '=', p + 1);
            }
            match scan_for(v, '=', p + 1) {
                Some(_) => None,
                None => Some((sub_chars(v.as_slice(), 0, p), sub_chars(v.as_slice(), p + 1, v.len()))),
            }
        },
        None => None,
    }
}

/// The paste options that `args` set, starting from neither option.
fn paste_options(args: &Vec<String>) -> (r: CopyOptions)
    ensures
        r == spec_paste_options(
            args@.map_values(|s: String| s@),
            CopyOptions { overwrite: false, skip_exist: false },
        ),
{
    let ghost all = args@.map_values(|s: String| s@);
    let mut o = CopyOptions::new();
    let mut i: usize = 0;
    assert(all.subrange(0, all.len() as int) =~= all);
    while i < args.len()
        invariant
            i <= args@.len(),
            all == args@.map_values(|s: String| s@),
            spec_paste_options(all.subrange(i as int, all.len() as int), o) == spec_paste_options(
                all,
                CopyOptions { overwrite: false, skip_exist: false },
            ),
        decreases args@.len() - i,
    {
        let v = str_to_chars(args[i].as_str());
        let ghost rest = all.subrange(i as int, all.len() as int);
        let ghost o0 = o;
        match key_value(&v) {
            Some((k, val)) => {
                if chars_eq(k.as_slice(), "overwrite") {
                    match parse_bool(val.as_slice()) {
                        Some(b) => { o.overwrite = b; },
                        None => {},
                    }
                } else if chars_eq(k.as_slice(), "skip_exist") {
                    match parse_bool(val.as_slice()) {
                        Some(b) => { o.skip_exist = b; },
                        None => {},
                    }
                }
            },
            None => {},
        }
        proof {
            assert(rest[0] == v@);
            assert(o == spec_paste_step(rest[0], o0));
            assert(rest.drop_first() =~= all.subrange(i + 1, all.len() as int));
        }
        i = i + 1;
    }
    proof {
        assert(all.subrange(i as int, all.len() as int) =~= Seq::<Seq<char>>::empty());
    }
    o
}

/// The selection options `(toggle, all)` that `args` set, starting from neither.
fn select_options(args: &Vec<String>) -> (r: (bool, bool))
    ensures
        r == spec_select_options(args@.map_values(|s: String| s@), (false, false)),
{
    let ghost all = args@.map_values(|s: String| s@);
    let mut toggle = false;
    let mut select_all = false;
    let mut i: usize = 0;
    assert(all.subrange(0, all.len() as int) =~= all);
    while i < args.len()
        invariant
            i <= args@.len(),
            all == args@.map_values(|s: String| s@),
            spec_select_options(all.subrange(i as int, all.len() as int), (toggle, select_all))
                == spec_select_options(all, (false, false)),
        decreases args@.len() - i,
    {
        let v = str_to_chars(args[i].as_str());
        let ghost rest = all.subrange(i as int, all.len() as int);
        let ghost o0 = (toggle, select_all);
        match key_value(&v) {
            Some((k, val)) => {
                if chars_eq(k.as_slice(), "toggle") {
                    match parse_bool(val.as_slice()) {
                        Some(b) => { toggle = b; },
                        None => {},
                    }
                } else if chars_eq(k.as_slice(), "all") {
                    match parse_bool(val.as_slice()) {
                        Some(b) => { select_all = b; },
                        None => {},
                    }
                }
            },
            None => {},
        }
        proof {
            assert(rest[0] == v@);
            assert((toggle, select_all) == spec_select_step(rest[0], o0));
            assert(rest.drop_first() =~= all.subrange(i + 1, all.len() as int));
        }
        i = i + 1;
    }
    proof {
        assert(all.subrange(i as int, all.len() as int) =~= Seq::<Seq<char>>::empty());
    }
    (toggle, select_all)
}

/// The words that a POSIX shell expands `s` into (`wordexp::wordexp` with no
/// flags), or `None` where the expansion fails. The words depend on the
/// environment and the files on disk, so nothing is stated of them.
#[verifier::external_body]
pub(crate) fn shell_expand(s: &str) -> (r: Option<Vec<String>>)
    requires
        forall|i: int| 0 <= i < s@.len() ==> s@[i] != '\0',
{
    match wordexp::wordexp(s, wordexp::Wordexp::new(0), 0) {
        Ok(words) => Some(words.map(String::from).collect()),
        Err(_) => None,
    }
}

/// The move to the first of the `words` of a shell expansion, if there is one.
pub fn change_directory_from_words(words: Vec<String>) -> (r: Option<KeyCommand>)
    ensures
        words.len() > 0 ==> (r matches Some(KeyCommand::ChangeDirectory(cd)) && cd.path@
            == words@[0]@),
        words.len() == 0 ==> r is None,
{
    let mut words = words;
    if words.len() > 0 {
        let first = words.swap_remove(0);
        Some(KeyCommand::ChangeDirectory(ChangeDirectory::new(first)))
    } else {
        None
    }
}

/// The command named `command` with its arguments `args`, as a keymap line
/// writes it, or `None` for an unknown name or a missing argument. For `cd`,
/// the path is the first word of the shell expansion of the first argument.
pub fn from_args(command: &str, args: Option<&Vec<String>>) -> (r: Option<KeyCommand>)
    requires
        command@ == "cd"@ ==> (args matches Some(a) ==> a.len() > 0 && forall|i: int|
            0 <= i < a@[0]@.len() ==> a@[0]@[i] != '\0'),
    ensures
        command@ != "cd"@ ==> spec_from_args(command@, args_view(args), r),
        command@ == "cd"@ ==> (args is None ==> r is None) && (r is Some ==> r->0 is ChangeDirectory),
{
    let c = str_to_chars(command);
    if chars_eq(c.as_slice(), "cd") {
        match args {
            Some(a) => match shell_expand(a[0].as_str()) {
                Some(words) => change_directory_from_words(words),
                None => None,
            },
            None => None,
        }
    } else if chars_eq(c.as_slice(), "copy_files") {
        Some(KeyCommand::CopyFiles(CopyFiles::new()))
    } else if chars_eq(c.as_slice(), "cursor_move") {
        match args {
            Some(a) => if a.len() > 0 {
                let v = str_to_chars(a[0].as_str());
                match parse_i32(v.as_slice()) {
                    Ok(n) => Some(KeyCommand::CursorMove(CursorMove::new(n))),
                    Err(_) => None,
                }
            } else {
                None
            },
            None => None,
        }
    } else if chars_eq(c.as_slice(), "cursor_move_home") {
        Some(KeyCommand::CursorMoveHome(CursorMoveHome::new()))
    } else if chars_eq(c.as_slice(), "cursor_move_end") {
        Some(KeyCommand::CursorMoveEnd(CursorMoveEnd::new()))
    } else if chars_eq(c.as_slice(), "cursor_move_page_up") {
        Some(KeyCommand::CursorMovePageUp(CursorMovePageUp::new()))
    } else if chars_eq(c.as_slice(), "cursor_move_page_down") {
        Some(KeyCommand::CursorMovePageDown(CursorMovePageDown::new()))
    } else if chars_eq(c.as_slice(), "cut_files") {
        Some(KeyCommand::CutFiles(CutFiles::new()))
    } else if chars_eq(c.as_slice(), "delete_files") {
        Some(KeyCommand::DeleteFiles(DeleteFiles::new()))
    } else if chars_eq(c.as_slice(), "mkdir") {
        Some(KeyCommand::NewDirectory(NewDirectory::new()))
    } else if chars_eq(c.as_slice(), "open_file") {
        Some(KeyCommand::OpenFile(OpenFile::new()))
    } else if chars_eq(c.as_slice(), "open_file_with") {
        Some(KeyCommand::OpenFileWith(OpenFileWith::new()))
    } else if chars_eq(c.as_slice(), "parent_directory") {
        Some(KeyCommand::ParentDirectory(ParentDirectory::new()))
    } else if chars_eq(c.as_slice(), "paste_files") {
        let options = match args {
            Some(a) => paste_options(a),
            None => {
                proof {
                    assert(args_or_empty(args_view(args)) =~= Seq::<Seq<char>>::empty());
                }
                CopyOptions::new()
            },
        };
        Some(KeyCommand::PasteFiles(PasteFiles::new(options)))
    } else if chars_eq(c.as_slice(), "quit") {
        Some(KeyCommand::Quit(Quit::new()))
    } else if chars_eq(c.as_slice(), "reload_dir_list") {
        Some(KeyCommand::ReloadDirList(ReloadDirList::new()))
    } else if chars_eq(c.as_slice(), "rename_file") {
        let method = match args {
            Some(a) => if a.len() > 0 {
                let v = str_to_chars(a[0].as_str());
                if chars_eq(v.as_slice(), "prepend") {
                    RenameFileMethod::Prepend
                } else if chars_eq(v.as_slice(), "overwrite") {
                    RenameFileMethod::Overwrite
                } else {
                    RenameFileMethod::Append
                }
            } else {
                RenameFileMethod::Append
            },
            None => RenameFileMethod::Append,
        };
        Some(KeyCommand::RenameFile(RenameFile::new(method)))
    } else if chars_eq(c.as_slice(), "search") {
        Some(KeyCommand::Search(Search::new()))
    } else if chars_eq(c.as_slice(), "select_files") {
        let o = match args {
            Some(a) => select_options(a),
            None => {
                proof {
                    assert(args_or_empty(args_view(args)) =~= Seq::<Seq<char>>::empty());
                }
                (false, false)
            },
        };
        Some(KeyCommand::SelectFiles(SelectFiles::new(o.0, o.1)))
    } else if chars_eq(c.as_slice(), "toggle_hidden") {
        Some(KeyCommand::ToggleHiddenFiles(ToggleHiddenFiles::new()))
    } else {
        None
    }
}

} // verus!
