use vstd::prelude::*;

use crate::command::rename_file::{lemma_rfind_range, rfind_char, spec_rfind};
use crate::config::config::{lookup, spec_lookup};
use crate::config::theme::{JoshutoColorTheme, JoshutoTheme};
use crate::structs::{FileKind, JoshutoDirEntry};
use crate::text::{chars_to_string, concat, push_char, spec_decimal, str_to_chars, usize_to_string};
use crate::unix::{is_executable, S_IXGRP, S_IXOTH, S_IXUSR};

verus! {

/// The colour pair of error messages.
pub const ERR_COLOR: i16 = 240;
/// The colour pair of the message shown for an empty directory.
pub const EMPTY_COLOR: i16 = 241;
/// The terminal's attribute bit for bold text.
pub const A_BOLD: u32 = 0x20_0000;
/// The terminal's attribute bit for underlined text.
pub const A_UNDERLINE: u32 = 0x2_0000;

/// The look of an entry and the colour pair it is drawn with: selected
/// entries, directories and links have their own looks; devices, pipes and
/// sockets share one, drawn in the colour pair of links; other files look
/// executable when anyone may run them, else by their extension where the
/// theme has a look for it, else regular.
pub open spec fn spec_entry_look(e: JoshutoDirEntry, t: JoshutoTheme) -> (JoshutoColorTheme, i16) {
    let kind = e.metadata.file_type;
    let mode = e.metadata.permissions;
    if e.selected {
        (t.selection, t.selection.colorpair)
    } else if kind == FileKind::Directory {
        (t.directory, t.directory.colorpair)
    } else if kind == FileKind::Symlink {
        (t.link, t.link.colorpair)
    } else if kind == FileKind::BlockDevice || kind == FileKind::CharDevice || kind
        == FileKind::Fifo || kind == FileKind::Socket {
        (t.socket, t.link.colorpair)
    } else if mode & S_IXUSR != 0 || mode & S_IXGRP != 0 || mode & S_IXOTH != 0 {
        (t.executable, t.executable.colorpair)
    } else {
        match spec_rfind(e.file_name_as_string@, '.') {
            Some(i) => match spec_lookup(
                t.ext@,
                e.file_name_as_string@.subrange(i + 1, e.file_name_as_string@.len() as int),
            ) {
                Some(l) => (l, l.colorpair),
                None => (t.regular, t.regular.colorpair),
            },
            None => (t.regular, t.regular.colorpair),
        }
    }
}

/// The attributes `attr` with those of the look `l` added.
pub open spec fn spec_look_attr(attr: u32, l: JoshutoColorTheme) -> u32 {
    let a = if l.bold { attr | A_BOLD } else { attr };
    if l.underline { a | A_UNDERLINE } else { a }
}

/// The look of an entry, as `spec_entry_look` says.
fn entry_look<'a>(e: &JoshutoDirEntry, t: &'a JoshutoTheme) -> (r: (&'a JoshutoColorTheme, i16))
    ensures
        (*r.0, r.1) == spec_entry_look(*e, *t),
{
    let kind = e.metadata.file_type;
    if e.selected {
        (&t.selection, t.selection.colorpair)
    } else if kind == FileKind::Directory {
        (&t.directory, t.directory.colorpair)
    } else if kind == FileKind::Symlink {
        (&t.link, t.link.colorpair)
    } else if kind == FileKind::BlockDevice || kind == FileKind::CharDevice || kind
        == FileKind::Fifo || kind == FileKind::Socket {
        (&t.socket, t.link.colorpair)
    } else if is_executable(e.metadata.permissions) {
        (&t.executable, t.executable.colorpair)
    } else {
        let v = str_to_chars(e.file_name_as_string.as_str());
        proof {
            lemma_rfind_range(v@, '.');
        }
        match rfind_char(v.as_slice(), '.') {
            Some(i) => {
                let n = v.len();
                assert(i < n);
                let ext = chars_to_string(v.as_slice(), i + 1, n);
                match lookup(&t.ext, ext.as_str()) {
                    Some(l) => (l, l.colorpair),
                    None => (&t.regular, t.regular.colorpair),
                }
            },
            None => (&t.regular, t.regular.colorpair),
        }
    }
}

/// How the entry `entry` is drawn with the theme `theme`: the text put
/// before its name and the columns it takes (one space where the look has
/// none), the attributes `attr` with those of its look, and its colour pair.
pub fn get_theme_attr<'a>(attr: u32, entry: &JoshutoDirEntry, theme: &'a JoshutoTheme) -> (r: (
    (usize, &'a str),
    u32,
    i16,
))
    ensures
        ({
            let (l, c) = spec_entry_look(*entry, *theme);
            &&& r.1 == spec_look_attr(attr, l)
            &&& r.2 == c
            &&& match (l.prefix, l.prefixsize) {
                (Some(p), Some(n)) => r.0.0 == n && r.0.1@ == p@,
                _ => r.0.0 == 1 && r.0.1@ == " "@,
            }
        }),
{
    let (look, colorpair) = entry_look(entry, theme);
    let mut attr = attr;
    if look.bold {
        attr = attr | A_BOLD;
    }
    if look.underline {
        attr = attr | A_UNDERLINE;
    }
    proof {
        reveal_strlit(" ");
    }
    let prefix: (usize, &'a str) = match (&look.prefix, look.prefixsize) {
        (Some(p), Some(n)) => (n, p.as_str()),
        _ => (1, " "),
    };
    (prefix, attr, colorpair)
}

/// What `UnicodeWidthStr::width` of the unicode-width crate gives for a
/// string: the columns that it takes on a terminal.
pub uninterp spec fn spec_str_width(s: Seq<char>) -> usize;

/// What `UnicodeWidthChar::width` of the unicode-width crate gives for a
/// character: the columns that it takes, or `None` for a control character.
pub uninterp spec fn spec_char_width(c: char) -> Option<usize>;

/// The columns that `s` takes, by `unicode_width::UnicodeWidthStr::width`.
/// The contract claims only that the result depends on the characters of
/// `s` alone.
#[verifier::external_body]
pub(crate) fn str_width(s: &str) -> (r: usize)
    ensures
        r == spec_str_width(s@),
{
    unicode_width::UnicodeWidthStr::width(s)
}

/// The columns that `c` takes, by `unicode_width::UnicodeWidthChar::width`.
/// The contract claims that the result depends on `c` alone, that a
/// printable ASCII character takes one column, and that the ASCII and
/// Latin-1 control codes have no width.
#[verifier::external_body]
pub(crate) fn char_width(c: char) -> (r: Option<usize>)
    ensures
        r == spec_char_width(c),
        0x20 <= (c as u32) < 0x7f ==> r == Some(1usize),
        (c as u32) < 0x20 || 0x7f <= (c as u32) < 0xa0 ==> r is None,
{
    unicode_width::UnicodeWidthChar::width(c)
}

/// The columns that the first `k` characters of `s` take when they are
/// counted one by one, a character with no width counting two.
pub open spec fn spec_prefix_width(s: Seq<char>, k: int) -> int
    decreases k,
{
    if k <= 0 {
        0
    } else {
        spec_prefix_width(s, k - 1) + match spec_char_width(s[k - 1]) {
            Some(w) => w as int,
            None => 2,
        }
    }
}

/// How many characters of `s` are kept in `avail` columns, looking from
/// position `k` on: the first position whose characters before it fill the
/// columns, or all of them.
pub open spec fn spec_keep_from(s: Seq<char>, avail: int, k: int) -> int
    decreases s.len() - k,
{
    if k >= s.len() {
        s.len() as int
    } else if spec_prefix_width(s, k) >= avail {
        k
    } else {
        spec_keep_from(s, avail, k + 1)
    }
}

/// How the name `name` is drawn in `avail` columns: a name narrower than
/// the columns is drawn whole. Otherwise its extension (from its last dot)
/// is drawn apart at the column where it ends the space, when it fits; then
/// two more columns are kept back when more than two are left, and as many
/// characters of the name are drawn as fill the rest, followed by an
/// ellipsis.
pub open spec fn spec_name_layout(name: Seq<char>, avail: usize) -> (
    Option<(usize, Seq<char>)>,
    Seq<char>,
    bool,
) {
    if spec_str_width(name) < avail {
        (None, name, false)
    } else {
        let ext: Option<(usize, Seq<char>)> = match spec_rfind(name, '.') {
            Some(i) => {
                let e = name.subrange(i, name.len() as int);
                if avail > spec_str_width(e) {
                    Some(((avail - spec_str_width(e)) as usize, e))
                } else {
                    None
                }
            },
            None => None,
        };
        let rest: usize = match ext {
            Some((c, _)) => c,
            None => avail,
        };
        let room: int = if rest > 2 { rest - 2 } else { rest as int };
        (ext, name.take(spec_keep_from(name, room, 0)), true)
    }
}

/// How a file name is laid out in the columns left for it.
pub struct FileNameLayout {
    /// The extension, with the column where it is drawn, when it is drawn
    /// apart from the rest of the name.
    pub extension: Option<(usize, String)>,
    /// The text drawn from the start of the name.
    pub shown: String,
    /// Whether an ellipsis follows `shown`.
    pub truncated: bool,
}

impl View for FileNameLayout {
    type V = (Option<(usize, Seq<char>)>, Seq<char>, bool);

    open spec fn view(&self) -> Self::V {
        (
            match self.extension {
                Some((c, e)) => Some((c, e@)),
                None => None,
            },
            self.shown@,
            self.truncated,
        )
    }
}

/// Lays out the file name `file_name` in `space_avail` columns, as
/// `spec_name_layout` says.
pub fn file_name_layout(file_name: &str, space_avail: usize) -> (r: FileNameLayout)
    ensures
        r@ == spec_name_layout(file_name@, space_avail),
{
    let name_width = str_width(file_name);
    if name_width < space_avail {
        return FileNameLayout {
            extension: None,
            shown: String::from_str(file_name),
            truncated: false,
        };
    }
    let v = str_to_chars(file_name);
    let mut avail = space_avail;
    let mut extension: Option<(usize, String)> = None;
    proof {
        lemma_rfind_range(v@, '.');
    }
    match rfind_char(v.as_slice(), '.') {
        Some(i) => {
            let ext = chars_to_string(v.as_slice(), i, v.len());
            let ext_len = str_width(ext.as_str());
            if avail > ext_len {
                avail = avail - ext_len;
                extension = Some((avail, ext));
            }
        },
        None => {},
    }
    if avail > 2 {
        avail = avail - 2;
    }
    let ghost room: int = avail as int;
    let mut total: usize = 0;
    let mut k: usize = 0;
    while k < v.len() && total < avail
        invariant
            k <= v@.len(),
            room == avail,
            (total < avail) == (spec_prefix_width(v@, k as int) < avail),
            total < avail ==> total == spec_prefix_width(v@, k as int),
            spec_keep_from(v@, room, 0) == spec_keep_from(v@, room, k as int),
        decreases v@.len() - k,
    {
        let w: usize = match char_width(v[k]) {
            Some(w) => w,
            None => 2,
        };
        if w >= avail - total {
            total = avail;
        } else {
            total = total + w;
        }
        k = k + 1;
    }
    let shown = chars_to_string(v.as_slice(), 0, k);
    assert(v@.subrange(0, k as int) == v@.take(k as int));
    FileNameLayout { extension, shown, truncated: true }
}

/// The columns left for an entry's name in a panel `cols` wide after a
/// prefix that takes `prefix_width` columns; a prefix is at most as wide as
/// the terminal's column numbers reach.
pub fn entry_name_space(cols: i32, prefix_width: usize) -> (r: usize)
    requires
        prefix_width <= i32::MAX,
    ensures
        r == if cols >= prefix_width { cols - prefix_width } else { 0 },
{
    let p: i32 = prefix_width as i32;
    if cols >= p {
        (cols - p) as usize
    } else {
        0
    }
}

/// The label of the tab bar: nothing with a single tab, else the number of
/// the current tab (counted from one), a space and the number of tabs.
pub open spec fn spec_tab_label(tab_count: usize, curr_tab_index: usize) -> Option<Seq<char>> {
    if tab_count == 1 {
        None
    } else {
        Some(spec_decimal((curr_tab_index + 1) as nat) + seq![' '] + spec_decimal(tab_count as nat))
    }
}

/// The label of the tab bar, as `spec_tab_label` says.
pub fn tab_label(tab_count: usize, curr_tab_index: usize) -> (r: Option<String>)
    requires
        curr_tab_index < usize::MAX,
    ensures
        r.is_some() == spec_tab_label(tab_count, curr_tab_index).is_some(),
        r matches Some(s) ==> Some(s@) == spec_tab_label(tab_count, curr_tab_index),
{
    if tab_count == 1 {
        None
    } else {
        let mut s = usize_to_string(curr_tab_index + 1);
        push_char(&mut s, ' ');
        let n = usize_to_string(tab_count);
        let r = concat(s.as_str(), n.as_str());
        Some(r)
    }
}

} // verus!
