use vstd::prelude::*;

use crate::config::config::{lookup, spec_lookup};
use crate::config::mimetype::{spec_entry_display, JoshutoMimetype, JoshutoMimetypeEntry};
use crate::numparse::{parse_usize, spec_parse_unsigned};
use crate::text::{
    lemma_lex_le_total, lex_le, seq_to_string, spec_decimal, spec_words, split_whitespace,
    str_le, str_to_chars, usize_to_string,
};

verus! {

/// Opens the selected entry: enters a directory, or opens a file with the
/// first program the mimetype configuration lists for it.
#[derive(Clone, Copy, Debug, PartialEq, Eq, Structural)]
pub struct OpenFile;

impl OpenFile {
    /// The command.
    pub fn new() -> (r: Self)
        ensures
            r == OpenFile,
    {
        OpenFile
    }

    /// The name the command is written with in a keymap.
    pub fn command() -> (r: &'static str)
        ensures
            r@ == "open_file"@,
    {
        proof {
            reveal_strlit("open_file");
        }
        "open_file"
    }

    /// The command as a keymap writes it: its name.
    pub fn to_string(&self) -> (r: String)
        ensures
            r@ == "open_file"@,
    {
        String::from_str(Self::command())
    }
}

impl super::JoshutoCommand for OpenFile {}

/// Opens the selected files with a program that the user picks.
#[derive(Clone, Copy, Debug, PartialEq, Eq, Structural)]
pub struct OpenFileWith;

impl OpenFileWith {
    /// The command.
    pub fn new() -> (r: Self)
        ensures
            r == OpenFileWith,
    {
        OpenFileWith
    }

    /// The name the command is written with in a keymap.
    pub fn command() -> (r: &'static str)
        ensures
            r@ == "open_file_with"@,
    {
        proof {
            reveal_strlit("open_file_with");
        }
        "open_file_with"
    }

    /// The command as a keymap writes it: its name.
    pub fn to_string(&self) -> (r: String)
        ensures
            r@ == "open_file_with"@,
    {
        String::from_str(Self::command())
    }
}

impl super::JoshutoCommand for OpenFileWith {}

/// The extension of the file that `path` names, as `std::path::Path::extension`
/// finds it: the part of the file name after its last `.`, for a name that
/// has a `.` after its first character.
pub uninterp spec fn spec_path_extension(path: Seq<char>) -> Option<Seq<char>>;

/// The extension of the file that `path` names (`Path::extension`).
#[verifier::external_body]
pub(crate) fn path_extension(path: &str) -> (r: Option<String>)
    ensures
        match spec_path_extension(path@) {
            Some(e) => r matches Some(x) && x@ == e,
            None => r is None,
        },
{
    std::path::Path::new(path).extension().and_then(|e| e.to_str()).map(String::from)
}

/// The top-level media type (`text`, `image`, ...) that `mime_detective`
/// finds for the file at `path` from its content, or `None` where it finds
/// none. It depends on the file on disk, so nothing is stated of it. The
/// path is handed to libmagic as a C string, which cannot hold a NUL.
#[verifier::external_body]
fn detect_mime_type(path: &str) -> (r: Option<String>)
    requires
        forall|i: int| 0 <= i < path@.len() ==> path@[i] != '\0',
{
    let detective = mime_detective::MimeDetective::new().ok()?;
    detective.detect_filepath(path).ok().map(|m| m.type_().as_str().to_string())
}

/// The programs a table lists under `key`, or none.
pub open spec fn spec_programs_for(
    table: Seq<(String, Vec<JoshutoMimetypeEntry>)>,
    key: Option<Seq<char>>,
) -> Seq<JoshutoMimetypeEntry> {
    match key {
        Some(k) => match spec_lookup(table, k) {
            Some(v) => v@,
            None => Seq::empty(),
        },
        None => Seq::empty(),
    }
}

/// The programs that can open the file `path` of the media type
/// `mime_type`: those listed for its extension, then those listed for its
/// media type.
pub open spec fn spec_options(
    path: Seq<char>,
    mime_type: Option<Seq<char>>,
    t: JoshutoMimetype,
) -> Seq<JoshutoMimetypeEntry> {
    spec_programs_for(t.extension@, spec_path_extension(path)) + spec_programs_for(
        t.mimetype@,
        mime_type,
    )
}

/// Appends references to all of `v` to `out`.
fn push_all<'a>(out: &mut Vec<&'a JoshutoMimetypeEntry>, v: &'a Vec<JoshutoMimetypeEntry>)
    ensures
        final(out)@.map_values(|e: &JoshutoMimetypeEntry| *e) == old(out)@.map_values(
            |e: &JoshutoMimetypeEntry| *e,
        ) + v@,
{
    let ghost start = out@.map_values(|e: &JoshutoMimetypeEntry| *e);
    let mut i: usize = 0;
    while i < v.len()
        invariant
            i <= v@.len(),
            out@.map_values(|e: &JoshutoMimetypeEntry| *e) == start + v@.take(i as int),
        decreases v@.len() - i,
    {
        let ghost before = out@;
        out.push(&v[i]);
        assert(out@.map_values(|e: &JoshutoMimetypeEntry| *e) =~= before.map_values(
            |e: &JoshutoMimetypeEntry| *e,
        ).push(v@[i as int]));
        assert(v@.take(i + 1) =~= v@.take(i as int).push(v@[i as int]));
        assert(out@.map_values(|e: &JoshutoMimetypeEntry| *e) =~= start + v@.take(i + 1));
        i = i + 1;
    }
    assert(v@.take(i as int) =~= v@);
}

impl OpenFile {
    /// The programs that can open the file `path` whose media type is
    /// `mime_type`, as `spec_options` says.
    pub fn options_for<'a>(path: &str, mime_type: Option<&str>, mimetype_t: &'a JoshutoMimetype) -> (r:
        Vec<&'a JoshutoMimetypeEntry>)
        ensures
            r@.map_values(|e: &JoshutoMimetypeEntry| *e) == spec_options(
                path@,
                match mime_type {
                    Some(m) => Some(m@),
                    None => None,
                },
                *mimetype_t,
            ),
    {
        let mut out: Vec<&'a JoshutoMimetypeEntry> = Vec::new();
        assert(out@.map_values(|e: &JoshutoMimetypeEntry| *e) =~= Seq::<JoshutoMimetypeEntry>::empty());
        match path_extension(path) {
            Some(ext) => match lookup(&mimetype_t.extension, ext.as_str()) {
                Some(v) => push_all(&mut out, v),
                None => {},
            },
            None => {},
        }
        let ghost mid = out@.map_values(|e: &JoshutoMimetypeEntry| *e);
        match mime_type {
            Some(m) => match lookup(&mimetype_t.mimetype, m) {
                Some(v) => push_all(&mut out, v),
                None => {},
            },
            None => {},
        }
        proof {
            if mime_type is None || spec_lookup(mimetype_t.mimetype@, mime_type->0@) is None {
                assert(mid + Seq::<JoshutoMimetypeEntry>::empty() =~= mid);
            }
        }
        out
    }

    /// The programs that can open the file `path` (a path holds no NUL):
    /// those listed for its extension, then those listed for the media type
    /// found from its content.
    pub fn get_options<'a>(path: &str, mimetype_t: &'a JoshutoMimetype) -> (r: Vec<
        &'a JoshutoMimetypeEntry,
    >)
        requires
            forall|i: int| 0 <= i < path@.len() ==> path@[i] != '\0',
        ensures
            exists|m: Option<Seq<char>>|
                r@.map_values(|e: &JoshutoMimetypeEntry| *e) == #[trigger] spec_options(
                    path@,
                    m,
                    *mimetype_t,
                ),
    {
        let mime = detect_mime_type(path);
        let r = match &mime {
            Some(m) => OpenFile::options_for(path, Some(m.as_str()), mimetype_t),
            None => OpenFile::options_for(path, None, mimetype_t),
        };
        proof {
            let m = match mime {
                Some(x) => Some(x@),
                None => None,
            };
            assert(r@.map_values(|e: &JoshutoMimetypeEntry| *e) == spec_options(path@, m, *mimetype_t));
        }
        r
    }
}

/// What the user chose among the programs offered to open files.
#[derive(Clone, Debug)]
pub enum OpenWithChoice {
    /// Open nothing.
    Cancel,
    /// Open with the program of this number.
    Entry(usize),
    /// Open with this command line, a program and its arguments.
    Args(Vec<String>),
}

/// Whether `r` is what typing `s` chooses among `options_len` programs:
/// nothing for no input or a number out of range, the program of a number
/// in range, and otherwise the words typed as a command.
pub open spec fn spec_choice(options_len: usize, s: Seq<char>, r: OpenWithChoice) -> bool {
    if s.len() == 0 {
        r is Cancel
    } else {
        match spec_parse_unsigned(s, usize::MAX as int) {
            Ok(n) => if n < options_len {
                r == OpenWithChoice::Entry(n as usize)
            } else {
                r is Cancel
            },
            Err(_) => r matches OpenWithChoice::Args(words) && words@.map_values(|w: String| w@)
                == spec_words(s),
        }
    }
}

impl OpenFileWith {
    /// What the user chose by typing `user_input` among `options_len`
    /// programs: nothing for no input or a number out of range, the program
    /// of a number in range, and otherwise the words typed as a command.
    pub fn choice(options_len: usize, user_input: Option<String>) -> (r: OpenWithChoice)
        ensures
            user_input is None ==> r is Cancel,
            user_input matches Some(s) ==> spec_choice(options_len, s@, r),
    {
        match user_input {
            None => OpenWithChoice::Cancel,
            Some(s) => {
                let v = str_to_chars(s.as_str());
                if v.len() == 0 {
                    return OpenWithChoice::Cancel;
                }
                match parse_usize(v.as_slice()) {
                    Ok(n) => if n < options_len {
                        OpenWithChoice::Entry(n)
                    } else {
                        OpenWithChoice::Cancel
                    },
                    Err(_) => {
                        let words = split_whitespace(&v);
                        let mut out: Vec<String> = Vec::new();
                        let mut i: usize = 0;
                        while i < words.len()
                            invariant
                                i <= words@.len(),
                                out@.map_values(|w: String| w@) == words@.map_values(
                                    |w: Vec<char>| w@,
                                ).take(i as int),
                            decreases words@.len() - i,
                        {
                            let w = seq_to_string(&words[i]);
                            let ghost before = out@;
                            let ghost wv = w@;
                            out.push(w);
                            assert(out@.map_values(|w: String| w@) =~= before.map_values(
                                |w: String| w@,
                            ).push(wv));
                            assert(out@.map_values(|w: String| w@) =~= words@.map_values(
                                |w: Vec<char>| w@,
                            ).take(i + 1));
                            i = i + 1;
                        }
                        assert(words@.map_values(|w: Vec<char>| w@).take(i as int) =~= words@.map_values(
                            |w: Vec<char>| w@,
                        ));
                        OpenWithChoice::Args(out)
                    },
                }
            },
        }
    }
}

/// The line that offers the program `e` under the number `i`.
pub open spec fn spec_option_line(i: nat, e: JoshutoMimetypeEntry) -> Seq<char> {
    "  "@ + spec_decimal(i) + "\t"@ + spec_entry_display(e)
}

/// Whether each line of `s` comes before or equals the next.
pub open spec fn lines_sorted(s: Seq<String>) -> bool {
    forall|i: int| 0 <= i < s.len() - 1 ==> lex_le(#[trigger] s[i]@, s[i + 1]@)
}

/// Inserts `x` into the sorted lines `out` before the first line after it.
pub(crate) fn insert_line(out: &mut Vec<String>, x: String)
    requires
        lines_sorted(old(out)@),
    ensures
        lines_sorted(final(out)@),
        final(out)@.len() == old(out)@.len() + 1,
        final(out)@.map_values(|l: String| l@).to_multiset() == old(out)@.map_values(
            |l: String| l@,
        ).to_multiset().insert(x@),
{
    let mut p: usize = 0;
    while p < out.len()
        invariant_except_break
            p <= out@.len(),
            p > 0 ==> lex_le(out@[p - 1]@, x@),
        ensures
            p <= out@.len(),
            p > 0 ==> lex_le(out@[p - 1]@, x@),
            p < out@.len() ==> !lex_le(out@[p as int]@, x@),
        decreases out.len() - p,
    {
        if !str_le(out[p].as_str(), x.as_str()) {
            break;
        }
        p = p + 1;
    }
    let ghost before = out@;
    proof {
        if p < before.len() {
            lemma_lex_le_total(before[p as int]@, x@);
        }
    }
    let ghost xv = x@;
    out.insert(p, x);
    proof {
        assert(out@.map_values(|l: String| l@) =~= before.map_values(|l: String| l@).insert(
            p as int,
            xv,
        ));
        vstd::seq_lib::to_multiset_insert(before.map_values(|l: String| l@), p as int, xv);
        assert forall|i: int| 0 <= i < out@.len() - 1 implies lex_le(
            #[trigger] out@[i]@,
            out@[i + 1]@,
        ) by {
            if i < p - 1 {
                assert(out@[i] == before[i] && out@[i + 1] == before[i + 1]);
            } else if i == p - 1 {
                assert(out@[i] == before[i] && out@[i + 1] == x);
            } else if i == p {
                assert(out@[i] == x && out@[i + 1] == before[i]);
            } else {
                assert(out@[i] == before[i - 1] && out@[i + 1] == before[i]);
            }
        }
    }
}

impl OpenFileWith {
    /// The lines that offer the programs `options`, each with its number,
    /// sorted: the lines of `spec_option_line` in order of their text.
    pub fn option_lines(options: &Vec<&JoshutoMimetypeEntry>) -> (r: Vec<String>)
        ensures
            lines_sorted(r@),
            r@.len() == options@.len(),
            r@.map_values(|l: String| l@).to_multiset() == Seq::new(
                options@.len(),
                |i: int| spec_option_line(i as nat, *options@[i]),
            ).to_multiset(),
    {
        let ghost target = Seq::new(options@.len(), |i: int| spec_option_line(i as nat, *options@[i]));
        let mut out: Vec<String> = Vec::new();
        let mut i: usize = 0;
        assert(target.take(0) =~= Seq::<Seq<char>>::empty());
        assert(out@.map_values(|l: String| l@) =~= Seq::<Seq<char>>::empty());
        while i < options.len()
            invariant
                i <= options@.len(),
                target == Seq::new(options@.len(), |i: int| spec_option_line(i as nat, *options@[i])),
                lines_sorted(out@),
                out@.len() == i,
                out@.map_values(|l: String| l@).to_multiset() == target.take(i as int).to_multiset(),
            decreases options@.len() - i,
        {
            let mut line = String::from_str("  ");
            line.append(usize_to_string(i).as_str());
            line.append("\t");
            line.append(options[i].to_string().as_str());
            assert(line@ == target[i as int]);
            let ghost lv = line@;
            insert_line(&mut out, line);
            proof {
                assert(target.take(i + 1) =~= target.take(i as int).push(lv));
                vstd::seq_lib::to_multiset_build(target.take(i as int), lv);
            }
            i = i + 1;
        }
        assert(target.take(i as int) =~= target);
        out
    }
}

} // verus!
