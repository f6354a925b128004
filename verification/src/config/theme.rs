use vstd::prelude::*;

use super::config::distinct_keys;

verus! {

/// A pair of terminal colours, foreground and background, under a number.
#[derive(Clone, Copy, Debug, PartialEq, Eq, Structural)]
pub struct JoshutoColorPair {
    pub id: i16,
    pub fg: i16,
    pub bg: i16,
}

impl JoshutoColorPair {
    /// The pair `id` of the colours `fg` and `bg`.
    pub fn new(id: i16, fg: i16, bg: i16) -> (r: Self)
        ensures
            r == (JoshutoColorPair { id, fg, bg }),
    {
        JoshutoColorPair { id, fg, bg }
    }
}

/// How a kind of entry is drawn, as a theme file gives it.
#[derive(Clone, Debug)]
pub struct JoshutoRawColorTheme {
    pub colorpair: i16,
    pub bold: Option<bool>,
    pub underline: Option<bool>,
    pub prefix: Option<String>,
    pub prefixsize: Option<usize>,
}

/// How a kind of entry is drawn: its colour pair, its attributes, and the
/// text put before its name.
#[derive(Clone, Debug)]
pub struct JoshutoColorTheme {
    pub colorpair: i16,
    pub bold: bool,
    pub underline: bool,
    pub prefix: Option<String>,
    pub prefixsize: Option<usize>,
}

/// How an entry is drawn, with neither attribute unless the file sets it.
pub open spec fn spec_flatten_color(raw: JoshutoRawColorTheme) -> JoshutoColorTheme {
    JoshutoColorTheme {
        colorpair: raw.colorpair,
        bold: match raw.bold { Some(b) => b, None => false },
        underline: match raw.underline { Some(b) => b, None => false },
        prefix: raw.prefix,
        prefixsize: raw.prefixsize,
    }
}

impl JoshutoRawColorTheme {
    /// How the entry is drawn, as `spec_flatten_color` says.
    pub fn flatten(self) -> (r: JoshutoColorTheme)
        ensures
            r == spec_flatten_color(self),
    {
        JoshutoColorTheme {
            colorpair: self.colorpair,
            bold: match self.bold {
                Some(b) => b,
                None => false,
            },
            underline: match self.underline {
                Some(b) => b,
                None => false,
            },
            prefix: self.prefix,
            prefixsize: self.prefixsize,
        }
    }
}

/// The theme as a theme file gives it, each part optional; `ext` holds the
/// themes of entries by their extension.
#[derive(Debug)]
pub struct JoshutoRawTheme {
    pub colorpair: Option<Vec<JoshutoColorPair>>,
    pub selection: Option<JoshutoRawColorTheme>,
    pub executable: Option<JoshutoRawColorTheme>,
    pub regular: Option<JoshutoRawColorTheme>,
    pub directory: Option<JoshutoRawColorTheme>,
    pub link: Option<JoshutoRawColorTheme>,
    pub socket: Option<JoshutoRawColorTheme>,
    pub ext: Option<Vec<(String, JoshutoRawColorTheme)>>,
}

/// The colours and looks of the program; `ext` holds the looks of entries
/// by their extension.
#[derive(Clone, Debug)]
pub struct JoshutoTheme {
    pub colorpair: Vec<JoshutoColorPair>,
    pub regular: JoshutoColorTheme,
    pub selection: JoshutoColorTheme,
    pub directory: JoshutoColorTheme,
    pub executable: JoshutoColorTheme,
    pub link: JoshutoColorTheme,
    pub socket: JoshutoColorTheme,
    pub ext: Vec<(String, JoshutoColorTheme)>,
}

impl JoshutoTheme {
    /// No two extensions have a look of their own twice.
    pub open spec fn wf(&self) -> bool {
        distinct_keys(self.ext@)
    }
}

/// The colour pairs set up where the theme names none.
pub open spec fn default_color_pairs() -> Seq<JoshutoColorPair> {
    seq![
        JoshutoColorPair { id: 2, fg: 2, bg: -1i16 },
        JoshutoColorPair { id: 3, fg: 3, bg: -1i16 },
        JoshutoColorPair { id: 4, fg: 4, bg: -1i16 },
        JoshutoColorPair { id: 5, fg: 5, bg: -1i16 },
        JoshutoColorPair { id: 6, fg: 6, bg: -1i16 },
    ]
}

/// The look of a kind of entry where the theme gives none: the colour pair
/// `colorpair`, bold where `bold` says, and nothing else.
pub open spec fn default_look(colorpair: i16, bold: bool) -> JoshutoColorTheme {
    JoshutoColorTheme {
        colorpair,
        bold,
        underline: false,
        prefix: None,
        prefixsize: None,
    }
}

/// The look that a raw look gives, or the default look where there is none.
pub open spec fn look_or(raw: Option<JoshutoRawColorTheme>, d: JoshutoColorTheme) -> JoshutoColorTheme {
    match raw {
        Some(t) => spec_flatten_color(t),
        None => d,
    }
}

/// The colour pairs set up where the theme names none.
fn default_pairs() -> (r: Vec<JoshutoColorPair>)
    ensures
        r@ == default_color_pairs(),
{
    let mut colorpair: Vec<JoshutoColorPair> = Vec::new();
    colorpair.push(JoshutoColorPair::new(2, 2, -1));
    colorpair.push(JoshutoColorPair::new(3, 3, -1));
    colorpair.push(JoshutoColorPair::new(4, 4, -1));
    colorpair.push(JoshutoColorPair::new(5, 5, -1));
    colorpair.push(JoshutoColorPair::new(6, 6, -1));
    assert(colorpair@ =~= default_color_pairs());
    colorpair
}

/// A raw look with only a colour pair and boldness, as the defaults are written.
fn raw_look(colorpair: i16, bold: Option<bool>) -> (r: JoshutoRawColorTheme)
    ensures
        r.colorpair == colorpair,
        r.bold == bold,
        r.underline is None,
        r.prefix is None,
        r.prefixsize is None,
{
    JoshutoRawColorTheme { colorpair, bold, underline: None, prefix: None, prefixsize: None }
}

/// The looks by extension, each flattened, in the same order.
fn flatten_ext(raw: Vec<(String, JoshutoRawColorTheme)>) -> (r: Vec<(String, JoshutoColorTheme)>)
    ensures
        r@.len() == raw@.len(),
        forall|i: int|
            0 <= i < raw@.len() ==> #[trigger] r@[i] == (raw@[i].0, spec_flatten_color(raw@[i].1)),
{
    let ghost orig = raw@;
    let mut rest = raw;
    let mut out: Vec<(String, JoshutoColorTheme)> = Vec::new();
    while rest.len() > 0
        invariant
            out@.len() + rest@.len() == orig.len(),
            rest@ == orig.subrange(out@.len() as int, orig.len() as int),
            forall|i: int|
                0 <= i < out@.len() ==> #[trigger] out@[i] == (orig[i].0, spec_flatten_color(
                    orig[i].1,
                )),
        decreases rest@.len(),
    {
        let (k, v) = rest.remove(0);
        out.push((k, v.flatten()));
        assert(rest@ =~= orig.subrange(out@.len() as int, orig.len() as int));
    }
    out
}

impl JoshutoRawTheme {
    /// The theme, with the defaults for what this one leaves out.
    pub fn flatten(self) -> (r: JoshutoTheme)
        ensures
            r.colorpair@ == (match self.colorpair {
                Some(v) => v@,
                None => default_color_pairs(),
            }),
            r.selection == look_or(self.selection, default_look(3, true)),
            r.executable == look_or(self.executable, default_look(2, true)),
            r.regular == look_or(self.regular, default_look(0, false)),
            r.directory == look_or(self.directory, default_look(4, true)),
            r.link == look_or(self.link, default_look(6, true)),
            r.socket == look_or(self.socket, default_look(6, true)),
            r.ext@.len() == (match self.ext {
                Some(e) => e@.len(),
                None => 0,
            }),
            self.ext matches Some(e) ==> forall|i: int|
                0 <= i < e@.len() ==> #[trigger] r.ext@[i] == (e@[i].0, spec_flatten_color(e@[i].1)),
            (self.ext matches Some(e) ==> distinct_keys(e@)) ==> r.wf(),
    {
        let ghost old_ext = self.ext;
        let colorpair = match self.colorpair {
            Some(s) => s,
            None => default_pairs(),
        };
        let selection = match self.selection {
            Some(t) => t,
            None => raw_look(3, Some(true)),
        };
        let executable = match self.executable {
            Some(t) => t,
            None => raw_look(2, Some(true)),
        };
        let regular = match self.regular {
            Some(t) => t,
            None => raw_look(0, None),
        };
        let directory = match self.directory {
            Some(t) => t,
            None => raw_look(4, Some(true)),
        };
        let link = match self.link {
            Some(t) => t,
            None => raw_look(6, Some(true)),
        };
        let socket = match self.socket {
            Some(t) => t,
            None => raw_look(6, Some(true)),
        };
        let ext = match self.ext {
            Some(e) => flatten_ext(e),
            None => Vec::new(),
        };
        let r = JoshutoTheme {
            colorpair,
            regular: regular.flatten(),
            directory: directory.flatten(),
            selection: selection.flatten(),
            executable: executable.flatten(),
            link: link.flatten(),
            socket: socket.flatten(),
            ext,
        };
        proof {
            if old_ext is Some {
                let e = old_ext->0;
                if distinct_keys(e@) {
                    assert forall|i: int, j: int| 0 <= i < j < r.ext@.len() implies r.ext@[i].0@
                        != r.ext@[j].0@ by {
                        assert(r.ext@[i] == (e@[i].0, spec_flatten_color(e@[i].1)));
                        assert(r.ext@[j] == (e@[j].0, spec_flatten_color(e@[j].1)));
                    }
                }
            }
        }
        r
    }
}

impl JoshutoTheme {
    /// The theme used where no theme file is found.
    pub fn new() -> (r: Self)
        ensures
            r.colorpair@ == default_color_pairs(),
            r.selection == default_look(3, true),
            r.executable == default_look(2, true),
            r.regular == default_look(0, false),
            r.directory == default_look(4, true),
            r.link == default_look(6, true),
            r.socket == default_look(6, true),
            r.ext@.len() == 0,
            r.wf(),
    {
        JoshutoTheme {
            colorpair: default_pairs(),
            selection: raw_look(3, Some(true)).flatten(),
            executable: raw_look(2, Some(true)).flatten(),
            regular: raw_look(0, None).flatten(),
            directory: raw_look(4, Some(true)).flatten(),
            link: raw_look(6, Some(true)).flatten(),
            socket: raw_look(6, Some(true)).flatten(),
            ext: Vec::new(),
        }
    }
}

} // verus!
