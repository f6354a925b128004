use vstd::prelude::*;

use crate::text::push_char;

verus! {

broadcast use vstd::string::group_string_axioms;

/// The text that `String::from_utf8_lossy` makes of the bytes `b`: the
/// bytes read as UTF-8, with each malformed sequence replaced by U+FFFD.
pub uninterp spec fn spec_utf8_lossy(b: Seq<u8>) -> Seq<char>;

/// The bytes `b` read as UTF-8 (`String::from_utf8_lossy`).
#[verifier::external_body]
fn utf8_lossy(b: &Vec<u8>) -> (r: String)
    ensures
        r@ == spec_utf8_lossy(b@),
{
    String::from_utf8_lossy(b.as_slice()).to_string()
}

/// `s` with each tab replaced by eight spaces.
pub open spec fn spec_expand_tabs(s: Seq<char>) -> Seq<char>
    decreases s.len(),
{
    if s.len() == 0 {
        Seq::empty()
    } else {
        spec_expand_tabs(s.drop_last()) + (if s.last() == '\t' {
            "        "@
        } else {
            seq![s.last()]
        })
    }
}

/// `s` with each tab replaced by eight spaces.
pub fn expand_tabs(s: &str) -> (r: String)
    ensures
        r@ == spec_expand_tabs(s@),
{
    let v = crate::text::str_to_chars(s);
    let mut out = String::new();
    let mut i: usize = 0;
    while i < v.len()
        invariant
            i <= v@.len(),
            v@ == s@,
            out@ == spec_expand_tabs(v@.take(i as int)),
        decreases v@.len() - i,
    {
        assert(v@.take(i + 1).drop_last() =~= v@.take(i as int));
        if v[i] == '\t' {
            out.append("        ");
        } else {
            let ghost before = out@;
            push_char(&mut out, v[i]);
            assert(out@ =~= before + seq![v@[i as int]]);
        }
        i = i + 1;
    }
    assert(v@.take(i as int) =~= v@);
    out
}

/// The preview of a file made by a program: how the program ended (its
/// exit code, where it gave one), what it printed, the first line shown,
/// and when it was made, in nanoseconds from the Unix epoch.
#[derive(Clone, Debug)]
pub struct FilePreview {
    pub status: Option<i32>,
    pub output: String,
    pub index: usize,
    pub modified: i128,
}

impl FilePreview {
    /// The preview of a program that printed `stdout` and ended with
    /// `status`, made at `modified`: its output read as UTF-8 with tabs
    /// widened to eight spaces, shown from its first line.
    pub fn from(stdout: Vec<u8>, status: Option<i32>, modified: i128) -> (r: Self)
        ensures
            r.status == status,
            r.output@ == spec_expand_tabs(spec_utf8_lossy(stdout@)),
            r.index == 0,
            r.modified == modified,
    {
        let s = utf8_lossy(&stdout);
        let output = expand_tabs(s.as_str());
        FilePreview { status, output, index: 0, modified }
    }
}

/// Where the preview of a file stands.
#[derive(Clone, Debug)]
pub enum PreviewFileState {
    /// It is being made.
    Loading,
    /// Making it failed.
    Error(String),
    /// It is ready.
    Success(FilePreview),
}

} // verus!
