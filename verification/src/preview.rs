pub mod preview_default;
pub mod preview_dir;
pub mod preview_entry;
pub mod preview_file;
pub mod preview_sh;

use vstd::prelude::*;

use crate::command::open_file::{path_extension, spec_path_extension};
use crate::config::config::{lookup, spec_lookup};
use crate::config::preview::{JoshutoPreview, JoshutoPreviewEntry};
use crate::text::{chars_eq, find_char, lemma_find, seq_to_string, spec_find, str_to_chars, sub_chars};

verus! {

broadcast use vstd::string::group_string_axioms;

/// How the entry under the cursor is previewed.
#[derive(Clone, Copy, Debug, PartialEq, Eq, Structural)]
pub enum EntryPreview {
    /// Show the listing of the directory.
    Directory,
    /// Show a preview of the file.
    File,
}

/// How to preview an entry: a directory by its listing, a regular file of
/// at most `max_preview_size` bytes by its content, and anything else not
/// at all, with the reason.
pub fn preview_entry(is_dir: bool, is_file: bool, len: u64, max_preview_size: u64) -> (r: Result<
    EntryPreview,
    &'static str,
>)
    ensures
        is_dir ==> r == Ok::<EntryPreview, &'static str>(EntryPreview::Directory),
        !is_dir && is_file && len <= max_preview_size ==> r == Ok::<EntryPreview, &'static str>(
            EntryPreview::File,
        ),
        !is_dir && is_file && len > max_preview_size ==> (r matches Err(m) && m@
            == "File size exceeds max preview size"@),
        !is_dir && !is_file ==> (r matches Err(m) && m@ == "Not a regular file"@),
{
    if is_dir {
        Ok(EntryPreview::Directory)
    } else if is_file {
        if len <= max_preview_size {
            Ok(EntryPreview::File)
        } else {
            Err("File size exceeds max preview size")
        }
    } else {
        Err("Not a regular file")
    }
}

/// How a file is previewed.
#[derive(Clone, Debug)]
pub enum PreviewChoice<'a> {
    /// By running this program on it.
    With(&'a JoshutoPreviewEntry),
    /// By showing its lines.
    Text,
    /// Not at all.
    Nothing,
}

/// The media type that `tree_magic` finds for the file at `path` from its
/// content, such as `text/plain`, by `tree_magic::from_filepath_node` from
/// the root `all/all` of its type graph. That is the one node no other node
/// leads to (the crate's base types hang below it, and every other top type
/// is put below them), so it is the node that `tree_magic::from_filepath`
/// starts from as well. `None` where the file cannot be opened or read, or
/// no type graph is loaded, where `from_filepath` would panic. It depends on
/// the file on disk, so nothing is stated of it. The crate also reads the
/// system's magic database from disk; its parser asserts on a malformed
/// database, which no condition on `path` can rule out, and that is left
/// unsaid here.
#[verifier::external_body]
fn mime_type_of(path: &str) -> (r: Option<String>) {
    match tree_magic::TYPE.hash.get("all/all") {
        Some(root) => tree_magic::from_filepath_node(*root, std::path::Path::new(path)),
        None => None,
    }
}

/// Whether `r` is how a file of the media type `mime` is previewed when its
/// extension has no program: with the program for the whole type, else a
/// text file by its lines, else with the program for the part before `/`.
pub open spec fn spec_preview_by_mime(mime: Seq<char>, t: JoshutoPreview, r: PreviewChoice) -> bool {
    match spec_lookup(t.mimetype@, mime) {
        Some(e) => r matches PreviewChoice::With(x) && *x == e,
        None => match spec_find(mime, '/') {
            Some(i) => if mime.take(i) == "text"@ {
                r is Text
            } else {
                match spec_lookup(t.mimetype@, mime.take(i)) {
                    Some(e) => r matches PreviewChoice::With(x) && *x == e,
                    None => r is Nothing,
                }
            },
            None => r is Nothing,
        },
    }
}

/// How a file of the media type `mime` is previewed when its extension has
/// no program, as `spec_preview_by_mime` says.
pub fn preview_by_mime<'a>(mime: &str, preview_t: &'a JoshutoPreview) -> (r: PreviewChoice<'a>)
    ensures
        spec_preview_by_mime(mime@, *preview_t, r),
{
    match lookup(&preview_t.mimetype, mime) {
        Some(e) => PreviewChoice::With(e),
        None => {
            let v = str_to_chars(mime);
            proof {
                lemma_find(v@, '/');
            }
            match find_char(v.as_slice(), '/') {
                Some(i) => {
                    let sup = sub_chars(v.as_slice(), 0, i);
                    assert(sup@ =~= mime@.take(i as int));
                    if chars_eq(sup.as_slice(), "text") {
                        PreviewChoice::Text
                    } else {
                        let s = seq_to_string(&sup);
                        match lookup(&preview_t.mimetype, s.as_str()) {
                            Some(e) => PreviewChoice::With(e),
                            None => PreviewChoice::Nothing,
                        }
                    }
                },
                None => PreviewChoice::Nothing,
            }
        },
    }
}

/// How a file is previewed once its content was looked at: as the media
/// type `found` says (`spec_preview_by_mime`), or not at all where no media
/// type was found.
pub open spec fn spec_preview_by_found(found: Option<Seq<char>>, t: JoshutoPreview, r: PreviewChoice) -> bool {
    match found {
        Some(m) => spec_preview_by_mime(m, t, r),
        None => r is Nothing,
    }
}

/// How the file `path` is previewed: with the program for its extension,
/// else as the media type found from its content says
/// (`spec_preview_by_found`).
pub fn preview_file<'a>(path: &str, preview_t: &'a JoshutoPreview) -> (r: PreviewChoice<'a>)
    ensures
        match spec_path_extension(path@) {
            Some(ext) => match spec_lookup(preview_t.extension@, ext) {
                Some(e) => r matches PreviewChoice::With(x) && *x == e,
                None => exists|m: Option<Seq<char>>| spec_preview_by_found(m, *preview_t, r),
            },
            None => exists|m: Option<Seq<char>>| spec_preview_by_found(m, *preview_t, r),
        },
{
    if let Some(ext) = path_extension(path) {
        if let Some(e) = lookup(&preview_t.extension, ext.as_str()) {
            return PreviewChoice::With(e);
        }
    }
    match mime_type_of(path) {
        Some(mime) => {
            let r = preview_by_mime(mime.as_str(), preview_t);
            assert(spec_preview_by_found(Some(mime@), *preview_t, r));
            r
        },
        None => {
            let r = PreviewChoice::Nothing;
            assert(spec_preview_by_found(None, *preview_t, r));
            r
        },
    }
}

} // verus!
