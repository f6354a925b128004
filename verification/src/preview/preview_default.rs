use vstd::prelude::*;

use super::preview_dir::PreviewDirState;

verus! {

/// What a preview needs next.
#[derive(Clone, Copy, Debug, PartialEq, Eq, Structural)]
pub enum PreviewLoad {
    /// Read the directory in the background.
    Directory,
    /// Make the preview of the file.
    File,
    /// Nothing.
    Nothing,
}

/// What to preview for the program's current state.
#[derive(Clone, Copy, Debug, PartialEq, Eq, Structural)]
pub enum PreviewTarget {
    /// The entry under the cursor, at this position of the listing.
    Entry(usize),
    /// The current directory itself, when it has no listing.
    CurrentDirectory,
}

/// What to preview: the entry under the cursor of the current listing where
/// there is a listing with a cursor, nothing where there is a listing
/// without one, and the current directory where there is no listing.
pub fn load_previews(curr_list_index: Option<Option<usize>>) -> (r: Option<PreviewTarget>)
    ensures
        match curr_list_index {
            Some(Some(i)) => r == Some(PreviewTarget::Entry(i)),
            Some(None) => r is None,
            None => r == Some(PreviewTarget::CurrentDirectory),
        },
{
    match curr_list_index {
        Some(Some(i)) => Some(PreviewTarget::Entry(i)),
        Some(None) => None,
        None => Some(PreviewTarget::CurrentDirectory),
    }
}

/// What previewing the path with the metadata `is_dir` and `len` needs. A
/// directory is read in the background unless the history knows its state
/// as not loading or holds a listing of it that needs no update; a file is
/// previewed when it is at most `max_preview_size` bytes long.
pub fn load_preview_path(
    is_dir: bool,
    len: u64,
    max_preview_size: u64,
    history_state: Option<&PreviewDirState>,
    history_needs_update: Option<bool>,
) -> (r: PreviewLoad)
    ensures
        is_dir ==> r == (if (match history_state {
            Some(s) => s is Loading,
            None => true,
        }) && (match history_needs_update {
            Some(b) => b,
            None => true,
        }) {
            PreviewLoad::Directory
        } else {
            PreviewLoad::Nothing
        }),
        !is_dir ==> r == (if len <= max_preview_size {
            PreviewLoad::File
        } else {
            PreviewLoad::Nothing
        }),
{
    if is_dir {
        let loading = match history_state {
            Some(s) => s.is_loading(),
            None => true,
        };
        let stale = match history_needs_update {
            Some(b) => b,
            None => true,
        };
        if loading && stale {
            PreviewLoad::Directory
        } else {
            PreviewLoad::Nothing
        }
    } else if len <= max_preview_size {
        PreviewLoad::File
    } else {
        PreviewLoad::Nothing
    }
}

} // verus!
