use vstd::prelude::*;

verus! {

/// A program, with its arguments, that makes the preview of a kind of file.
#[derive(Clone, Debug)]
pub struct FileEntryPreviewEntry {
    pub program: String,
    pub args: Option<Vec<String>>,
}

} // verus!
