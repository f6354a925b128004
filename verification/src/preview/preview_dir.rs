use vstd::prelude::*;

verus! {

/// Where the listing of a directory shown in the preview stands.
#[derive(Clone, Debug)]
pub enum PreviewDirState {
    /// It is being read in the background.
    Loading,
    /// Reading it failed.
    Error { message: String },
}

impl PreviewDirState {
    /// Whether the listing is still being read.
    pub fn is_loading(&self) -> (r: bool)
        ensures
            r == (*self is Loading),
    {
        match self {
            PreviewDirState::Loading => true,
            PreviewDirState::Error { .. } => false,
        }
    }
}

/// Reads directory listings for the preview in the background.
#[derive(Clone, Copy, Debug, PartialEq, Eq, Structural)]
pub struct Background {}

} // verus!
