use vstd::prelude::*;

use super::config::distinct_keys;

verus! {

/// A program that previews files, with its arguments.
#[derive(Clone, Debug)]
pub struct JoshutoPreviewEntry {
    pub program: String,
    pub args: Option<Vec<String>>,
}

/// The preview programs by mimetype and by extension as a preview file gives them.
#[derive(Debug)]
pub struct JoshutoRawPreview {
    pub mimetype: Option<Vec<(String, JoshutoPreviewEntry)>>,
    pub extension: Option<Vec<(String, JoshutoPreviewEntry)>>,
}

/// The programs that preview files, by the file's mimetype and by its extension.
#[derive(Debug)]
pub struct JoshutoPreview {
    pub mimetype: Vec<(String, JoshutoPreviewEntry)>,
    pub extension: Vec<(String, JoshutoPreviewEntry)>,
}

impl JoshutoRawPreview {
    /// A file that gives nothing.
    pub fn new() -> (r: Self)
        ensures
            r.mimetype is None,
            r.extension is None,
    {
        JoshutoRawPreview { mimetype: None, extension: None }
    }

    /// The preview programs that the file gives, and none where it gives none.
    pub fn flatten(self) -> (r: JoshutoPreview)
        ensures
            r.mimetype@ == (match self.mimetype {
                Some(m) => m@,
                None => Seq::empty(),
            }),
            r.extension@ == (match self.extension {
                Some(m) => m@,
                None => Seq::empty(),
            }),
    {
        let mimetype = match self.mimetype {
            Some(m) => m,
            None => Vec::new(),
        };
        let extension = match self.extension {
            Some(m) => m,
            None => Vec::new(),
        };
        JoshutoPreview { mimetype, extension }
    }
}

impl JoshutoPreview {
    /// No mimetype and no extension is listed twice.
    pub open spec fn wf(&self) -> bool {
        distinct_keys(self.mimetype@) && distinct_keys(self.extension@)
    }

    /// No preview programs at all.
    pub fn new() -> (r: Self)
        ensures
            r.mimetype@.len() == 0,
            r.extension@.len() == 0,
            r.wf(),
    {
        JoshutoPreview { mimetype: Vec::new(), extension: Vec::new() }
    }
}

} // verus!
