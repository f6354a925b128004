use vstd::prelude::*;

use crate::config::config::distinct_keys;

verus! {

/// The commands that open files, by mimetype, as a mimetype file gives them;
/// each command is a program followed by its arguments.
#[derive(Debug)]
pub struct JoshutoRawMimetype {
    pub mimetypes: Option<Vec<(String, Vec<Vec<String>>)>>,
}

/// The commands that open files, by mimetype; each command is a program
/// followed by its arguments.
#[derive(Debug)]
pub struct JoshutoMimetype {
    pub mimetypes: Vec<(String, Vec<Vec<String>>)>,
}

impl JoshutoRawMimetype {
    /// A file that gives nothing.
    pub fn new() -> (r: Self)
        ensures
            r.mimetypes is None,
    {
        JoshutoRawMimetype { mimetypes: None }
    }

    /// The commands that the file gives, and none where it gives none.
    pub fn flatten(self) -> (r: JoshutoMimetype)
        ensures
            r.mimetypes@ == (match self.mimetypes {
                Some(m) => m@,
                None => Seq::empty(),
            }),
    {
        let mimetypes = match self.mimetypes {
            Some(s) => s,
            None => Vec::new(),
        };
        JoshutoMimetype { mimetypes }
    }
}

impl JoshutoMimetype {
    /// No mimetype is listed twice.
    pub open spec fn wf(&self) -> bool {
        distinct_keys(self.mimetypes@)
    }

    /// No commands at all.
    pub fn new() -> (r: Self)
        ensures
            r.mimetypes@.len() == 0,
            r.wf(),
    {
        JoshutoMimetype { mimetypes: Vec::new() }
    }
}

} // verus!
