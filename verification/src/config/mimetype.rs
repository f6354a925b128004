use vstd::prelude::*;

use super::config::distinct_keys;

verus! {

broadcast use vstd::string::group_string_axioms;

/// A program that opens files, with its arguments, and whether it runs in
/// the background and without output.
#[derive(Clone, Debug)]
pub struct JoshutoMimetypeEntry {
    pub program: String,
    pub args: Option<Vec<String>>,
    pub fork: Option<bool>,
    pub silent: Option<bool>,
}

/// The arguments, each after a space.
pub open spec fn spec_spaced_args(args: Seq<String>) -> Seq<char>
    decreases args.len(),
{
    if args.len() == 0 {
        Seq::empty()
    } else {
        spec_spaced_args(args.drop_last()) + " "@ + args.last()@
    }
}

/// How an opening program is listed: the program and its arguments, then
/// its flags in brackets after a tab.
pub open spec fn spec_entry_display(e: JoshutoMimetypeEntry) -> Seq<char> {
    e.program@ + (match e.args {
        Some(a) => spec_spaced_args(a@),
        None => Seq::empty(),
    }) + "\t["@ + (if e.fork == Some(true) {
        "fork,"@
    } else {
        Seq::empty()
    }) + (if e.silent == Some(true) {
        "silent"@
    } else {
        Seq::empty()
    }) + "]"@
}

impl JoshutoMimetypeEntry {
    /// The program as it is listed, as `spec_entry_display` says.
    pub fn to_string(&self) -> (r: String)
        ensures
            r@ == spec_entry_display(*self),
    {
        let mut s = self.program.clone();
        match &self.args {
            Some(a) => {
                let ghost start = s@;
                let mut i: usize = 0;
                while i < a.len()
                    invariant
                        i <= a@.len(),
                        s@ == start + spec_spaced_args(a@.take(i as int)),
                    decreases a@.len() - i,
                {
                    assert(a@.take(i + 1).drop_last() =~= a@.take(i as int));
                    s.append(" ");
                    s.append(a[i].as_str());
                    i = i + 1;
                }
                assert(a@.take(i as int) =~= a@);
            },
            None => {},
        }
        let ghost s1 = s@;
        s.append("\t[");
        let ghost s2 = s@;
        if self.fork == Some(true) {
            s.append("fork,");
        }
        let ghost s3 = s@;
        if self.silent == Some(true) {
            s.append("silent");
        }
        let ghost s4 = s@;
        s.append("]");
        proof {
            assert(s3 =~= s2 + (if self.fork == Some(true) {
                "fork,"@
            } else {
                Seq::<char>::empty()
            }));
            assert(s4 =~= s3 + (if self.silent == Some(true) {
                "silent"@
            } else {
                Seq::<char>::empty()
            }));
        }
        s
    }
}

/// The programs by mimetype and by extension as a mimetype file gives them.
#[derive(Debug)]
pub struct JoshutoRawMimetype {
    pub mimetype: Option<Vec<(String, Vec<JoshutoMimetypeEntry>)>>,
    pub extension: Option<Vec<(String, Vec<JoshutoMimetypeEntry>)>>,
}

/// The programs that open files, by the file's mimetype and by its extension.
#[derive(Debug)]
pub struct JoshutoMimetype {
    pub mimetype: Vec<(String, Vec<JoshutoMimetypeEntry>)>,
    pub extension: Vec<(String, Vec<JoshutoMimetypeEntry>)>,
}

impl JoshutoMimetype {
    /// No mimetype and no extension is listed twice.
    pub open spec fn wf(&self) -> bool {
        distinct_keys(self.mimetype@) && distinct_keys(self.extension@)
    }

    /// No programs at all.
    pub fn new() -> (r: Self)
        ensures
            r.mimetype@.len() == 0,
            r.extension@.len() == 0,
            r.wf(),
    {
        JoshutoMimetype { mimetype: Vec::new(), extension: Vec::new() }
    }
}

impl JoshutoRawMimetype {
    /// A file that gives nothing.
    pub fn new() -> (r: Self)
        ensures
            r.mimetype is None,
            r.extension is None,
    {
        JoshutoRawMimetype { mimetype: None, extension: None }
    }

    /// The programs that the file gives, and none where it gives none.
    pub fn flatten(self) -> (r: JoshutoMimetype)
        ensures
            r.mimetype@ == (match self.mimetype {
                Some(m) => m@,
                None => Seq::empty(),
            }),
            r.extension@ == (match self.extension {
                Some(m) => m@,
                None => Seq::empty(),
            }),
    {
        let mimetype = match self.mimetype {
            Some(m) => m,
            None => Vec::new(),
        };
        let extension = match self.extension {
            Some(m) => m,
            None => Vec::new(),
        };
        JoshutoMimetype { mimetype, extension }
    }
}

} // verus!
