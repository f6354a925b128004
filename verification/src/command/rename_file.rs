use vstd::prelude::*;

verus! {

/// Where the cursor starts when renaming: before the extension, at the
/// start of the name, or with an empty name.
#[derive(Clone, Copy, Debug, PartialEq, Eq, Structural)]
pub enum RenameFileMethod {
    Append,
    Prepend,
    Overwrite,
}

/// The position of the last `c` in `s`, if any.
pub open spec fn spec_rfind(s: Seq<char>, c: char) -> Option<int>
    decreases s.len(),
{
    if s.len() == 0 {
        None
    } else if s.last() == c {
        Some(s.len() - 1)
    } else {
        spec_rfind(s.drop_last(), c)
    }
}

/// The last position of a character lies inside the sequence and holds it.
pub proof fn lemma_rfind_range(s: Seq<char>, c: char)
    ensures
        spec_rfind(s, c) matches Some(i) ==> 0 <= i < s.len() && s[i] == c,
    decreases s.len(),
{
    if s.len() > 0 && s.last() != c {
        lemma_rfind_range(s.drop_last(), c);
    }
}

/// The text before and after the cursor when renaming the file `name`.
pub open spec fn spec_initial_text(method: RenameFileMethod, name: Seq<char>) -> (Seq<char>, Seq<char>) {
    match method {
        RenameFileMethod::Append => match spec_rfind(name, '.') {
            Some(i) => (name.subrange(0, i), name.subrange(i, name.len() as int)),
            None => (name, Seq::empty()),
        },
        RenameFileMethod::Prepend => (Seq::empty(), name),
        RenameFileMethod::Overwrite => (Seq::empty(), Seq::empty()),
    }
}

/// Asks for a new name for the file under the cursor, starting from its name.
#[derive(Clone, Copy, Debug, PartialEq, Eq, Structural)]
pub struct RenameFile {
    pub method: RenameFileMethod,
}

/// The position of the last `c` in `v`, if any.
pub fn rfind_char(v: &[char], c: char) -> (r: Option<usize>)
    ensures
        match spec_rfind(v@, c) {
            Some(i) => r == Some(i as usize),
            None => r is None,
        },
{
    let mut k: usize = v.len();
    assert(v@.take(k as int) =~= v@);
    while k > 0
        invariant
            k <= v@.len(),
            spec_rfind(v@, c) == spec_rfind(v@.take(k as int), c),
        decreases k,
    {
        assert(v@.take(k as int).drop_last() =~= v@.take(k - 1));
        if v[k - 1] == c {
            return Some(k - 1);
        }
        k = k - 1;
    }
    None
}

impl RenameFile {
    /// The command with its way of starting.
    pub fn new(method: RenameFileMethod) -> (r: Self)
        ensures
            r.method == method,
    {
        RenameFile { method }
    }

    /// The name the command is written with in a keymap.
    pub fn command() -> (r: &'static str)
        ensures
            r@ == "rename_file"@,
    {
        proof {
            reveal_strlit("rename_file");
        }
        "rename_file"
    }

    /// The command as a keymap writes it: its name.
    pub fn to_string(&self) -> (r: String)
        ensures
            r@ == "rename_file"@,
    {
        String::from_str(Self::command())
    }

    /// The text before and after the cursor when the prompt for renaming the
    /// file `start_str` opens.
    pub fn initial_text(&self, start_str: &str) -> (r: (String, String))
        ensures
            r.0@ == spec_initial_text(self.method, start_str@).0,
            r.1@ == spec_initial_text(self.method, start_str@).1,
    {
        let v = crate::text::str_to_chars(start_str);
        proof {
            assert(v@.take(v@.len() as int) =~= v@);
        }
        match self.method {
            RenameFileMethod::Append => match rfind_char(v.as_slice(), '.') {
                Some(ext) => {
                    proof {
                        lemma_rfind_range(v@, '.');
                    }
                    (
                    crate::text::chars_to_string(v.as_slice(), 0, ext),
                    crate::text::chars_to_string(v.as_slice(), ext, v.len()),
                )
                },
                None => (crate::text::seq_to_string(&v), String::new()),
            },
            RenameFileMethod::Prepend => (String::new(), crate::text::seq_to_string(&v)),
            RenameFileMethod::Overwrite => (String::new(), String::new()),
        }
    }
}

impl super::JoshutoCommand for RenameFile {}

} // verus!
