use vstd::prelude::*;

use crate::page_state::JoshutoPageState;

verus! {

/// The kind of file a directory entry names.
#[derive(Clone, Copy, Debug, PartialEq, Eq, Structural)]
pub enum FileKind {
    Directory,
    Symlink,
    BlockDevice,
    CharDevice,
    Fifo,
    Socket,
    Regular,
}

/// What the listing keeps of a file's metadata: its size, its modification
/// time in nanoseconds from the Unix epoch (negative before it), its mode
/// bits and its kind.
#[derive(Clone, Copy, Debug, PartialEq, Eq, Structural)]
pub struct JoshutoMetadata {
    pub len: u64,
    pub modified: i128,
    pub permissions: u32,
    pub file_type: FileKind,
}

impl JoshutoMetadata {
    /// Metadata made of the values read from the file system.
    pub fn from(len: u64, modified: i128, permissions: u32, file_type: FileKind) -> (r: Self)
        ensures
            r.len == len,
            r.modified == modified,
            r.permissions == permissions,
            r.file_type == file_type,
    {
        JoshutoMetadata { len, modified, permissions, file_type }
    }
}

/// One entry of a directory listing. `is_dir` tells whether the path leads
/// to a directory once symbolic links are followed.
#[derive(Clone, Debug)]
pub struct JoshutoDirEntry {
    pub file_name: String,
    pub file_name_as_string: String,
    pub path: String,
    pub is_dir: bool,
    pub metadata: JoshutoMetadata,
    pub selected: bool,
    pub marked: bool,
}

impl JoshutoDirEntry {
    /// An entry, neither selected nor marked, for a file of the given name,
    /// path and metadata.
    pub fn from(file_name: String, path: String, is_dir: bool, metadata: JoshutoMetadata) -> (r: Self)
        ensures
            r.file_name@ == file_name@,
            r.file_name_as_string@ == file_name@,
            r.path@ == path@,
            r.is_dir == is_dir,
            r.metadata == metadata,
            !r.selected,
            !r.marked,
    {
        let file_name_as_string = file_name.clone();
        JoshutoDirEntry {
            file_name,
            file_name_as_string,
            path,
            is_dir,
            metadata,
            selected: false,
            marked: false,
        }
    }
}

} // verus!

verus! {

/// The entry at position `i` of `s`.
pub open spec fn entry_at(s: Seq<JoshutoDirEntry>, i: usize) -> JoshutoDirEntry {
    s[i as int]
}

} // verus!

verus! {

/// The position of the first entry of `s` named `name`, if any.
pub open spec fn first_named(s: Seq<JoshutoDirEntry>, name: Seq<char>) -> Option<int>
    decreases s.len(),
{
    if s.len() == 0 {
        None
    } else if s[0].file_name@ == name {
        Some(0)
    } else {
        match first_named(s.drop_first(), name) {
            Some(i) => Some(i + 1),
            None => None,
        }
    }
}

/// Facts about the first entry of a given name.
pub proof fn lemma_first_named(s: Seq<JoshutoDirEntry>, name: Seq<char>)
    ensures
        match first_named(s, name) {
            Some(i) => 0 <= i < s.len() && s[i].file_name@ == name && forall|j: int|
                0 <= j < i ==> (#[trigger] s[j]).file_name@ != name,
            None => forall|j: int| 0 <= j < s.len() ==> (#[trigger] s[j]).file_name@ != name,
        },
    decreases s.len(),
{
    if s.len() > 0 {
        lemma_first_named(s.drop_first(), name);
        if s[0].file_name@ != name {
            assert forall|j: int| 0 < j < s.len() implies s[j] == s.drop_first()[j - 1] by {}
        }
    }
}

/// The position of the first entry of `contents` named `name`, if any.
pub fn find_named(contents: &Vec<JoshutoDirEntry>, name: &String) -> (r: Option<usize>)
    ensures
        match first_named(contents@, name@) {
            Some(k) => r == Some(k as usize),
            None => r is None,
        },
{
    proof {
        lemma_first_named(contents@, name@);
    }
    let mut i: usize = 0;
    while i < contents.len()
        invariant
            i <= contents@.len(),
            forall|j: int| 0 <= j < i ==> (#[trigger] contents@[j]).file_name@ != name@,
            match first_named(contents@, name@) {
                Some(k) => 0 <= k < contents@.len() && contents@[k].file_name@ == name@ && forall|
                    j: int,
                | 0 <= j < k ==> (#[trigger] contents@[j]).file_name@ != name@,
                None => forall|j: int|
                    0 <= j < contents@.len() ==> (#[trigger] contents@[j]).file_name@ != name@,
            },
        decreases contents.len() - i,
    {
        if *name == contents[i].file_name {
            return Some(i);
        }
        i = i + 1;
    }
    None
}

/// The cursor position after a listing has been read again: none when it is
/// empty; the last entry when the cursor was past it; the first entry of the
/// new listing with the name of the entry under the cursor, or the same
/// position when there is none; the first entry when there was no cursor.
pub open spec fn spec_reselect(
    old_index: i32,
    old_contents: Seq<JoshutoDirEntry>,
    new_contents: Seq<JoshutoDirEntry>,
) -> int {
    let len = new_contents.len() as int;
    if len == 0 {
        -1
    } else if old_index >= len {
        len - 1
    } else if 0 <= old_index {
        match first_named(new_contents, old_contents[old_index as int].file_name@) {
            Some(j) => j,
            None => old_index as int,
        }
    } else {
        0
    }
}

/// The cursor position after a listing has been read again.
pub fn reselect(
    old_index: i32,
    old_contents: &Vec<JoshutoDirEntry>,
    contents: &Vec<JoshutoDirEntry>,
) -> (r: i32)
    requires
        contents@.len() <= i32::MAX,
        old_index < old_contents@.len(),
    ensures
        r == spec_reselect(old_index, old_contents@, contents@),
        if contents@.len() == 0 {
            r == -1
        } else {
            0 <= r < contents@.len()
        },
{
    let contents_len = contents.len() as i32;
    assert(contents_len as int == contents@.len());
    if contents_len == 0 {
        -1
    } else if old_index >= contents_len {
        contents_len - 1
    } else if old_index >= 0 && old_index < contents_len {
        let index = old_index as usize;
        proof {
            lemma_first_named(contents@, old_contents@[index as int].file_name@);
        }
        match find_named(contents, &old_contents[index].file_name) {
            Some(j) => j as i32,
            None => old_index,
        }
    } else {
        0
    }
}

/// A directory listing: its entries, the cursor (`index`, -1 when the
/// listing is empty), and the part of it shown on screen.
#[derive(Debug)]
pub struct JoshutoDirList {
    pub index: i32,
    pub path: String,
    pub update_needed: bool,
    pub metadata: JoshutoMetadata,
    pub contents: Vec<JoshutoDirEntry>,
    pub pagestate: JoshutoPageState,
}

/// Whether `contents` are the entries of `entries` that `sort_type` keeps
/// (the same entries, each as many times), in its order.
#[verifier::opaque]
pub open spec fn keeps_sorted(
    contents: Seq<JoshutoDirEntry>,
    entries: Seq<JoshutoDirEntry>,
    sort_type: crate::sort::SortType,
) -> bool {
    &&& contents.to_multiset() == entries.filter(
        |e: JoshutoDirEntry| crate::sort::spec_keeps(sort_type.filter_func_spec(), e),
    ).to_multiset()
    &&& crate::sort::sorted_by(crate::sort::sort_fn_of(sort_type), contents)
}

impl JoshutoDirList {
    /// The cursor is on an entry, or the listing is empty and there is no cursor.
    pub open spec fn wf(&self) -> bool {
        &&& self.contents@.len() <= i32::MAX
        &&& if self.contents@.len() == 0 {
            self.index == -1
        } else {
            0 <= self.index < self.contents@.len()
        }
    }

    /// Whether `after` is this listing read again from `entries`, with the
    /// directory's new `metadata`: the kept entries in order, the cursor on
    /// the same file where it can be (`spec_reselect`), the same path and
    /// window, and no update pending.
    pub open spec fn updated_to(
        &self,
        after: JoshutoDirList,
        entries: Seq<JoshutoDirEntry>,
        metadata: JoshutoMetadata,
        sort_type: crate::sort::SortType,
    ) -> bool {
        &&& !after.update_needed
        &&& after.metadata == metadata
        &&& after.path == self.path
        &&& after.pagestate == self.pagestate
        &&& keeps_sorted(after.contents@, entries, sort_type)
        &&& after.index == spec_reselect(self.index, self.contents@, after.contents@)
    }

    /// The entries of `entries` that `sort_type` keeps, in its order.
    fn read_dir_list(entries: Vec<JoshutoDirEntry>, sort_type: &crate::sort::SortType) -> (r: Vec<
        JoshutoDirEntry,
    >)
        ensures
            keeps_sorted(r@, entries@, *sort_type),
            r@.len() <= entries@.len(),
    {
        let filter_func = sort_type.filter_func();
        let filtered = crate::sort::filter_entries(entries, filter_func);
        proof {
            broadcast use vstd::seq_lib::group_filter_ensures;
        }
        let sorted = crate::sort::sort_entries(filtered, sort_type.compare_func());
        proof {
            sorted@.to_multiset_ensures();
            filtered@.to_multiset_ensures();
            reveal(keeps_sorted);
        }
        sorted
    }

    /// A listing of the directory at `path`, made of the entries read there
    /// that `sort_type` keeps, in its order, with the cursor on the first one.
    pub fn new(
        path: String,
        metadata: JoshutoMetadata,
        entries: Vec<JoshutoDirEntry>,
        sort_type: &crate::sort::SortType,
    ) -> (r: Self)
        requires
            entries@.len() <= i32::MAX,
        ensures
            r.wf(),
            r.path@ == path@,
            r.metadata == metadata,
            !r.update_needed,
            keeps_sorted(r.contents@, entries@, *sort_type),
            r.index == (if r.contents@.len() > 0 {
                0i32
            } else {
                -1i32
            }),
            r.pagestate.start == 0 && r.pagestate.end == 0,
    {
        let contents = Self::read_dir_list(entries, sort_type);
        let index = if contents.len() > 0 {
            0
        } else {
            -1
        };
        let pagestate = JoshutoPageState::new();
        JoshutoDirList { index, path, update_needed: false, metadata, contents, pagestate }
    }

    /// Whether the listing must be read again: when it is marked so, when the
    /// directory was modified after the listing was read, or when its
    /// modification time (`modified`) could not be read.
    pub fn need_update(&self, modified: Option<i128>) -> (r: bool)
        ensures
            r == (self.update_needed || match modified {
                Some(m) => self.metadata.modified < m,
                None => true,
            }),
    {
        if self.update_needed {
            return true;
        }
        if let Some(modified) = modified {
            return self.metadata.modified < modified;
        }
        return true;
    }

    /// Replaces the entries with those read again (`entries`, with the
    /// directory's new `metadata`), keeping the cursor on the same file where
    /// it can.
    pub fn update_contents(
        &mut self,
        entries: Vec<JoshutoDirEntry>,
        metadata: JoshutoMetadata,
        sort_type: &crate::sort::SortType,
    )
        requires
            old(self).wf(),
            entries@.len() <= i32::MAX,
        ensures
            final(self).wf(),
            old(self).updated_to(*final(self), entries@, metadata, *sort_type),
    {
        self.update_needed = false;
        let contents = Self::read_dir_list(entries, sort_type);
        self.index = reselect(self.index, &self.contents, &contents);
        self.contents = contents;
        self.metadata = metadata;
    }

    /// The entry under the cursor, if any.
    pub fn get_curr_ref(&self) -> (r: Option<&JoshutoDirEntry>)
        ensures
            r == (if 0 <= self.index < self.contents@.len() {
                Some(&self.contents@[self.index as int])
            } else {
                None
            }),
    {
        self.get_curr_ref_(self.index)
    }

    fn get_curr_ref_(&self, index: i32) -> (r: Option<&JoshutoDirEntry>)
        ensures
            r == (if 0 <= index < self.contents@.len() {
                Some(&self.contents@[index as int])
            } else {
                None
            }),
    {
        if index >= 0 && (index as usize) < self.contents.len() {
            Some(&self.contents[index as usize])
        } else {
            None
        }
    }

    /// Selects the entry under the cursor if it was not selected, and the other way round.
    pub fn curr_toggle_select(&mut self)
        ensures
            final(self).index == old(self).index,
            final(self).contents@.len() == old(self).contents@.len(),
            forall|j: int|
                0 <= j < old(self).contents@.len() && j != old(self).index ==> final(self).contents@[j]
                    == old(self).contents@[j],
            0 <= old(self).index < old(self).contents@.len() ==> final(self).contents@[old(
                self,
            ).index as int] == (JoshutoDirEntry {
                selected: !old(self).contents@[old(self).index as int].selected,
                ..old(self).contents@[old(self).index as int]
            }),
            final(self).path == old(self).path,
            final(self).metadata == old(self).metadata,
            final(self).update_needed == old(self).update_needed,
            final(self).pagestate == old(self).pagestate,
    {
        let index = self.index;
        self.toggle_select(index);
    }

    fn toggle_select(&mut self, index: i32)
        ensures
            final(self).index == old(self).index,
            final(self).contents@.len() == old(self).contents@.len(),
            forall|j: int|
                0 <= j < old(self).contents@.len() && j != index ==> final(self).contents@[j] == old(
                    self,
                ).contents@[j],
            0 <= index < old(self).contents@.len() ==> final(self).contents@[index as int] == (
            JoshutoDirEntry {
                selected: !old(self).contents@[index as int].selected,
                ..old(self).contents@[index as int]
            }),
            final(self).path == old(self).path,
            final(self).metadata == old(self).metadata,
            final(self).update_needed == old(self).update_needed,
            final(self).pagestate == old(self).pagestate,
    {
        if index >= 0 && (index as usize) < self.contents.len() {
            let i = index as usize;
            let mut entry = self.contents.remove(i);
            entry.selected = !entry.selected;
            self.contents.insert(i, entry);
        }
    }
}

} // verus!
