use vstd::prelude::*;

use crate::structs::{JoshutoDirEntry, JoshutoDirList};
use crate::text::{chars_eq, str_to_chars};

verus! {

/// The listings of directories visited before, at most one for each path.
#[derive(Debug)]
pub struct DirHistory {
    pub map: Vec<JoshutoDirList>,
}

/// Whether the listing `l` is of the directory `path`.
pub open spec fn at_path(l: JoshutoDirList, path: Seq<char>) -> bool {
    l.path@ == path
}

/// The listing of `path` among `s`, if there is one.
pub open spec fn spec_get(s: Seq<JoshutoDirList>, path: Seq<char>) -> Option<JoshutoDirList> {
    if exists|i: int| 0 <= i < s.len() && at_path(#[trigger] s[i], path) {
        Some(s[choose|i: int| 0 <= i < s.len() && at_path(#[trigger] s[i], path)])
    } else {
        None
    }
}

/// No two listings of `s` are of the same path.
pub open spec fn distinct_paths(s: Seq<JoshutoDirList>) -> bool {
    forall|i: int, j: int| 0 <= i < s.len() && 0 <= j < s.len() && i != j ==> s[i].path@ != s[j].path@
}

/// The listing `l` marked as needing to be read again.
pub open spec fn deprecated(l: JoshutoDirList) -> JoshutoDirList {
    JoshutoDirList { update_needed: true, ..l }
}

proof fn lemma_get_at(s: Seq<JoshutoDirList>, i: int)
    requires
        distinct_paths(s),
        0 <= i < s.len(),
    ensures
        spec_get(s, s[i].path@) == Some(s[i]),
{
    assert(at_path(s[i], s[i].path@));
}

/// Whether `a` and `b` are the same path.
fn same_path(a: &String, b: &str) -> (r: bool)
    ensures
        r == (a@ == b@),
{
    let v = str_to_chars(a.as_str());
    chars_eq(v.as_slice(), b)
}

/// The position of the listing of `path` in `s`, if there is one.
fn position(s: &Vec<JoshutoDirList>, path: &str) -> (r: Option<usize>)
    ensures
        match r {
            Some(i) => i < s@.len() && s@[i as int].path@ == path@,
            None => forall|i: int| 0 <= i < s@.len() ==> s@[i].path@ != path@,
        },
{
    let mut i: usize = 0;
    while i < s.len()
        invariant
            i <= s@.len(),
            forall|j: int| 0 <= j < i ==> s@[j].path@ != path@,
        decreases s@.len() - i,
    {
        if same_path(&s[i].path, path) {
            return Some(i);
        }
        i = i + 1;
    }
    None
}

/// The position of the first entry of `s` at the path `path`, if any.
pub open spec fn first_at_path(s: Seq<JoshutoDirEntry>, path: Seq<char>) -> Option<int>
    decreases s.len(),
{
    if s.len() == 0 {
        None
    } else if s[0].path@ == path {
        Some(0)
    } else {
        match first_at_path(s.drop_first(), path) {
            Some(i) => Some(i + 1),
            None => None,
        }
    }
}

proof fn lemma_first_at_path(s: Seq<JoshutoDirEntry>, path: Seq<char>)
    ensures
        match first_at_path(s, path) {
            Some(i) => 0 <= i < s.len() && s[i].path@ == path && forall|j: int|
                0 <= j < i ==> (#[trigger] s[j]).path@ != path,
            None => forall|j: int| 0 <= j < s.len() ==> (#[trigger] s[j]).path@ != path,
        },
    decreases s.len(),
{
    if s.len() > 0 {
        lemma_first_at_path(s.drop_first(), path);
        if s[0].path@ != path {
            assert forall|j: int| 0 < j < s.len() implies s[j] == s.drop_first()[j - 1] by {}
        }
    }
}

/// The position of the first entry of `contents` at the path `path`, if any.
fn find_path(contents: &Vec<JoshutoDirEntry>, path: &str) -> (r: Option<usize>)
    ensures
        match first_at_path(contents@, path@) {
            Some(k) => r == Some(k as usize),
            None => r is None,
        },
{
    proof {
        lemma_first_at_path(contents@, path@);
    }
    let mut i: usize = 0;
    while i < contents.len()
        invariant
            i <= contents@.len(),
            forall|j: int| 0 <= j < i ==> (#[trigger] contents@[j]).path@ != path@,
            match first_at_path(contents@, path@) {
                Some(k) => 0 <= k < contents@.len() && contents@[k].path@ == path@ && forall|j: int|
                    0 <= j < k ==> (#[trigger] contents@[j]).path@ != path@,
                None => forall|j: int| 0 <= j < contents@.len() ==> (#[trigger] contents@[j]).path@ != path@,
            },
        decreases contents@.len() - i,
    {
        if same_path(&contents[i].path, path) {
            return Some(i);
        }
        i = i + 1;
    }
    None
}

/// The listing `s` with its cursor on its first entry at the path `child`,
/// where it has one; else `s` as it is.
pub open spec fn pointed_at(s: JoshutoDirList, child: Seq<char>) -> JoshutoDirList {
    match first_at_path(s.contents@, child) {
        Some(i) => JoshutoDirList { index: i as i32, ..s },
        None => s,
    }
}

/// The position of the last of `pairs` whose listing is of the directory
/// `path`, if any.
pub open spec fn last_listing_of(pairs: Seq<(String, JoshutoDirList)>, path: Seq<char>) -> Option<int>
    decreases pairs.len(),
{
    if pairs.len() == 0 {
        None
    } else if pairs.last().1.path@ == path {
        Some(pairs.len() - 1)
    } else {
        last_listing_of(pairs.drop_last(), path)
    }
}

proof fn lemma_last_listing_range(pairs: Seq<(String, JoshutoDirList)>, path: Seq<char>)
    ensures
        last_listing_of(pairs, path) matches Some(k) ==> 0 <= k < pairs.len(),
    decreases pairs.len(),
{
    if pairs.len() > 0 && pairs.last().1.path@ != path {
        lemma_last_listing_range(pairs.drop_last(), path);
    }
}

/// The listing of `path` once each of `pairs` was recorded after a history
/// whose listing of it was `before`: the last listing of the path among
/// them, pointed at its directory, else `before`.
pub open spec fn populated(
    pairs: Seq<(String, JoshutoDirList)>,
    path: Seq<char>,
    before: Option<JoshutoDirList>,
) -> Option<JoshutoDirList> {
    match last_listing_of(pairs, path) {
        Some(k) => Some(pointed_at(pairs[k].1, pairs[k].0@)),
        None => before,
    }
}

impl DirHistory {
    /// No two listings are of the same path.
    pub open spec fn wf(&self) -> bool {
        distinct_paths(self.map@)
    }

    /// The listing of `path`, if the history holds one.
    pub open spec fn get(&self, path: Seq<char>) -> Option<JoshutoDirList> {
        spec_get(self.map@, path)
    }

    /// Whether `after` is what keeping the listing `s` in this history
    /// leaves: `s` is read at its path, and every other path reads as before.
    pub open spec fn put_back_leaves(&self, s: JoshutoDirList, after: DirHistory) -> bool {
        &&& after.get(s.path@) == Some(s)
        &&& forall|p: Seq<char>| p != s.path@ ==> #[trigger] after.get(p) == self.get(p)
    }

    /// Whether `r` and `after` are what taking the listing of `path` out of
    /// this history gives and leaves: `r` is what was read at `path`, which
    /// then reads nothing, and every other path reads as before.
    pub open spec fn pop_leaves(&self, path: Seq<char>, r: Option<JoshutoDirList>, after: DirHistory) -> bool {
        &&& r == self.get(path)
        &&& after.get(path) is None
        &&& forall|p: Seq<char>| p != path ==> #[trigger] after.get(p) == self.get(p)
    }

    /// An empty history.
    pub fn new() -> (r: Self)
        ensures
            r.wf(),
            forall|p: Seq<char>| #[trigger] r.get(p) is None,
    {
        DirHistory { map: Vec::new() }
    }

    /// Keeps the listing `dirlist`, if there is one, in place of any listing
    /// of its path.
    pub fn put_back(&mut self, dirlist: Option<JoshutoDirList>)
        requires
            old(self).wf(),
        ensures
            final(self).wf(),
            match dirlist {
                Some(s) => old(self).put_back_leaves(s, *final(self)),
                None => forall|p: Seq<char>| #[trigger] final(self).get(p) == old(self).get(p),
            },
    {
        if let Some(s) = dirlist {
            let ghost old_map = self.map@;
            let ghost key = s.path@;
            let ghost sv = s;
            match position(&self.map, s.path.as_str()) {
                Some(i) => {
                    self.map.set(i, s);
                    proof {
                        assert(distinct_paths(self.map@)) by {
                            assert forall|a: int, b: int|
                                0 <= a < self.map@.len() && 0 <= b < self.map@.len() && a != b
                                implies self.map@[a].path@ != self.map@[b].path@ by {
                                if a != i && b != i {
                                    assert(self.map@[a] == old_map[a] && self.map@[b] == old_map[b]);
                                } else if a == i {
                                    assert(old_map[i as int].path@ == key);
                                    assert(self.map@[b] == old_map[b]);
                                } else {
                                    assert(old_map[i as int].path@ == key);
                                    assert(self.map@[a] == old_map[a]);
                                }
                            }
                        }
                        lemma_get_at(self.map@, i as int);
                        assert forall|p: Seq<char>| p != key implies #[trigger] spec_get(self.map@, p)
                            == spec_get(old_map, p) by {
                            assert forall|j: int| 0 <= j < old_map.len() implies at_path(
                                #[trigger] old_map[j],
                                p,
                            ) == at_path(self.map@[j], p) by {
                                if j == i {
                                    assert(old_map[j].path@ == key);
                                }
                            }
                            if exists|j: int| 0 <= j < old_map.len() && at_path(#[trigger] old_map[j], p) {
                                let j = choose|j: int| 0 <= j < old_map.len() && at_path(#[trigger] old_map[j], p);
                                assert(at_path(self.map@[j], p));
                                lemma_get_at(old_map, j);
                                lemma_get_at(self.map@, j);
                                assert(j != i);
                            }
                        }
                    }
                },
                None => {
                    self.map.push(s);
                    proof {
                        let n = old_map.len() as int;
                        assert(self.map@[n] == sv);
                        lemma_get_at(self.map@, n);
                        assert forall|p: Seq<char>| p != key implies #[trigger] spec_get(self.map@, p)
                            == spec_get(old_map, p) by {
                            if exists|j: int| 0 <= j < old_map.len() && at_path(#[trigger] old_map[j], p) {
                                let j = choose|j: int| 0 <= j < old_map.len() && at_path(#[trigger] old_map[j], p);
                                assert(self.map@[j] == old_map[j]);
                                lemma_get_at(old_map, j);
                                lemma_get_at(self.map@, j);
                            } else {
                                assert forall|j: int| 0 <= j < self.map@.len() implies self.map@[j].path@
                                    != p by {
                                    if j < n {
                                        assert(self.map@[j] == old_map[j]);
                                        assert(!at_path(old_map[j], p));
                                    }
                                }
                            }
                        }
                    }
                },
            }
        }
    }

    /// Records the listings of the directories above a path, from the
    /// nearest one up: each pair holds a directory and the listing of its
    /// parent, which is kept in place of any listing of the parent's path,
    /// with its cursor on that directory where it lists it.
    pub fn populate_to_root(&mut self, ancestors: Vec<(String, JoshutoDirList)>)
        requires
            old(self).wf(),
            forall|k: int| 0 <= k < ancestors@.len() ==> (#[trigger] ancestors@[k]).1.wf(),
        ensures
            final(self).wf(),
            forall|p: Seq<char>|
                #[trigger] final(self).get(p) == populated(ancestors@, p, old(self).get(p)),
    {
        let ghost all = ancestors@;
        let ghost start = *self;
        let mut pairs = ancestors;
        let mut i: usize = 0;
        let n: usize = pairs.len();
        assert(all.len() == n);
        while pairs.len() > 0
            invariant
                self.wf(),
                i <= all.len() <= usize::MAX,
                pairs@ == all.skip(i as int),
                forall|k: int| 0 <= k < all.len() ==> (#[trigger] all[k]).1.wf(),
                forall|p: Seq<char>|
                    #[trigger] self.get(p) == populated(all.take(i as int), p, start.get(p)),
            decreases pairs@.len(),
        {
            assert(pairs@[0] == all[i as int]);
            let (child, mut dirlist) = pairs.remove(0);
            let ghost listed = dirlist;
            proof {
                assert(listed == all[i as int].1);
                assert(child == all[i as int].0);
                lemma_first_at_path(listed.contents@, child@);
            }
            match find_path(&dirlist.contents, child.as_str()) {
                Some(j) => {
                    dirlist.index = j as i32;
                },
                None => {},
            }
            assert(dirlist == pointed_at(listed, child@));
            let ghost before = *self;
            self.put_back(Some(dirlist));
            i = i + 1;
            proof {
                let t = all.take(i as int);
                assert(t.drop_last() =~= all.take(i - 1));
                assert(t.last() == all[i - 1]);
                assert(pairs@ =~= all.skip(i as int));
                assert forall|p: Seq<char>| #[trigger] self.get(p) == populated(t, p, start.get(p)) by {
                    assert(t[i - 1] == all[i - 1]);
                    assert(all[i - 1].1 == listed && all[i - 1].0@ == child@);
                    if p == listed.path@ {
                        assert(last_listing_of(t, p) == Some(i - 1));
                        assert(populated(t, p, start.get(p)) == Some(pointed_at(listed, child@)));
                        assert(self.get(p) == Some(pointed_at(listed, child@)));
                    } else {
                        assert(last_listing_of(t, p) == last_listing_of(all.take(i - 1), p));
                        assert(self.get(p) == before.get(p));
                        assert(before.get(p) == populated(all.take(i - 1), p, start.get(p)));
                        lemma_last_listing_range(all.take(i - 1), p);
                        if let Some(k) = last_listing_of(all.take(i - 1), p) {
                            assert(t[k] == all.take(i - 1)[k]);
                        }
                    }
                }
            }
        }
        assert(all.take(all.len() as int) =~= all);
    }

    /// Takes the listing of `path` out of the history, if it holds one.
    pub fn pop(&mut self, path: &str) -> (r: Option<JoshutoDirList>)
        requires
            old(self).wf(),
        ensures
            final(self).wf(),
            old(self).pop_leaves(path@, r, *final(self)),
    {
        let ghost old_map = self.map@;
        match position(&self.map, path) {
            Some(i) => {
                proof {
                    lemma_get_at(old_map, i as int);
                }
                let l = self.map.remove(i);
                proof {
                    assert forall|j: int| 0 <= j < self.map@.len() implies self.map@[j].path@ != path@ by {
                        if j < i {
                            assert(self.map@[j] == old_map[j]);
                        } else {
                            assert(self.map@[j] == old_map[j + 1]);
                        }
                    }
                    assert forall|p: Seq<char>| p != path@ implies #[trigger] spec_get(self.map@, p)
                        == spec_get(old_map, p) by {
                        if exists|j: int| 0 <= j < old_map.len() && at_path(#[trigger] old_map[j], p) {
                            let j = choose|j: int| 0 <= j < old_map.len() && at_path(#[trigger] old_map[j], p);
                            assert(j != i);
                            lemma_get_at(old_map, j);
                            let k = if j < i { j } else { j - 1 };
                            assert(self.map@[k] == old_map[j]);
                            lemma_get_at(self.map@, k);
                        } else {
                            assert forall|j: int| 0 <= j < self.map@.len() implies self.map@[j].path@ != p by {
                                if j < i {
                                    assert(self.map@[j] == old_map[j]);
                                    assert(!at_path(old_map[j], p));
                                } else {
                                    assert(self.map@[j] == old_map[j + 1]);
                                    assert(!at_path(old_map[j + 1], p));
                                }
                            }
                        }
                    }
                }
                Some(l)
            },
            None => None,
        }
    }

    /// Marks every listing as needing to be read again.
    pub fn depecrate_all_entries(&mut self)
        requires
            old(self).wf(),
        ensures
            final(self).wf(),
            final(self).map@.len() == old(self).map@.len(),
            forall|i: int|
                0 <= i < old(self).map@.len() ==> #[trigger] final(self).map@[i] == deprecated(
                    old(self).map@[i],
                ),
    {
        let ghost old_map = self.map@;
        let mut rest = Vec::new();
        std::mem::swap(&mut rest, &mut self.map);
        let mut out: Vec<JoshutoDirList> = Vec::new();
        while rest.len() > 0
            invariant
                out@.len() + rest@.len() == old_map.len(),
                rest@ == old_map.subrange(out@.len() as int, old_map.len() as int),
                forall|i: int| 0 <= i < out@.len() ==> #[trigger] out@[i] == deprecated(old_map[i]),
            decreases rest@.len(),
        {
            let mut l = rest.remove(0);
            l.update_needed = true;
            out.push(l);
            assert(rest@ =~= old_map.subrange(out@.len() as int, old_map.len() as int));
        }
        self.map = out;
        assert(distinct_paths(self.map@)) by {
            assert forall|a: int, b: int|
                0 <= a < self.map@.len() && 0 <= b < self.map@.len() && a != b implies self.map@[a].path@
                != self.map@[b].path@ by {
                assert(self.map@[a] == deprecated(old_map[a]));
                assert(self.map@[b] == deprecated(old_map[b]));
            }
        }
    }
}

/// Taking out the listing of a path just after a listing of that path was
/// kept gives that listing back, and leaves the history reading as it did
/// before the listing was kept, but for that path, which reads nothing.
pub proof fn lemma_pop_gives_back_put_back(
    h0: DirHistory,
    s: JoshutoDirList,
    h1: DirHistory,
    r: Option<JoshutoDirList>,
    h2: DirHistory,
)
    requires
        h0.put_back_leaves(s, h1),
        h1.pop_leaves(s.path@, r, h2),
    ensures
        r == Some(s),
        forall|p: Seq<char>|
            #[trigger] h2.get(p) == if p == s.path@ {
                None
            } else {
                h0.get(p)
            },
{
}

} // verus!
