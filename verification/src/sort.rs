use vstd::prelude::*;
use std::cmp::Ordering;

use crate::structs::JoshutoDirEntry;
use crate::text::{lex_le, spec_to_lowercase};

verus! {

broadcast use vstd::seq_lib::group_to_multiset_ensures;

/// How a directory listing is ordered and filtered.
#[derive(Debug, Clone, Copy, PartialEq, Eq, Structural)]
pub struct SortOption {
    pub show_hidden: bool,
    pub directories_first: bool,
    pub case_sensitive: bool,
    pub reverse: bool,
}

/// Order by name or by modification time, with its options.
#[derive(Debug, Clone, Copy, PartialEq, Eq, Structural)]
pub enum SortType {
    SortNatural(SortOption),
    SortMtime(SortOption),
}

/// The comparison a listing is sorted with.
#[derive(Debug, Clone, Copy, PartialEq, Eq, Structural)]
pub enum SortFn {
    NaturalDirFirstCaseInsensitive,
    NaturalDirFirst,
    NaturalDefault,
    MtimeDirFirst,
    MtimeDefault,
}

/// Which entries a listing keeps.
#[derive(Debug, Clone, Copy, PartialEq, Eq, Structural)]
pub enum FilterFn {
    /// Keep every entry.
    Default,
    /// Leave out the entries whose name starts with '.'.
    HiddenFiles,
}

/// The options of a sort type.
pub open spec fn sort_option_of(t: SortType) -> SortOption {
    match t {
        SortType::SortNatural(o) => o,
        SortType::SortMtime(o) => o,
    }
}

/// The comparison a sort type selects: directories come first only when
/// asked and when the order is not reversed, and names are compared without
/// case only for a natural order that is case insensitive.
pub open spec fn sort_fn_of(t: SortType) -> SortFn {
    match t {
        SortType::SortNatural(ss) => {
            if ss.directories_first && !ss.case_sensitive && !ss.reverse {
                SortFn::NaturalDirFirstCaseInsensitive
            } else if ss.directories_first && ss.case_sensitive && !ss.reverse {
                SortFn::NaturalDirFirst
            } else {
                SortFn::NaturalDefault
            }
        },
        SortType::SortMtime(ss) => {
            if ss.directories_first && !ss.reverse {
                SortFn::MtimeDirFirst
            } else {
                SortFn::MtimeDefault
            }
        },
    }
}

impl SortType {
    /// Which entries this sort type keeps.
    pub open spec fn filter_func_spec(&self) -> FilterFn {
        if sort_option_of(*self).show_hidden {
            FilterFn::Default
        } else {
            FilterFn::HiddenFiles
        }
    }

    /// The comparison this sort type orders a listing with.
    pub fn compare_func(&self) -> (r: SortFn)
        ensures
            r == sort_fn_of(*self),
    {
        match *self {
            SortType::SortNatural(ref ss) => {
                if ss.directories_first && !ss.case_sensitive && !ss.reverse {
                    SortFn::NaturalDirFirstCaseInsensitive
                } else if ss.directories_first && ss.case_sensitive && !ss.reverse {
                    SortFn::NaturalDirFirst
                } else {
                    SortFn::NaturalDefault
                }
            },
            SortType::SortMtime(ref ss) => {
                if ss.directories_first && !ss.reverse {
                    SortFn::MtimeDirFirst
                } else {
                    SortFn::MtimeDefault
                }
            },
        }
    }

    /// Which entries this sort type keeps: all of them when hidden files are
    /// shown, else those whose name does not start with '.'.
    pub fn filter_func(&self) -> (r: FilterFn)
        ensures
            r == (if sort_option_of(*self).show_hidden {
                FilterFn::Default
            } else {
                FilterFn::HiddenFiles
            }),
    {
        match *self {
            SortType::SortNatural(ref ss) => {
                if ss.show_hidden {
                    FilterFn::Default
                } else {
                    FilterFn::HiddenFiles
                }
            },
            SortType::SortMtime(ref ss) => {
                if ss.show_hidden {
                    FilterFn::Default
                } else {
                    FilterFn::HiddenFiles
                }
            },
        }
    }

    /// Whether hidden files are shown.
    pub fn show_hidden(&self) -> (r: bool)
        ensures
            r == sort_option_of(*self).show_hidden,
    {
        match *self {
            SortType::SortNatural(ref ss) => ss.show_hidden,
            SortType::SortMtime(ref ss) => ss.show_hidden,
        }
    }

    /// Sets whether hidden files are shown, keeping the kind of order and the other options.
    pub fn set_show_hidden(&mut self, show_hidden: bool)
        ensures
            sort_option_of(*final(self)) == (SortOption { show_hidden, ..sort_option_of(*old(self)) }),
            (*old(self) is SortNatural) == (*final(self) is SortNatural),
    {
        match self {
            SortType::SortNatural(ref mut ss) => {
                ss.show_hidden = show_hidden;
            },
            SortType::SortMtime(ref mut ss) => {
                ss.show_hidden = show_hidden;
            },
        }
    }
}

/// Whether a filter keeps an entry.
pub open spec fn spec_keeps(f: FilterFn, e: JoshutoDirEntry) -> bool {
    match f {
        FilterFn::Default => true,
        FilterFn::HiddenFiles => !(e.file_name_as_string@.len() > 0 && e.file_name_as_string@[0]
            == '.'),
    }
}

impl FilterFn {
    /// Whether this filter keeps `entry`.
    pub fn keeps(&self, entry: &JoshutoDirEntry) -> (r: bool)
        ensures
            r == spec_keeps(*self, *entry),
    {
        match self {
            FilterFn::Default => true,
            FilterFn::HiddenFiles => {
                let name = crate::text::str_to_chars(entry.file_name_as_string.as_str());
                !(name.len() > 0 && name[0] == '.')
            },
        }
    }
}

/// `Less` when `le` holds, else `Greater`.
pub open spec fn ord_of_le(le: bool) -> Ordering {
    if le {
        Ordering::Less
    } else {
        Ordering::Greater
    }
}

/// Directories before other entries; `rest` decides between two of a kind.
pub open spec fn dir_first_then(a: JoshutoDirEntry, b: JoshutoDirEntry, rest: Ordering) -> Ordering {
    if a.is_dir && !b.is_dir {
        Ordering::Less
    } else if !a.is_dir && b.is_dir {
        Ordering::Greater
    } else {
        rest
    }
}

/// What a comparison says of two entries.
#[verifier::opaque]
pub open spec fn compare_spec(f: SortFn, a: JoshutoDirEntry, b: JoshutoDirEntry) -> Ordering {
    match f {
        SortFn::NaturalDirFirstCaseInsensitive => dir_first_then(
            a,
            b,
            ord_of_le(
                lex_le(
                    spec_to_lowercase(a.file_name_as_string@),
                    spec_to_lowercase(b.file_name_as_string@),
                ),
            ),
        ),
        SortFn::NaturalDirFirst => dir_first_then(
            a,
            b,
            ord_of_le(lex_le(a.file_name@, b.file_name@)),
        ),
        SortFn::NaturalDefault => ord_of_le(lex_le(a.file_name@, b.file_name@)),
        SortFn::MtimeDirFirst => dir_first_then(
            a,
            b,
            ord_of_le(a.metadata.modified <= b.metadata.modified),
        ),
        SortFn::MtimeDefault => ord_of_le(a.metadata.modified <= b.metadata.modified),
    }
}

/// Natural order, directories first, names compared in lower case.
pub struct SortNatural {}

impl SortNatural {
    /// Directories first, then names compared in lower case.
    pub fn dir_first_case_insensitive(file1: &JoshutoDirEntry, file2: &JoshutoDirEntry) -> (r:
        Ordering)
        ensures
            r == compare_spec(SortFn::NaturalDirFirstCaseInsensitive, *file1, *file2),
            file1.is_dir && !file2.is_dir ==> r == Ordering::Less,
            !file1.is_dir && file2.is_dir ==> r == Ordering::Greater,
    {
        reveal(compare_spec);
        let f1_isdir = file1.is_dir;
        let f2_isdir = file2.is_dir;
        if f1_isdir && !f2_isdir {
            Ordering::Less
        } else if !f1_isdir && f2_isdir {
            Ordering::Greater
        } else {
            let f1_name = crate::text::to_lowercase(file1.file_name_as_string.as_str());
            let f2_name = crate::text::to_lowercase(file2.file_name_as_string.as_str());
            if crate::text::str_le(f1_name.as_str(), f2_name.as_str()) {
                Ordering::Less
            } else {
                Ordering::Greater
            }
        }
    }

    /// Directories first, then names compared as they are.
    pub fn dir_first(file1: &JoshutoDirEntry, file2: &JoshutoDirEntry) -> (r: Ordering)
        ensures
            r == compare_spec(SortFn::NaturalDirFirst, *file1, *file2),
            file1.is_dir && !file2.is_dir ==> r == Ordering::Less,
            !file1.is_dir && file2.is_dir ==> r == Ordering::Greater,
    {
        reveal(compare_spec);
        let f1_isdir = file1.is_dir;
        let f2_isdir = file2.is_dir;
        if f1_isdir && !f2_isdir {
            Ordering::Less
        } else if !f1_isdir && f2_isdir {
            Ordering::Greater
        } else {
            Self::default_sort(file1, file2)
        }
    }

    /// Names compared as they are; equal names count as `Less`.
    pub fn default_sort(file1: &JoshutoDirEntry, file2: &JoshutoDirEntry) -> (r: Ordering)
        ensures
            r == compare_spec(SortFn::NaturalDefault, *file1, *file2),
    {
        reveal(compare_spec);
        if crate::text::str_le(file1.file_name.as_str(), file2.file_name.as_str()) {
            Ordering::Less
        } else {
            Ordering::Greater
        }
    }
}

/// Order by modification time.
pub struct SortMtime {}

impl SortMtime {
    /// Directories first, then older before newer.
    pub fn dir_first(file1: &JoshutoDirEntry, file2: &JoshutoDirEntry) -> (r: Ordering)
        ensures
            r == compare_spec(SortFn::MtimeDirFirst, *file1, *file2),
            file1.is_dir && !file2.is_dir ==> r == Ordering::Less,
            !file1.is_dir && file2.is_dir ==> r == Ordering::Greater,
    {
        reveal(compare_spec);
        let f1_isdir = file1.is_dir;
        let f2_isdir = file2.is_dir;
        if f1_isdir && !f2_isdir {
            Ordering::Less
        } else if !f1_isdir && f2_isdir {
            Ordering::Greater
        } else {
            Self::default_sort(file1, file2)
        }
    }

    /// Older before newer; equal times count as `Less`.
    pub fn default_sort(file1: &JoshutoDirEntry, file2: &JoshutoDirEntry) -> (r: Ordering)
        ensures
            r == compare_spec(SortFn::MtimeDefault, *file1, *file2),
    {
        reveal(compare_spec);
        if file1.metadata.modified <= file2.metadata.modified {
            Ordering::Less
        } else {
            Ordering::Greater
        }
    }
}

impl SortFn {
    /// What this comparison says of two entries.
    pub fn compare(&self, file1: &JoshutoDirEntry, file2: &JoshutoDirEntry) -> (r: Ordering)
        ensures
            r == compare_spec(*self, *file1, *file2),
    {
        match self {
            SortFn::NaturalDirFirstCaseInsensitive => SortNatural::dir_first_case_insensitive(
                file1,
                file2,
            ),
            SortFn::NaturalDirFirst => SortNatural::dir_first(file1, file2),
            SortFn::NaturalDefault => SortNatural::default_sort(file1, file2),
            SortFn::MtimeDirFirst => SortMtime::dir_first(file1, file2),
            SortFn::MtimeDefault => SortMtime::default_sort(file1, file2),
        }
    }
}

/// A comparison never answers `Equal`, and when it puts `a` after `b` it puts
/// `b` before `a`.
pub proof fn lemma_compare_flip(f: SortFn, a: JoshutoDirEntry, b: JoshutoDirEntry)
    ensures
        compare_spec(f, a, b) != Ordering::Equal,
        compare_spec(f, a, b) == Ordering::Greater ==> compare_spec(f, b, a) == Ordering::Less,
{
    reveal(compare_spec);
    crate::text::lemma_lex_le_total(a.file_name@, b.file_name@);
    crate::text::lemma_lex_le_total(
        spec_to_lowercase(a.file_name_as_string@),
        spec_to_lowercase(b.file_name_as_string@),
    );
}

/// In the orders that put directories first, a directory comes before an
/// entry that is not one, whatever their names and times.
pub proof fn lemma_directories_come_first(f: SortFn, a: JoshutoDirEntry, b: JoshutoDirEntry)
    requires
        f is NaturalDirFirstCaseInsensitive || f is NaturalDirFirst || f is MtimeDirFirst,
        a.is_dir,
        !b.is_dir,
    ensures
        compare_spec(f, a, b) == Ordering::Less,
        compare_spec(f, b, a) == Ordering::Greater,
{
    reveal(compare_spec);
}

/// The default order puts two entries of the same kind (both directories or
/// neither) by their names in lower case: the one whose lowered name comes
/// first in lexicographic order, or is equal, comes first.
pub proof fn lemma_same_kind_by_lowered_name(a: JoshutoDirEntry, b: JoshutoDirEntry)
    requires
        a.is_dir == b.is_dir,
    ensures
        (compare_spec(SortFn::NaturalDirFirstCaseInsensitive, a, b) == Ordering::Less) == lex_le(
            spec_to_lowercase(a.file_name_as_string@),
            spec_to_lowercase(b.file_name_as_string@),
        ),
{
    reveal(compare_spec);
}

/// Whether each entry of `s` is not put after the one that follows it.
pub open spec fn sorted_by(f: SortFn, s: Seq<JoshutoDirEntry>) -> bool {
    forall|i: int| 0 <= i < s.len() - 1 ==> compare_spec(f, #[trigger] s[i], s[i + 1])
        != Ordering::Greater
}

/// In a listing sorted by an order that puts directories first, every
/// directory comes before every entry that is not one.
pub proof fn lemma_sorted_directories_first(f: SortFn, s: Seq<JoshutoDirEntry>, i: int, j: int)
    requires
        f is NaturalDirFirstCaseInsensitive || f is NaturalDirFirst || f is MtimeDirFirst,
        sorted_by(f, s),
        0 <= i < j < s.len(),
        s[j].is_dir,
    ensures
        s[i].is_dir,
    decreases j - i,
{
    if i + 1 < j {
        lemma_sorted_directories_first(f, s, i + 1, j);
    }
    assert(s[i + 1].is_dir);
    if !s[i].is_dir {
        lemma_directories_come_first(f, s[i + 1], s[i]);
        assert(compare_spec(f, s[i], s[i + 1]) != Ordering::Greater);
    }
}

/// Whether an order is `Greater`.
fn is_greater(o: Ordering) -> (r: bool)
    ensures
        r == (o == Ordering::Greater),
{
    match o {
        Ordering::Greater => true,
        _ => false,
    }
}

#[verifier::rlimit(60)]
/// Inserts `x` into the sorted `out` before the first entry that `f` puts after `x`.
fn insert_sorted(out: &mut Vec<JoshutoDirEntry>, x: JoshutoDirEntry, f: SortFn)
    requires
        sorted_by(f, old(out)@),
    ensures
        sorted_by(f, final(out)@),
        final(out)@.to_multiset() == old(out)@.to_multiset().insert(x),
{
    let mut p: usize = 0;
    while p < out.len()
        invariant_except_break
            p <= out@.len(),
            forall|j: int| 0 <= j < p ==> compare_spec(f, #[trigger] out@[j], x) != Ordering::Greater,
        ensures
            p <= out@.len(),
            forall|j: int| 0 <= j < p ==> compare_spec(f, #[trigger] out@[j], x) != Ordering::Greater,
            p < out@.len() ==> compare_spec(f, crate::structs::entry_at(out@, p), x) == Ordering::Greater,
        decreases out.len() - p,
    {
        if is_greater(f.compare(&out[p], &x)) {
            break;
        }
        p = p + 1;
    }
    let ghost before = out@;
    proof {
        if p < before.len() {
            lemma_compare_flip(f, crate::structs::entry_at(before, p), x);
        }
    }
    out.insert(p, x);
    proof {
        assert forall|i: int| 0 <= i < out@.len() - 1 implies compare_spec(
            f,
            #[trigger] out@[i],
            out@[i + 1],
        ) != Ordering::Greater by {
            if i < p - 1 {
                assert(out@[i] == before[i] && out@[i + 1] == before[i + 1]);
            } else if i == p - 1 {
                assert(out@[i] == before[i] && out@[i + 1] == x);
            } else if i == p {
                assert(out@[i] == x && out@[i + 1] == before[i]);
            } else {
                assert(out@[i] == before[i - 1] && out@[i + 1] == before[i]);
            }
        }
    }
}

/// Sorts `contents` with the comparison `f`: the result holds the same
/// entries, each not put after the one that follows it.
pub fn sort_entries(contents: Vec<JoshutoDirEntry>, f: SortFn) -> (r: Vec<JoshutoDirEntry>)
    ensures
        r@.to_multiset() == contents@.to_multiset(),
        sorted_by(f, r@),
{
    let mut input = contents;
    let mut out: Vec<JoshutoDirEntry> = Vec::new();
    let ghost orig = input@;
    while input.len() > 0
        invariant
            out@.to_multiset().add(input@.to_multiset()) == orig.to_multiset(),
            sorted_by(f, out@),
        decreases input.len(),
    {
        let ghost before_in = input@;
        let x = input.remove(0);
        proof {
            assert(before_in =~= seq![x] + input@);
            vstd::seq_lib::lemma_multiset_commutative(seq![x], input@);
            assert(seq![x].to_multiset() =~= vstd::multiset::Multiset::singleton(x));
        }
        insert_sorted(&mut out, x, f);
        proof {
            assert(out@.to_multiset().add(input@.to_multiset()) =~= orig.to_multiset());
        }
    }
    proof {
        assert(input@.to_multiset() =~= vstd::multiset::Multiset::empty());
        assert(out@.to_multiset().add(input@.to_multiset()) =~= out@.to_multiset());
    }
    out
}

/// The entries of `entries` that `f` keeps, in order.
pub fn filter_entries(entries: Vec<JoshutoDirEntry>, f: FilterFn) -> (r: Vec<JoshutoDirEntry>)
    ensures
        r@ == entries@.filter(|e: JoshutoDirEntry| spec_keeps(f, e)),
{
    let ghost pred = |e: JoshutoDirEntry| spec_keeps(f, e);
    let mut input = entries;
    let n = input.len();
    let ghost orig = input@;
    let mut out: Vec<JoshutoDirEntry> = Vec::new();
    let mut taken: usize = 0;
    while input.len() > 0
        invariant
            taken + input@.len() == orig.len(),
            orig.len() <= usize::MAX,
            input@ == orig.subrange(taken as int, orig.len() as int),
            out@ == orig.take(taken as int).filter(pred),
            pred == (|e: JoshutoDirEntry| spec_keeps(f, e)),
        decreases input.len(),
    {
        let ghost before_in = input@;
        let x = input.remove(0);
        proof {
            assert(x == before_in[0]);
            assert(before_in[0] == orig[taken as int]);
            reveal_with_fuel(Seq::<_>::filter, 1);
            assert(orig.take(taken + 1).drop_last() =~= orig.take(taken as int));
            assert(orig.take(taken + 1).last() == x);
        }
        let ghost out_before = out@;
        let ghost t1 = orig.take(taken + 1);
        if f.keeps(&x) {
            out.push(x);
        }
        proof {
            assert(t1.len() > 0);
            assert(t1.last() == x);
            assert(t1.drop_last() =~= orig.take(taken as int));
            assert(pred(x) == spec_keeps(f, x));
            if spec_keeps(f, x) {
                assert(t1.filter(pred) == t1.drop_last().filter(pred).push(x));
            } else {
                assert(t1.filter(pred) == t1.drop_last().filter(pred));
            }
        }
        taken = taken + 1;
        proof {
            assert(input@ =~= orig.subrange(taken as int, orig.len() as int));
        }
    }
    proof {
        assert(orig.take(taken as int) =~= orig);
    }
    out
}

} // verus!
