use vstd::prelude::*;

use crate::structs::JoshutoDirList;
use crate::text::{seq_contains, spec_to_lowercase};

verus! {

/// The first position, counting `i`, `i + 1`, ... steps from `offset` and
/// going round the `len` entries of `contents`, whose name holds `needle`
/// once both are in lower case.
pub open spec fn search_from(
    contents: Seq<crate::structs::JoshutoDirEntry>,
    needle: Seq<char>,
    offset: int,
    i: int,
) -> Option<int>
    decreases contents.len() - i,
{
    if i >= contents.len() || i < 0 {
        None
    } else {
        let j = (offset + i) % (contents.len() as int);
        if seq_contains(spec_to_lowercase(contents[j].file_name_as_string@), needle) {
            Some(j)
        } else {
            search_from(contents, needle, offset, i + 1)
        }
    }
}

/// A position the search lands on lies inside the listing.
pub proof fn lemma_search_from_in_range(
    contents: Seq<crate::structs::JoshutoDirEntry>,
    needle: Seq<char>,
    offset: int,
    i: int,
)
    ensures
        search_from(contents, needle, offset, i) matches Some(j) ==> 0 <= j < contents.len(),
    decreases contents.len() - i,
{
    if 0 <= i < contents.len() {
        lemma_search_from_in_range(contents, needle, offset, i + 1);
    }
}

/// Whether the name of the entry at `j`, in lower case, holds `needle`.
pub open spec fn name_holds(contents: Seq<crate::structs::JoshutoDirEntry>, needle: Seq<char>, j: int) -> bool {
    seq_contains(spec_to_lowercase(contents[j].file_name_as_string@), needle)
}

/// The position met `k` steps from `offset` going round `n` entries.
pub open spec fn round_pos(offset: int, k: int, n: int) -> int {
    (offset + k) % n
}

/// How many steps from `cursor`, going round `n` entries, reach `j`.
pub open spec fn steps_to(cursor: int, j: int, n: int) -> int {
    if j >= cursor {
        j - cursor
    } else {
        j + n - cursor
    }
}

proof fn lemma_round_pos(cursor: int, k: int, n: int)
    requires
        0 <= cursor < n,
        0 <= k < n,
    ensures
        round_pos(cursor, k, n) == if cursor + k < n { cursor + k } else { cursor + k - n },
{
    if cursor + k < n {
        vstd::arithmetic::div_mod::lemma_small_mod((cursor + k) as nat, n as nat);
    } else {
        vstd::arithmetic::div_mod::lemma_mod_sub_multiples_vanish(cursor + k, n);
        vstd::arithmetic::div_mod::lemma_small_mod((cursor + k - n) as nat, n as nat);
    }
}

proof fn lemma_search_from_finds(
    contents: Seq<crate::structs::JoshutoDirEntry>,
    needle: Seq<char>,
    offset: int,
    i: int,
)
    requires
        0 <= i <= contents.len(),
        0 <= offset,
    ensures
        search_from(contents, needle, offset, i) is Some <==> exists|k: int|
            i <= k < contents.len() && name_holds(contents, needle, #[trigger] round_pos(offset, k, contents.len() as int)),
        search_from(contents, needle, offset, i) matches Some(j) ==> exists|k: int|
            i <= k < contents.len() && j == #[trigger] round_pos(offset, k, contents.len() as int) && name_holds(contents, needle, j)
                && forall|m: int| i <= m < k ==> !name_holds(contents, needle, #[trigger] round_pos(offset, m, contents.len() as int)),
    decreases contents.len() - i,
{
    if i < contents.len() {
        lemma_search_from_finds(contents, needle, offset, i + 1);
        let n = contents.len() as int;
        if name_holds(contents, needle, round_pos(offset, i, n)) {
        } else {
            if exists|k: int| i <= k < n && name_holds(contents, needle, #[trigger] round_pos(offset, k, n)) {
                let k = choose|k: int| i <= k < n && name_holds(contents, needle, #[trigger] round_pos(offset, k, n));
                assert(k != i);
            }
        }
    }
}

/// The search for a text lands on an entry exactly when the name of some
/// entry, in lower case, holds the text in lower case; the entry it lands on
/// is such an entry, and it is the first one met going from the cursor down
/// and round the listing.
pub proof fn lemma_search_finds_a_match(
    contents: Seq<crate::structs::JoshutoDirEntry>,
    text: Seq<char>,
    cursor: int,
)
    requires
        0 <= cursor < contents.len(),
    ensures
        search_from(contents, spec_to_lowercase(text), cursor, 0) is Some <==> exists|j: int|
            0 <= j < contents.len() && seq_contains(
                spec_to_lowercase(#[trigger] contents[j].file_name_as_string@),
                spec_to_lowercase(text),
            ),
        search_from(contents, spec_to_lowercase(text), cursor, 0) matches Some(j) ==> 0 <= j
            < contents.len() && seq_contains(
            spec_to_lowercase(contents[j].file_name_as_string@),
            spec_to_lowercase(text),
        ) && forall|k: int|
            cursor <= k < j || (j < cursor && (cursor <= k < contents.len() || 0 <= k < j)) ==> !seq_contains(
                spec_to_lowercase(#[trigger] contents[k].file_name_as_string@),
                spec_to_lowercase(text),
            ),
{
    let n = contents.len() as int;
    let needle = spec_to_lowercase(text);
    lemma_search_from_finds(contents, needle, cursor, 0);
    // Each position is met once going round from the cursor.
    assert forall|j: int| 0 <= j < n implies round_pos(cursor, #[trigger] steps_to(cursor, j, n), n) == j by {
        lemma_round_pos(cursor, steps_to(cursor, j, n), n);
    }
    if exists|j: int| 0 <= j < n && seq_contains(spec_to_lowercase(#[trigger] contents[j].file_name_as_string@), needle) {
        let j = choose|j: int| 0 <= j < n && seq_contains(spec_to_lowercase(#[trigger] contents[j].file_name_as_string@), needle);
        let k = steps_to(cursor, j, n);
        assert(round_pos(cursor, k, n) == j);
        assert(name_holds(contents, needle, round_pos(cursor, k, n)));
    }
    if exists|k: int| 0 <= k < n && name_holds(contents, needle, #[trigger] round_pos(cursor, k, n)) {
        let k = choose|k: int| 0 <= k < n && name_holds(contents, needle, #[trigger] round_pos(cursor, k, n));
        lemma_round_pos(cursor, k, n);
        let j = round_pos(cursor, k, n);
        assert(0 <= j < n);
        assert(seq_contains(spec_to_lowercase(contents[j].file_name_as_string@), needle));
    }
    if let Some(j) = search_from(contents, needle, cursor, 0) {
        let k = choose|k: int| 0 <= k < n && j == #[trigger] round_pos(cursor, k, n) && name_holds(contents, needle, j)
            && forall|m: int| 0 <= m < k ==> !name_holds(contents, needle, #[trigger] round_pos(cursor, m, n));
        lemma_round_pos(cursor, k, n);
        assert(k == steps_to(cursor, j, n));
        assert forall|q: int| cursor <= q < j || (j < cursor && (cursor <= q < n || 0 <= q < j)) implies !seq_contains(
            spec_to_lowercase(#[trigger] contents[q].file_name_as_string@),
            needle,
        ) by {
            let m = steps_to(cursor, q, n);
            lemma_round_pos(cursor, m, n);
            assert(round_pos(cursor, m, n) == q);
            assert(m < k);
            assert(!name_holds(contents, needle, round_pos(cursor, m, n)));
        }
    }
}

/// Asks for a text and moves the cursor to the next entry whose name holds it.
#[derive(Clone, Copy, Debug, PartialEq, Eq, Structural)]
pub struct Search;

impl Search {
    /// The command.
    pub fn new() -> (r: Self)
        ensures
            r == Search,
    {
        Search
    }

    /// The name the command is written with in a keymap.
    pub fn command() -> (r: &'static str)
        ensures
            r@ == "search"@,
    {
        proof {
            reveal_strlit("search");
        }
        "search"
    }

    /// The command as a keymap writes it: its name.
    pub fn to_string(&self) -> (r: String)
        ensures
            r@ == "search"@,
    {
        String::from_str(Self::command())
    }

    /// The entry the search for `user_input` lands on: the first entry, from
    /// the cursor on and going round the listing, whose name holds the input,
    /// both compared in lower case.
    pub fn search(curr_list: &JoshutoDirList, user_input: &str) -> (r: Option<i32>)
        requires
            curr_list.wf(),
        ensures
            match search_from(curr_list.contents@, spec_to_lowercase(user_input@), curr_list.index as int, 0) {
                Some(j) => r == Some(j as i32),
                None => r is None,
            },
            r is Some <==> exists|j: int|
                0 <= j < curr_list.contents@.len() && seq_contains(
                    spec_to_lowercase(#[trigger] curr_list.contents@[j].file_name_as_string@),
                    spec_to_lowercase(user_input@),
                ),
            r matches Some(j) ==> 0 <= j < curr_list.contents@.len() && seq_contains(
                spec_to_lowercase(curr_list.contents@[j as int].file_name_as_string@),
                spec_to_lowercase(user_input@),
            ),
    {
        proof {
            if curr_list.contents@.len() > 0 {
                lemma_search_finds_a_match(curr_list.contents@, user_input@, curr_list.index as int);
            }
        }
        let lowered = crate::text::to_lowercase(user_input);
        let needle = crate::text::str_to_chars(lowered.as_str());
        let contents_len = curr_list.contents.len();
        if contents_len == 0 {
            return None;
        }
        let offset = curr_list.index as usize;
        let mut i: usize = 0;
        while i < contents_len
            invariant
                curr_list.wf(),
                contents_len == curr_list.contents@.len(),
                contents_len > 0,
                offset == curr_list.index,
                0 <= offset < contents_len,
                needle@ == spec_to_lowercase(user_input@),
                i <= contents_len,
                search_from(curr_list.contents@, needle@, offset as int, 0) == search_from(
                    curr_list.contents@,
                    needle@,
                    offset as int,
                    i as int,
                ),
            decreases contents_len - i,
        {
            let j = (offset + i) % contents_len;
            let name = crate::text::to_lowercase(curr_list.contents[j].file_name_as_string.as_str());
            let hay = crate::text::str_to_chars(name.as_str());
            if crate::text::chars_contains(hay.as_slice(), needle.as_slice()) {
                return Some(j as i32);
            }
            i = i + 1;
        }
        None
    }

    /// Moves the cursor of `curr_list` to the entry the search for the
    /// answer lands on, when there was an answer and the search found one.
    /// Returns whether the cursor moved.
    pub fn execute(&self, curr_list: &mut JoshutoDirList, user_input: Option<&str>) -> (r: bool)
        requires
            old(curr_list).wf(),
        ensures
            final(curr_list).wf(),
            user_input is None ==> *final(curr_list) == *old(curr_list) && !r,
            user_input matches Some(s) ==> match search_from(old(curr_list).contents@, spec_to_lowercase(s@), old(curr_list).index as int, 0) {
                Some(j) => super::cursor_move::moved_to(*old(curr_list), *final(curr_list), j)
                    && r == super::cursor_move::cursor_target(old(curr_list).index, j, old(curr_list).contents@.len() as int) is Some,
                None => *final(curr_list) == *old(curr_list) && !r,
            },
    {
        match user_input {
            Some(s) => {
                let found = Self::search(&*curr_list, s);
                proof {
                    lemma_search_from_in_range(curr_list.contents@, spec_to_lowercase(s@), curr_list.index as int, 0);
                }
                match found {
                    Some(index) => super::cursor_move::CursorMove::cursor_move(index, curr_list),
                    None => {
                        assert(*final(curr_list) == *old(curr_list));
                        false
                    },
                }
            },
            None => false,
        }
    }
}

impl super::JoshutoCommand for Search {}

} // verus!
