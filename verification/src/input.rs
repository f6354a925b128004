use vstd::prelude::*;

use crate::keymap::{BACKSPACE, ENTER, ESCAPE, KEY_DC, KEY_END, KEY_HOME, KEY_LEFT, KEY_RIGHT};

verus! {

/// The total width of the characters `s`, each paired with its width in columns.
pub open spec fn total_width(s: Seq<(u8, char)>) -> int
    decreases s.len(),
{
    if s.len() == 0 {
        0
    } else {
        total_width(s.drop_last()) + s.last().0
    }
}

/// The characters of `s`, without their widths.
pub open spec fn spec_text(s: Seq<(u8, char)>) -> Seq<char> {
    s.map_values(|p: (u8, char)| p.1)
}

/// A line being edited: the characters typed with their widths, the column
/// of the cursor, and the number of characters before the cursor.
#[derive(Clone, Debug)]
pub struct InputState {
    pub user_input: Vec<(u8, char)>,
    pub curs_x: i32,
    pub curr_index: usize,
}

/// What the editing of a line asks for after a key.
#[derive(Clone, Debug)]
pub enum InputAction {
    /// Wait for the next key.
    Continue,
    /// The user gave up: no text.
    Cancel,
    /// The user accepted this text.
    Submit(String),
}

impl InputState {
    /// The cursor stands after `curr_index` characters, at the column where
    /// the line starts (`start_x`) plus their widths.
    pub open spec fn wf(&self, start_x: i32) -> bool {
        &&& 0 <= start_x
        &&& self.curr_index <= self.user_input@.len()
        &&& self.curs_x == start_x + total_width(self.user_input@.take(self.curr_index as int))
        &&& start_x + total_width(self.user_input@) <= i32::MAX
    }

    /// An empty line with the cursor at its start.
    pub fn new(start_x: i32) -> (r: Self)
        requires
            0 <= start_x,
        ensures
            r.wf(start_x),
            r.user_input@.len() == 0,
            r.curs_x == start_x,
            r.curr_index == 0,
    {
        let r = InputState { user_input: Vec::new(), curs_x: start_x, curr_index: 0 };
        assert(r.user_input@.take(0) =~= Seq::<(u8, char)>::empty());
        r
    }

    /// The line `user_input` with the cursor at its start.
    pub fn new_prepend(user_input: Vec<(u8, char)>, start_x: i32) -> (r: Self)
        requires
            0 <= start_x,
            start_x + total_width(user_input@) <= i32::MAX,
        ensures
            r.wf(start_x),
            r.user_input@ == user_input@,
            r.curs_x == start_x,
            r.curr_index == 0,
    {
        let r = InputState { user_input, curs_x: start_x, curr_index: 0 };
        assert(r.user_input@.take(0) =~= Seq::<(u8, char)>::empty());
        r
    }

    /// The line `user_input` with the cursor at its end.
    pub fn new_append(user_input: Vec<(u8, char)>, start_x: i32) -> (r: Self)
        requires
            0 <= start_x,
            start_x + total_width(user_input@) <= i32::MAX,
        ensures
            r.wf(start_x),
            r.user_input@ == user_input@,
            r.curs_x == start_x + total_width(user_input@),
            r.curr_index == user_input@.len(),
    {
        let mut curs_x = start_x;
        let mut i: usize = 0;
        while i < user_input.len()
            invariant
                i <= user_input@.len(),
                0 <= start_x,
                start_x + total_width(user_input@) <= i32::MAX,
                curs_x == start_x + total_width(user_input@.take(i as int)),
            decreases user_input@.len() - i,
        {
            proof {
                assert(user_input@.take(i + 1).drop_last() =~= user_input@.take(i as int));
                lemma_total_width_prefix(user_input@, i + 1);
            }
            curs_x = curs_x + user_input[i].0 as i32;
            i = i + 1;
        }
        let n = user_input.len();
        assert(user_input@.take(n as int) =~= user_input@);
        InputState { user_input, curs_x, curr_index: n }
    }
}

/// The width of a prefix is at most the width of the whole.
pub proof fn lemma_total_width_prefix(s: Seq<(u8, char)>, k: int)
    requires
        0 <= k <= s.len(),
    ensures
        0 <= total_width(s.take(k)) <= total_width(s),
    decreases s.len(),
{
    if k < s.len() {
        assert(s.drop_last().take(k) =~= s.take(k));
        lemma_total_width_prefix(s.drop_last(), k);
    } else {
        assert(s.take(k) =~= s);
    }
    lemma_total_width_nonneg(s.take(k));
}

proof fn lemma_total_width_nonneg(s: Seq<(u8, char)>)
    ensures
        total_width(s) >= 0,
    decreases s.len(),
{
    if s.len() > 0 {
        lemma_total_width_nonneg(s.drop_last());
    }
}

/// The width of two lines one after the other is the sum of their widths.
proof fn lemma_total_width_concat(a: Seq<(u8, char)>, b: Seq<(u8, char)>)
    ensures
        total_width(a + b) == total_width(a) + total_width(b),
    decreases b.len(),
{
    if b.len() > 0 {
        assert((a + b).drop_last() =~= a + b.drop_last());
        lemma_total_width_concat(a, b.drop_last());
    } else {
        assert(a + b =~= a);
    }
}

/// The line and the cursor position after the key `key`, where `width` is
/// the width of the character `key` types: Home and End move to either end,
/// the arrows move by one character, Backspace removes the character before
/// the cursor and Delete the one under it, Escape and Enter change nothing,
/// and any other key inserts its character at the cursor.
pub open spec fn spec_step(input: Seq<(u8, char)>, idx: int, key: i32, width: u8) -> (Seq<(u8, char)>, int) {
    if key == ESCAPE || key == ENTER {
        (input, idx)
    } else if key == KEY_HOME {
        (input, 0)
    } else if key == KEY_END {
        (input, input.len() as int)
    } else if key == KEY_LEFT {
        if idx > 0 { (input, idx - 1) } else { (input, idx) }
    } else if key == KEY_RIGHT {
        if idx < input.len() { (input, idx + 1) } else { (input, idx) }
    } else if key == BACKSPACE {
        if idx > 0 { (input.remove(idx - 1), idx - 1) } else { (input, idx) }
    } else if key == KEY_DC {
        if idx < input.len() { (input.remove(idx), idx) } else { (input, idx) }
    } else {
        (input.insert(idx, (width, (key as u8) as char)), idx + 1)
    }
}

proof fn lemma_total_width_single(x: (u8, char))
    ensures
        total_width(seq![x]) == x.0,
{
    reveal_with_fuel(total_width, 2);
    assert(seq![x].drop_last() =~= Seq::<(u8, char)>::empty());
}

proof fn lemma_total_width_split(s: Seq<(u8, char)>, i: int)
    requires
        0 <= i < s.len(),
    ensures
        total_width(s) == total_width(s.take(i)) + s[i].0 + total_width(s.skip(i + 1)),
        total_width(s.take(i + 1)) == total_width(s.take(i)) + s[i].0,
        total_width(s.take(i)) >= 0,
        total_width(s.skip(i + 1)) >= 0,
{
    assert(s =~= s.take(i) + (seq![s[i]] + s.skip(i + 1)));
    lemma_total_width_concat(s.take(i), seq![s[i]] + s.skip(i + 1));
    lemma_total_width_concat(seq![s[i]], s.skip(i + 1));
    lemma_total_width_single(s[i]);
    assert(s.take(i + 1).drop_last() =~= s.take(i));
    lemma_total_width_nonneg(s.take(i));
    lemma_total_width_nonneg(s.skip(i + 1));
}

impl InputState {
    /// Moves the cursor to the end of the line.
    fn move_end(&mut self, start_x: i32)
        requires
            old(self).wf(start_x),
        ensures
            final(self).wf(start_x),
            final(self).user_input@ == old(self).user_input@,
            final(self).curr_index == old(self).user_input@.len(),
    {
        let ghost s0 = self.user_input@;
        let n = self.user_input.len();
        let mut i = self.curr_index;
        while i < n
            invariant
                n == self.user_input@.len(),
                self.user_input@ == s0,
                i <= n,
                0 <= start_x,
                start_x + total_width(s0) <= i32::MAX,
                self.curs_x == start_x + total_width(s0.take(i as int)),
            decreases n - i,
        {
            proof {
                lemma_total_width_split(s0, i as int);
                lemma_total_width_prefix(s0, i + 1);
            }
            self.curs_x = self.curs_x + self.user_input[i].0 as i32;
            i = i + 1;
        }
        self.curr_index = n;
        assert(s0.take(n as int) =~= s0);
    }

    /// Moves the cursor one character to the left.
    fn move_left(&mut self, start_x: i32)
        requires
            old(self).wf(start_x),
            old(self).curr_index > 0,
        ensures
            final(self).wf(start_x),
            final(self).user_input@ == old(self).user_input@,
            final(self).curr_index == old(self).curr_index - 1,
    {
        let ghost s0 = self.user_input@;
        self.curr_index = self.curr_index - 1;
        proof {
            lemma_total_width_split(s0, self.curr_index as int);
        }
        self.curs_x = self.curs_x - self.user_input[self.curr_index].0 as i32;
    }

    /// Moves the cursor one character to the right.
    fn move_right(&mut self, start_x: i32)
        requires
            old(self).wf(start_x),
            old(self).curr_index < old(self).user_input@.len(),
        ensures
            final(self).wf(start_x),
            final(self).user_input@ == old(self).user_input@,
            final(self).curr_index == old(self).curr_index + 1,
    {
        let ghost s0 = self.user_input@;
        proof {
            lemma_total_width_split(s0, self.curr_index as int);
            lemma_total_width_prefix(s0, self.curr_index + 1);
        }
        let len = self.user_input.len();
        assert(self.curr_index < len);
        self.curs_x = self.curs_x + self.user_input[self.curr_index].0 as i32;
        self.curr_index = self.curr_index + 1;
    }

    /// Removes the character at position `k`, before or under the cursor.
    fn remove_at(&mut self, start_x: i32, k: usize)
        requires
            old(self).wf(start_x),
            k < old(self).user_input@.len(),
            k == old(self).curr_index || k + 1 == old(self).curr_index,
        ensures
            final(self).wf(start_x),
            final(self).user_input@ == old(self).user_input@.remove(k as int),
            final(self).curr_index == k,
    {
        let ghost s0 = self.user_input@;
        proof {
            lemma_total_width_split(s0, k as int);
            lemma_total_width_concat(s0.take(k as int), s0.skip(k + 1));
            assert(s0.remove(k as int) =~= s0.take(k as int) + s0.skip(k + 1));
            assert(s0.remove(k as int).take(k as int) =~= s0.take(k as int));
        }
        let before_cursor = k != self.curr_index;
        let (size, _) = self.user_input.remove(k);
        if before_cursor {
            self.curs_x = self.curs_x - size as i32;
        }
        self.curr_index = k;
    }

    /// Inserts the character `c`, `width` columns wide, at the cursor.
    fn insert_char(&mut self, start_x: i32, c: char, width: u8)
        requires
            old(self).wf(start_x),
            start_x + total_width(old(self).user_input@) + width <= i32::MAX,
        ensures
            final(self).wf(start_x),
            final(self).user_input@ == old(self).user_input@.insert(old(self).curr_index as int, (width, c)),
            final(self).curr_index == old(self).curr_index + 1,
    {
        let ghost s0 = self.user_input@;
        let k = self.curr_index;
        self.user_input.insert(k, (width, c));
        proof {
            let s1 = s0.insert(k as int, (width, c));
            assert(s1 =~= s0.take(k as int) + (seq![(width, c)] + s0.skip(k as int)));
            lemma_total_width_concat(s0.take(k as int), seq![(width, c)] + s0.skip(k as int));
            lemma_total_width_concat(seq![(width, c)], s0.skip(k as int));
            lemma_total_width_single((width, c));
            assert(s0 =~= s0.take(k as int) + s0.skip(k as int));
            lemma_total_width_concat(s0.take(k as int), s0.skip(k as int));
            assert(s1.take(k + 1).drop_last() =~= s0.take(k as int));
            assert(s1.take(k + 1).last() == (width, c));
            lemma_total_width_nonneg(s0.skip(k as int));
            lemma_total_width_nonneg(s0.take(k as int));
        }
        self.curs_x = self.curs_x + width as i32;
        let len = self.user_input.len();
        assert(k < len);
        self.curr_index = k + 1;
    }

    /// Edits the line by the key `key`, whose character is `width` columns
    /// wide, as `spec_step` says; Escape gives up, Enter gives the text typed.
    pub fn step(&mut self, start_x: i32, key: i32, width: u8) -> (r: InputAction)
        requires
            old(self).wf(start_x),
            start_x + total_width(old(self).user_input@) + width <= i32::MAX,
        ensures
            final(self).wf(start_x),
            (final(self).user_input@, final(self).curr_index as int) == spec_step(
                old(self).user_input@,
                old(self).curr_index as int,
                key,
                width,
            ),
            key == ESCAPE ==> r is Cancel,
            key == ENTER ==> (r matches InputAction::Submit(t) && t@ == spec_text(old(self).user_input@)),
            key != ESCAPE && key != ENTER ==> r is Continue,
    {
        let n = self.user_input.len();
        if key == ESCAPE {
            return InputAction::Cancel;
        } else if key == ENTER {
            let mut t = String::new();
            let mut i: usize = 0;
            while i < n
                invariant
                    n == self.user_input@.len(),
                    i <= n,
                    t@ == spec_text(self.user_input@.take(i as int)),
                decreases n - i,
            {
                crate::text::push_char(&mut t, self.user_input[i].1);
                assert(spec_text(self.user_input@.take(i + 1)) =~= spec_text(
                    self.user_input@.take(i as int),
                ).push(self.user_input@[i as int].1));
                i = i + 1;
            }
            assert(self.user_input@.take(n as int) =~= self.user_input@);
            return InputAction::Submit(t);
        } else if key == KEY_HOME {
            self.curs_x = start_x;
            self.curr_index = 0;
            assert(self.user_input@.take(0) =~= Seq::<(u8, char)>::empty());
        } else if key == KEY_END {
            self.move_end(start_x);
        } else if key == KEY_LEFT {
            if self.curr_index > 0 {
                self.move_left(start_x);
            }
        } else if key == KEY_RIGHT {
            if self.curr_index < n {
                self.move_right(start_x);
            }
        } else if key == BACKSPACE {
            if self.curr_index > 0 {
                let k = self.curr_index - 1;
                self.remove_at(start_x, k);
            }
        } else if key == KEY_DC {
            if self.curr_index < n {
                let k = self.curr_index;
                self.remove_at(start_x, k);
            }
        } else {
            let c = (key as u8) as char;
            self.insert_char(start_x, c, width);
        }
        InputAction::Continue
    }
}

} // verus!
