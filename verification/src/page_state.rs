use vstd::prelude::*;

verus! {

/// The window of a directory listing that is drawn on screen: the entries
/// `start..end` of the listing.
#[derive(Clone, Debug)]
pub struct JoshutoPageState {
    pub start: usize,
    pub end: usize,
}

/// The smaller of two integers.
pub open spec fn min_int(a: int, b: int) -> int {
    if a <= b { a } else { b }
}

/// The larger of two integers.
pub open spec fn max_int(a: int, b: int) -> int {
    if a >= b { a } else { b }
}

/// The number of rows a window of `win_rows` rows covers, as the listing counts them.
pub open spec fn rows_of(win_rows: i32) -> int {
    (win_rows as usize) as int
}

/// The window after the first adjustment: it starts where it started, and
/// reaches `rows` entries further, but never past the end of the listing.
pub open spec fn page_fit(start: int, rows: int, vec_len: int) -> (int, int) {
    (start, min_int(start + rows, vec_len))
}

/// The window after the cursor has been checked against the top margin: when
/// the cursor is within `offset` entries of the top, the window is moved so
/// that `offset` entries stay above the cursor where the listing allows it.
pub open spec fn page_top(
    start: int,
    end: int,
    index: int,
    rows: int,
    vec_len: int,
    offset: int,
) -> (int, int) {
    if start + offset >= index {
        let s1 = max_int(index - offset, 0);
        let e1 = min_int(s1 + rows, vec_len);
        (max_int(e1 - rows, 0), e1)
    } else {
        (start, end)
    }
}

/// The window after the cursor has been checked against the bottom margin:
/// when the cursor is within `offset` entries of the bottom, the window is
/// moved so that `offset` entries stay below the cursor where the listing allows it.
pub open spec fn page_bottom(
    start: int,
    end: int,
    index: int,
    rows: int,
    vec_len: int,
    offset: int,
) -> (int, int) {
    if end <= index + offset {
        let e1 = min_int(index + offset, vec_len);
        let s1 = max_int(e1 - rows, 0);
        (s1, min_int(s1 + rows, vec_len))
    } else {
        (start, end)
    }
}

/// The window that `update_page_state` leaves, given the window it started from.
pub open spec fn page_update(
    start: int,
    index: int,
    rows: int,
    vec_len: int,
    offset: int,
) -> (int, int) {
    let a = page_fit(start, rows, vec_len);
    let b = page_top(a.0, a.1, index, rows, vec_len, offset);
    page_bottom(b.0, b.1, index, rows, vec_len, offset)
}

impl JoshutoPageState {
    /// An empty window at the top of the listing.
    pub fn new() -> (r: Self)
        ensures
            r.start == 0,
            r.end == 0,
    {
        JoshutoPageState { start: 0, end: 0 }
    }

    /// Moves the window so that the cursor at `index` is shown with `offset`
    /// entries of margin, in a window of `win_rows` rows over a listing of
    /// `vec_len` entries.
    pub fn update_page_state(&mut self, index: usize, win_rows: i32, vec_len: usize, offset: usize)
        requires
            old(self).start + rows_of(win_rows) <= usize::MAX,
            old(self).start + offset <= usize::MAX,
            index + offset <= usize::MAX,
        ensures
            ({
                let r = page_update(old(self).start as int, index as int, rows_of(win_rows), vec_len as int, offset as int);
                final(self).start == r.0 && final(self).end == r.1
            }),
            old(self).start + offset < index && index + offset < min_int(
                old(self).start + rows_of(win_rows),
                vec_len as int,
            ) ==> final(self).start == old(self).start && final(self).end == min_int(
                old(self).start + rows_of(win_rows),
                vec_len as int,
            ),
    {
        proof {
            if old(self).start + offset < index && index + offset < min_int(
                old(self).start + rows_of(win_rows),
                vec_len as int,
            ) {
                lemma_page_update_keeps_window(old(self).start as int, index as int, rows_of(win_rows), vec_len as int, offset as int);
            }
        }
        let rows: usize = win_rows as usize;
        if self.end != rows + self.start {
            self.end = self.start + rows;
        }
        if self.end > vec_len {
            self.end = vec_len
        }

        if self.start + offset >= index {
            self.start = if index <= offset {
                0
            } else {
                index - offset
            };
            self.end = if self.start + rows >= vec_len {
                vec_len
            } else {
                self.start + rows
            };
            self.start = if self.end <= rows {
                0
            } else {
                self.end - rows
            };
        }
        if self.end <= index + offset {
            self.end = if index + offset >= vec_len {
                vec_len
            } else {
                index + offset
            };
            self.start = if self.end <= rows {
                0
            } else {
                self.end - rows
            };
            self.end = if self.start + rows >= vec_len {
                vec_len
            } else {
                self.start + rows
            };
        }
    }
}

/// After an update the window lies inside the listing, holds at most
/// `win_rows` entries, and its start does not pass its end.
pub proof fn lemma_page_update_in_bounds(start: int, index: int, rows: int, vec_len: int, offset: int)
    requires
        0 <= start,
        0 <= index,
        0 <= rows,
        0 <= vec_len,
        0 <= offset,
    ensures
        ({
            let r = page_update(start, index, rows, vec_len, offset);
            &&& 0 <= r.0 <= r.1 <= vec_len
            &&& r.1 - r.0 <= rows
        }),
{
}

/// When the cursor is inside the listing and the margin is at least one row
/// and at most the window's height, the cursor is shown after an update.
pub proof fn lemma_page_update_shows_cursor(start: int, index: int, rows: int, vec_len: int, offset: int)
    requires
        0 <= start,
        0 <= index < vec_len,
        1 <= offset <= rows,
    ensures
        ({
            let r = page_update(start, index, rows, vec_len, offset);
            r.0 <= index < r.1
        }),
{
}

/// When the cursor is more than `offset` entries away from both ends of the
/// window that starts at `start` and reaches `rows` entries further (never
/// past the end of the listing), an update leaves the window where it is:
/// it starts at `start` and ends `rows` entries later, or at the end of the
/// listing.
pub proof fn lemma_page_update_keeps_window(start: int, index: int, rows: int, vec_len: int, offset: int)
    requires
        0 <= start,
        0 <= rows,
        0 <= offset,
        start + offset < index,
        index + offset < min_int(start + rows, vec_len),
    ensures
        page_update(start, index, rows, vec_len, offset) == (start, min_int(start + rows, vec_len)),
{
}

/// After an update, where the listing allows it, the window starts at
/// least `offset` entries above the cursor and ends no sooner than `offset`
/// entries after it (its end is the first entry not shown).
pub proof fn lemma_page_update_keeps_margin(start: int, index: int, rows: int, vec_len: int, offset: int)
    requires
        0 <= start,
        0 <= index < vec_len,
        0 <= offset,
        2 * offset < rows,
    ensures
        ({
            let r = page_update(start, index, rows, vec_len, offset);
            &&& index - offset >= 0 ==> r.0 <= index - offset
            &&& index + offset <= vec_len ==> index + offset <= r.1
        }),
{
}

} // verus!
