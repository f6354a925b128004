use vstd::prelude::*;

use crate::page_state::{page_update, rows_of};
use crate::structs::JoshutoDirList;

verus! {

/// Where a window stands on the terminal and how large it is: its rows and
/// columns, and the row and column of its top left corner.
#[derive(Clone, Copy, Debug, PartialEq, Eq, Structural)]
pub struct PanelGeometry {
    pub rows: i32,
    pub cols: i32,
    pub y: usize,
    pub x: usize,
}

/// The windows of the program: the title bar and the tab counter on the
/// first row, the parent, current and preview columns, and the status bar
/// on the last row; the columns are as wide as `win_ratio` says.
#[derive(Clone, Copy, Debug)]
pub struct JoshutoView {
    pub top_win: PanelGeometry,
    pub tab_win: PanelGeometry,
    pub left_win: PanelGeometry,
    pub mid_win: PanelGeometry,
    pub right_win: PanelGeometry,
    pub bot_win: PanelGeometry,
    pub win_ratio: (usize, usize, usize),
}

/// Whether the terminal size and the ratio can be laid out: a ratio that
/// sums to a positive number fitting an `i32`, and a terminal at least one
/// row high and five columns wide.
pub open spec fn layout_fits(win_ratio: (usize, usize, usize), term_rows: i32, term_cols: i32) -> bool {
    &&& 0 < win_ratio.0 + win_ratio.1 + win_ratio.2 <= i32::MAX
    &&& 1 <= term_rows
    &&& 5 <= term_cols
}

/// The width of one part of the ratio: the terminal width divided by the
/// sum of the ratio, rounded down.
pub open spec fn term_divide(win_ratio: (usize, usize, usize), term_cols: i32) -> int {
    term_cols as int / (win_ratio.0 + win_ratio.1 + win_ratio.2)
}

/// The windows for a terminal of `term_rows` rows and `term_cols` columns.
/// The preview column starts where the ratio's last part, counted from the
/// left, ends.
pub open spec fn spec_layout(win_ratio: (usize, usize, usize), term_rows: i32, term_cols: i32) -> (
    PanelGeometry,
    PanelGeometry,
    PanelGeometry,
    PanelGeometry,
    PanelGeometry,
    PanelGeometry,
) {
    let d = term_divide(win_ratio, term_cols);
    (
        PanelGeometry { rows: 1, cols: (term_cols - 5) as i32, y: 0, x: 0 },
        PanelGeometry { rows: 1, cols: 5, y: 0, x: (term_cols - 5) as usize },
        PanelGeometry { rows: (term_rows - 2) as i32, cols: (d * win_ratio.0 - 1) as i32, y: 1, x: 0 },
        PanelGeometry {
            rows: (term_rows - 2) as i32,
            cols: (d * win_ratio.1 - 1) as i32,
            y: 1,
            x: (d * win_ratio.0) as usize,
        },
        PanelGeometry {
            rows: (term_rows - 2) as i32,
            cols: (d * win_ratio.2 - 1) as i32,
            y: 1,
            x: (d * win_ratio.2) as usize,
        },
        PanelGeometry { rows: 1, cols: term_cols, y: (term_rows - 1) as usize, x: 0 },
    )
}

proof fn lemma_part_fits(d: int, r: int, sum: int, cols: int)
    requires
        0 < sum,
        0 <= r <= sum,
        0 <= cols,
        d == cols / sum,
    ensures
        0 <= d * r <= cols,
{
    assert(0 <= d) by (nonlinear_arith)
        requires
            0 < sum,
            0 <= cols,
            d == cols / sum,
    ;
    assert(d * r <= d * sum) by (nonlinear_arith)
        requires
            0 <= d,
            r <= sum,
    ;
    assert(d * sum <= cols) by (nonlinear_arith)
        requires
            0 < sum,
            0 <= cols,
            d == cols / sum,
    ;
    assert(0 <= d * r) by (nonlinear_arith)
        requires
            0 <= d,
            0 <= r,
    ;
}

impl JoshutoView {
    /// The windows for a terminal of `term_rows` rows and `term_cols`
    /// columns, with columns as wide as `win_ratio` says.
    pub fn new(win_ratio: (usize, usize, usize), term_rows: i32, term_cols: i32) -> (r: Self)
        requires
            layout_fits(win_ratio, term_rows, term_cols),
        ensures
            (r.top_win, r.tab_win, r.left_win, r.mid_win, r.right_win, r.bot_win) == spec_layout(
                win_ratio,
                term_rows,
                term_cols,
            ),
            r.win_ratio == win_ratio,
    {
        let sum_ratio: usize = win_ratio.0 + win_ratio.1 + win_ratio.2;
        let term_divide: i32 = term_cols / sum_ratio as i32;
        proof {
            lemma_part_fits(term_divide as int, win_ratio.0 as int, sum_ratio as int, term_cols as int);
            lemma_part_fits(term_divide as int, win_ratio.1 as int, sum_ratio as int, term_cols as int);
            lemma_part_fits(term_divide as int, win_ratio.2 as int, sum_ratio as int, term_cols as int);
        }
        let top_win = PanelGeometry { rows: 1, cols: term_cols - 5, y: 0, x: 0 };
        let tab_win = PanelGeometry { rows: 1, cols: 5, y: 0, x: term_cols as usize - 5 };
        let left_win = PanelGeometry {
            rows: term_rows - 2,
            cols: (term_divide * win_ratio.0 as i32) - 1,
            y: 1,
            x: 0,
        };
        let mid_win = PanelGeometry {
            rows: term_rows - 2,
            cols: (term_divide * win_ratio.1 as i32) - 1,
            y: 1,
            x: term_divide as usize * win_ratio.0,
        };
        let right_win = PanelGeometry {
            rows: term_rows - 2,
            cols: (term_divide * win_ratio.2 as i32) - 1,
            y: 1,
            x: term_divide as usize * win_ratio.2,
        };
        let bot_win = PanelGeometry { rows: 1, cols: term_cols, y: term_rows as usize - 1, x: 0 };
        JoshutoView { top_win, tab_win, left_win, mid_win, right_win, bot_win, win_ratio }
    }

    /// Lays the windows out again for a terminal of `term_rows` rows and
    /// `term_cols` columns, keeping the ratio.
    pub fn resize_views(&mut self, term_rows: i32, term_cols: i32)
        requires
            layout_fits(old(self).win_ratio, term_rows, term_cols),
        ensures
            final(self).win_ratio == old(self).win_ratio,
            ({
                let v = *final(self);
                (v.top_win, v.tab_win, v.left_win, v.mid_win, v.right_win, v.bot_win) == spec_layout(
                    old(self).win_ratio,
                    term_rows,
                    term_cols,
                )
            }),
    {
        let new_view = Self::new(self.win_ratio, term_rows, term_cols);
        self.top_win = new_view.top_win;
        self.bot_win = new_view.bot_win;
        self.tab_win = new_view.tab_win;
        self.left_win = new_view.left_win;
        self.mid_win = new_view.mid_win;
        self.right_win = new_view.right_win;
    }
}

/// What a panel shows of a directory listing.
#[derive(Clone, Copy, Debug, PartialEq, Eq, Structural)]
pub enum ListingView {
    /// Nothing: the panel is too narrow.
    Hidden,
    /// The message for an empty directory.
    Empty,
    /// The entries in the listing's window.
    Entries,
}

/// What a panel `cols` wide shows of a listing of `vec_len` entries: nothing
/// when it is narrower than eight columns, the message for an empty
/// directory when there are no entries, else the entries.
pub open spec fn spec_listing_view(cols: i32, vec_len: int) -> ListingView {
    if cols < 8 {
        ListingView::Hidden
    } else if vec_len == 0 {
        ListingView::Empty
    } else {
        ListingView::Entries
    }
}

impl PanelGeometry {
    /// Decides what this panel shows of `dirlist`, as `spec_listing_view`
    /// says; where it shows the entries and the listing has a cursor, the
    /// listing's window is moved to the cursor with `scroll_offset` rows of
    /// margin in the panel's rows. Nothing else of the listing changes.
    pub fn non_empty_dir_checks(&self, dirlist: &mut JoshutoDirList, scroll_offset: usize) -> (r:
        ListingView)
        requires
            old(dirlist).pagestate.start + rows_of(self.rows) <= usize::MAX,
            old(dirlist).pagestate.start + scroll_offset <= usize::MAX,
            old(dirlist).index >= 0 ==> old(dirlist).index + scroll_offset <= usize::MAX,
        ensures
            r == spec_listing_view(self.cols, old(dirlist).contents@.len() as int),
            final(dirlist).index == old(dirlist).index,
            final(dirlist).path == old(dirlist).path,
            final(dirlist).update_needed == old(dirlist).update_needed,
            final(dirlist).metadata == old(dirlist).metadata,
            final(dirlist).contents == old(dirlist).contents,
            if r == ListingView::Entries && old(dirlist).index >= 0 {
                let p = page_update(
                    old(dirlist).pagestate.start as int,
                    old(dirlist).index as int,
                    rows_of(self.rows),
                    old(dirlist).contents@.len() as int,
                    scroll_offset as int,
                );
                final(dirlist).pagestate.start == p.0 && final(dirlist).pagestate.end == p.1
            } else {
                final(dirlist).pagestate == old(dirlist).pagestate
            },
    {
        if self.cols < 8 {
            return ListingView::Hidden;
        }
        let vec_len = dirlist.contents.len();
        if vec_len == 0 {
            return ListingView::Empty;
        }
        if dirlist.index >= 0 {
            let index = dirlist.index as usize;
            dirlist.pagestate.update_page_state(index, self.rows, vec_len, scroll_offset);
        }
        ListingView::Entries
    }
}

} // verus!
