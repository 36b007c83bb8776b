//! Selection and scrolling of a list shown as a grid of cells.

use vstd::prelude::*;
use crate::render::revent::Code;

verus! {

/// A step of the selection.
#[derive(Clone, Copy, PartialEq, Eq, Structural, Debug)]
pub enum ScrollAction {
    /// One row up, or from the first row to the last.
    Up,
    /// One row down, or from the last row to the first.
    Down,
    /// One cell back.
    Left,
    /// One cell forward.
    Right,
}

/// The selection in a grid of `column` cells per row, of which `row` rows
/// are visible starting at `top_row`.
#[derive(Clone, Copy, PartialEq, Eq, Structural, Debug)]
pub struct ListDisplayStatus {
    /// The first visible row.
    pub top_row: usize,
    /// The selected cell, counted row by row from zero.
    pub selected_idx: usize,
    /// Cells per row.
    pub column: usize,
    /// Visible rows.
    pub row: usize,
}

/// The first visible row after the selection has moved forward to `selected`:
/// one further down once the selection has left the window.
pub open spec fn scrolled_down(top: int, selected: int, column: int, row: int) -> int {
    if selected - top * column >= column * row {
        top + 1
    } else {
        top
    }
}

/// The first visible row after the selection has moved back to `selected`:
/// one further up once the selection lies before the window.
pub open spec fn scrolled_up(top: int, selected: int, column: int) -> int {
    if selected < column * top && top > 0 {
        top - 1
    } else {
        top
    }
}

/// The step of the selection that a key stands for: the four arrows.
pub open spec fn scroll_action_of(code: Code) -> Option<ScrollAction> {
    match code {
        Code::ArrowLeft => Some(ScrollAction::Left),
        Code::ArrowRight => Some(ScrollAction::Right),
        Code::ArrowUp => Some(ScrollAction::Up),
        Code::ArrowDown => Some(ScrollAction::Down),
        _ => None,
    }
}

impl ScrollAction {
    /// The step of the selection that a key stands for, if any.
    pub fn from_code(code: Code) -> (action: Option<ScrollAction>)
        ensures
            action == scroll_action_of(code),
    {
        match code {
            Code::ArrowLeft => Some(ScrollAction::Left),
            Code::ArrowRight => Some(ScrollAction::Right),
            Code::ArrowUp => Some(ScrollAction::Up),
            Code::ArrowDown => Some(ScrollAction::Down),
            _ => None,
        }
    }
}

impl ListDisplayStatus {
    /// Whether a cell is drawn: it lies in the window, or is the first
    /// cell of the row below it.
    pub open spec fn shows_spec(self, idx: usize) -> bool {
        self.top_row * self.column <= idx <= (self.top_row + self.row) * self.column
    }

    /// Whether a cell is drawn.
    pub fn shows(&self, idx: usize) -> (shown: bool)
        requires
            self.top_row + self.row <= usize::MAX,
            (self.top_row + self.row) * self.column <= usize::MAX,
        ensures
            shown == self.shows_spec(idx),
    {
        assert(self.top_row * self.column <= (self.top_row + self.row) * self.column)
            by (nonlinear_arith);
        idx >= self.top_row * self.column && idx <= (self.top_row + self.row) * self.column
    }

    /// Whether the state fits a list of `size` cells: the grid and the list
    /// are not empty, the selection is a cell of the list that does not lie
    /// before the window, and the sums and products the moves compute fit in
    /// a `usize`.
    pub open spec fn fits(self, size: usize) -> bool {
        &&& self.column > 0
        &&& self.row > 0
        &&& size > 0
        &&& self.selected_idx < size
        &&& self.top_row * self.column <= self.selected_idx
        &&& size + self.column * (self.row + 1) <= usize::MAX
    }

    /// The selected cell and first visible row after one step in a list of
    /// `size` cells.
    ///
    /// Left and right move by one cell and stop at the ends. Up and down
    /// move by one row; up from the first row goes to the same column of the
    /// last row (or the last cell, if that row is shorter) and down from the
    /// last row goes to the same column of the first. The window follows
    /// the selection by one row at a time, except that a wrap shows the end
    /// or the start of the list.
    pub open spec fn moved(self, size: usize, action: ScrollAction) -> (int, int) {
        let idx = self.selected_idx as int;
        let top = self.top_row as int;
        let column = self.column as int;
        let row = self.row as int;
        match action {
            ScrollAction::Left => {
                let selected = if idx > 0 {
                    idx - 1
                } else {
                    idx
                };
                (selected, scrolled_up(top, selected, column))
            },
            ScrollAction::Right => {
                let selected = if idx < size - 1 {
                    idx + 1
                } else {
                    idx
                };
                (selected, scrolled_down(top, selected, column, row))
            },
            ScrollAction::Up => {
                if idx / column == 0 {
                    let rows = (size - 1) / column + 1;
                    let below = idx % column + (rows - 1) * column;
                    (
                        if below >= size {
                            size - 1
                        } else {
                            below
                        },
                        if rows >= row {
                            rows - row
                        } else {
                            0
                        },
                    )
                } else {
                    (idx - column, scrolled_up(top, idx - column, column))
                }
            },
            ScrollAction::Down => {
                if (idx + column) / column > (size - 1) / column {
                    (idx % column, 0)
                } else if idx + column < size {
                    (idx + column, scrolled_down(top, idx + column, column, row))
                } else if idx % column > (size - 1) % column {
                    (size - 1, scrolled_down(top, size - 1, column, row))
                } else {
                    (idx, top)
                }
            },
        }
    }

    /// A grid of the given shape with the first cell selected.
    pub fn new(column: usize, row: usize) -> (status: ListDisplayStatus)
        ensures
            status == (ListDisplayStatus { top_row: 0, selected_idx: 0, column, row }),
    {
        ListDisplayStatus { top_row: 0, selected_idx: 0, column, row }
    }

    /// Moves the selection one step in a list of `size` cells and lets the
    /// window follow. The state fits the list afterwards as it did before.
    pub fn do_action(&mut self, size: usize, scroll_action: ScrollAction)
        requires
            old(self).fits(size),
        ensures
            final(self).selected_idx == old(self).moved(size, scroll_action).0,
            final(self).top_row == old(self).moved(size, scroll_action).1,
            final(self).column == old(self).column,
            final(self).row == old(self).row,
            final(self).fits(size),
    {
        let idx = self.selected_idx;
        let top = self.top_row;
        let column = self.column;
        let row = self.row;
        proof {
            lemma_products_fit(top as int, idx as int, column as int, row as int, size as int);
        }
        match scroll_action {
            ScrollAction::Left => {
                if idx > 0 {
                    self.selected_idx = idx - 1;
                }
                if self.selected_idx < column * top && top > 0 {
                    self.top_row = top - 1;
                }
                proof {
                    lemma_window_follows(
                        top as int,
                        self.top_row as int,
                        idx as int,
                        self.selected_idx as int,
                        column as int,
                        row as int,
                    );
                }
            },
            ScrollAction::Right => {
                if idx < size - 1 {
                    self.selected_idx = idx + 1;
                }
                if self.selected_idx - top * column >= column * row {
                    self.top_row = top + 1;
                }
                proof {
                    lemma_window_follows(
                        top as int,
                        self.top_row as int,
                        idx as int,
                        self.selected_idx as int,
                        column as int,
                        row as int,
                    );
                }
            },
            ScrollAction::Up => {
                if idx / column == 0 {
                    let rows = (size - 1) / column + 1;
                    proof {
                        lemma_last_row(idx as int, column as int, size as int);
                    }
                    self.selected_idx = idx % column + (rows - 1) * column;
                    if self.selected_idx >= size {
                        self.selected_idx = size - 1;
                    }
                    self.top_row = if rows >= row {
                        rows - row
                    } else {
                        0
                    };
                    proof {
                        lemma_wrap_window(
                            self.top_row as int,
                            self.selected_idx as int,
                            rows as int,
                            column as int,
                            row as int,
                            size as int,
                        );
                    }
                } else {
                    proof {
                        lemma_not_first_row(idx as int, column as int);
                    }
                    self.selected_idx = idx - column;
                    if self.selected_idx < column * top {
                        proof {
                            assert(top > 0) by (nonlinear_arith)
                                requires
                                    self.selected_idx < column * top,
                            ;
                        }
                        self.top_row = top - 1;
                    }
                    proof {
                        lemma_window_follows(
                            top as int,
                            self.top_row as int,
                            idx as int,
                            self.selected_idx as int,
                            column as int,
                            row as int,
                        );
                    }
                }
            },
            ScrollAction::Down => {
                if (idx + column) / column > (size - 1) / column {
                    proof {
                        lemma_mod_below(idx as int, column as int);
                    }
                    self.selected_idx = idx % column;
                    self.top_row = 0;
                } else if idx + column < size {
                    self.selected_idx = idx + column;
                    if self.selected_idx - top * column >= column * row {
                        self.top_row = top + 1;
                    }
                    proof {
                        lemma_window_follows(
                            top as int,
                            self.top_row as int,
                            idx as int,
                            self.selected_idx as int,
                            column as int,
                            row as int,
                        );
                    }
                } else if idx % column > (size - 1) % column {
                    self.selected_idx = size - 1;
                    if self.selected_idx - top * column >= column * row {
                        self.top_row = top + 1;
                    }
                    proof {
                        lemma_window_follows(
                            top as int,
                            self.top_row as int,
                            idx as int,
                            self.selected_idx as int,
                            column as int,
                            row as int,
                        );
                    }
                }
            },
        };
    }
}

proof fn lemma_products_fit(top: int, idx: int, column: int, row: int, size: int)
    requires
        column > 0,
        row > 0,
        0 <= top,
        0 <= idx < size,
        top * column <= idx,
        size + column * (row + 1) <= usize::MAX,
    ensures
        0 <= top * column <= idx,
        column * top == top * column,
        0 <= column * row,
        column * row + column == column * (row + 1),
        top < size,
        idx + column <= usize::MAX,
{
    assert(0 <= top * column) by (nonlinear_arith)
        requires
            0 <= top,
            column > 0,
    ;
    assert(column * top == top * column) by (nonlinear_arith);
    assert(0 <= column * row) by (nonlinear_arith)
        requires
            row > 0,
            column > 0,
    ;
    assert(column * row + column == column * (row + 1)) by (nonlinear_arith);
    assert(top <= top * column) by (nonlinear_arith)
        requires
            0 <= top,
            column > 0,
    ;
}

proof fn lemma_window_follows(top: int, new_top: int, idx: int, selected: int, column: int, row: int)
    requires
        column > 0,
        row > 0,
        0 <= top,
        0 <= selected,
        top * column <= idx,
        selected >= idx - column,
        new_top == top || (new_top == top + 1 && selected >= idx && selected - top * column
            >= column * row) || (new_top == top - 1 && top > 0),
        new_top == top ==> selected >= idx || selected >= column * top || top == 0,
    ensures
        0 <= new_top,
        new_top * column <= selected,
{
    assert(column * top == top * column) by (nonlinear_arith);
    assert(top == 0 ==> top * column == 0) by (nonlinear_arith);
    assert((top + 1) * column == top * column + column) by (nonlinear_arith);
    assert((top - 1) * column == top * column - column) by (nonlinear_arith);
    assert(column * row >= column) by (nonlinear_arith)
        requires
            row > 0,
            column > 0,
    ;
}

proof fn lemma_last_row(idx: int, column: int, size: int)
    requires
        column > 0,
        0 <= idx < size,
        idx / column == 0,
    ensures
        0 <= (size - 1) / column,
        0 <= ((size - 1) / column) * column <= size - 1,
        0 <= idx % column < column,
        idx % column == idx,
{
    assert(0 <= (size - 1) / column && ((size - 1) / column) * column <= size - 1 && 0 <= ((size
        - 1) / column) * column) by (nonlinear_arith)
        requires
            column > 0,
            size - 1 >= 0,
    ;
    assert(0 <= idx % column < column && idx % column == idx) by (nonlinear_arith)
        requires
            column > 0,
            0 <= idx,
            idx / column == 0,
    ;
}

proof fn lemma_wrap_window(top: int, selected: int, rows: int, column: int, row: int, size: int)
    requires
        column > 0,
        row > 0,
        rows >= 1,
        (rows - 1) * column <= size - 1,
        selected >= (rows - 1) * column || selected == size - 1,
        top == if rows >= row {
            rows - row
        } else {
            0
        },
    ensures
        0 <= top,
        top * column <= selected,
{
    assert(top * column <= (rows - 1) * column) by (nonlinear_arith)
        requires
            0 <= top <= rows - 1,
            column > 0,
    ;
}

proof fn lemma_not_first_row(idx: int, column: int)
    requires
        column > 0,
        0 <= idx,
        idx / column != 0,
    ensures
        idx >= column,
{
    assert(idx >= column) by (nonlinear_arith)
        requires
            column > 0,
            0 <= idx,
            idx / column != 0,
    ;
}

proof fn lemma_mod_below(idx: int, column: int)
    requires
        column > 0,
        0 <= idx,
    ensures
        0 <= idx % column <= idx,
{
    assert(0 <= idx % column <= idx) by (nonlinear_arith)
        requires
            column > 0,
            0 <= idx,
    ;
}

} // verus!
