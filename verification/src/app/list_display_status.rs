//! Selection and scrolling of a list shown one item per row.

use vstd::prelude::*;
use super::list_wrap_display_status::ScrollAction;

verus! {

/// The selection in a list of which `display_row` rows are visible,
/// starting at `top_row`.
#[derive(Clone, Copy, PartialEq, Eq, Structural, Debug)]
pub struct ListState {
    /// The first visible row.
    pub top_row: i32,
    /// The selected row.
    pub selected_idx: i32,
    /// The number of visible rows.
    pub display_row: i32,
}

impl ListState {
    /// The selected row after one step in a list of `size` rows: up and
    /// down move by one and wrap around at the ends; other steps keep the
    /// row, brought back into the list if it lies outside.
    pub open spec fn selected_after(self, size: i32, action: ScrollAction) -> int {
        let moved = match action {
            ScrollAction::Up => self.selected_idx - 1,
            ScrollAction::Down => self.selected_idx + 1,
            _ => self.selected_idx as int,
        };
        if moved < 0 {
            if size > 0 {
                size - 1
            } else {
                0
            }
        } else if moved >= size {
            0
        } else {
            moved
        }
    }

    /// The first visible row once `selected` is the selected row: the
    /// window moves just far enough to show it.
    pub open spec fn top_after(self, selected: int) -> int {
        if selected < self.top_row {
            selected
        } else if selected - self.top_row >= self.display_row {
            selected - self.display_row + 1
        } else {
            self.top_row as int
        }
    }

    /// Whether a step can be computed within the range of `i32`: the row
    /// moved to, the distance from the window's top to the selection, and
    /// the window's new top all fit.
    pub open spec fn can_scroll(self, size: i32, action: ScrollAction) -> bool {
        let selected = self.selected_after(size, action);
        &&& action == ScrollAction::Up ==> self.selected_idx > i32::MIN
        &&& action == ScrollAction::Down ==> self.selected_idx < i32::MAX
        &&& selected >= self.top_row ==> selected - self.top_row <= i32::MAX
        &&& selected >= self.top_row && selected - self.top_row >= self.display_row ==> i32::MIN
            <= selected - self.display_row <= i32::MAX - 1
    }

    /// The selected row held to a list of `size` rows.
    pub open spec fn clamped(self, size: i32) -> int {
        if self.selected_idx > size - 1 {
            size - 1
        } else if self.selected_idx < 0 {
            0
        } else {
            self.selected_idx as int
        }
    }

    /// A list showing `display_row` rows, with the first row selected.
    pub fn new(display_row: i32) -> (state: ListState)
        ensures
            state == (ListState { top_row: 0, selected_idx: 0, display_row }),
    {
        ListState { top_row: 0, selected_idx: 0, display_row }
    }

    /// Moves the selection one step in a list of `size` rows and lets the
    /// window follow.
    pub fn do_scroll(&mut self, size: i32, action: ScrollAction)
        requires
            old(self).can_scroll(size, action),
        ensures
            final(self).selected_idx == old(self).selected_after(size, action),
            final(self).top_row == old(self).top_after(old(self).selected_after(size, action)),
            final(self).display_row == old(self).display_row,
            0 <= final(self).selected_idx,
            size > 0 ==> final(self).selected_idx < size,
            old(self).top_row >= 0 && old(self).display_row >= 0 ==> final(self).top_row >= 0,
    {
        match action {
            ScrollAction::Up => {
                self.selected_idx -= 1;
            },
            ScrollAction::Down => {
                self.selected_idx += 1;
            },
            _ => {},
        }
        if self.selected_idx < 0 {
            self.selected_idx = if size > 0 {
                size - 1
            } else {
                0
            };
        } else if self.selected_idx >= size {
            self.selected_idx = 0;
        }
        if self.selected_idx < self.top_row {
            self.top_row = self.selected_idx;
        } else if self.selected_idx - self.top_row >= self.display_row {
            self.top_row = self.selected_idx - self.display_row + 1;
        }
    }

    /// Brings the selection back into a list that now has `size` rows.
    pub fn update(&mut self, size: i32)
        requires
            size > i32::MIN,
        ensures
            final(self).selected_idx == old(self).clamped(size),
            final(self).top_row == old(self).top_row,
            final(self).display_row == old(self).display_row,
    {
        if self.selected_idx > size - 1 {
            self.selected_idx = size - 1;
        } else if self.selected_idx < 0 {
            self.selected_idx = 0;
        }
    }

    /// Selects the given row.
    pub fn set_selected_idx(&mut self, idx: i32)
        ensures
            *final(self) == (ListState { selected_idx: idx, ..*old(self) }),
    {
        self.selected_idx = idx;
    }
}

} // verus!
