//! The selection of a list, and how the arrow keys move it.

use vstd::prelude::*;

verus! {

/// The state of a list: the selected row, and the first row that is shown.
#[derive(Debug, Clone, Copy, PartialEq, Eq, Structural)]
pub struct ListState {
    pub offset: usize,
    pub selected: Option<usize>,
}

/// The row that the down key selects in a list of `len` rows: the next one,
/// and the first one after the last.
pub open spec fn next_row(len: int, selected: int) -> int {
    if selected >= len - 1 {
        0
    } else {
        selected + 1
    }
}

/// The row that the up key selects in a list of `len` rows: the one
/// before, and the last one before the first.
pub open spec fn prev_row(len: int, selected: int) -> int {
    if selected <= 0 {
        len - 1
    } else {
        selected - 1
    }
}

/// The row that counts as selected: row 0 where none is.
pub open spec fn selected_or_first(state: ListState) -> int {
    match state.selected {
        Some(i) => i as int,
        None => 0,
    }
}

/// The state of a list of `len` rows after the down key, or after the up
/// key where `down` is false. An empty list keeps its state.
pub open spec fn moved(state: ListState, len: int, down: bool) -> ListState {
    if len > 0 {
        ListState {
            selected: Some(
                (if down {
                    next_row(len, selected_or_first(state))
                } else {
                    prev_row(len, selected_or_first(state))
                }) as usize,
            ),
            ..state
        }
    } else {
        state
    }
}

/// In a list that is not empty, the down key selects a row of the list
/// whatever was selected, the up key does so from every row of the list, and
/// each undoes the other on every row of the list.
pub proof fn law_arrows_stay_in_list(len: int, selected: int)
    requires
        len > 0,
        selected >= 0,
    ensures
        0 <= next_row(len, selected) < len,
        selected <= len - 1 ==> 0 <= prev_row(len, selected) < len,
        0 <= selected < len ==> prev_row(len, next_row(len, selected)) == selected && next_row(
            len,
            prev_row(len, selected),
        ) == selected,
{
}

impl ListState {
    /// A list with nothing selected, shown from its first row.
    pub fn new() -> (r: ListState)
        ensures
            r == (ListState { offset: 0, selected: None }),
    {
        ListState { offset: 0, selected: None }
    }

    /// The selected row.
    pub fn selected(&self) -> (r: Option<usize>)
        ensures
            r == self.selected,
    {
        self.selected
    }

    /// The first row that is shown.
    pub fn offset(&self) -> (r: usize)
        ensures
            r == self.offset,
    {
        self.offset
    }

    /// Selects a row. Selecting none shows the list from its first row
    /// again.
    pub fn select(&mut self, index: Option<usize>)
        ensures
            final(self).selected == index,
            final(self).offset == (if index is None {
                0
            } else {
                old(self).offset
            }),
    {
        self.selected = index;
        if index.is_none() {
            self.offset = 0;
        }
    }

    /// Moves the selection one row down in a list of `len` rows, from the
    /// last row to the first. An empty list keeps its selection.
    pub fn select_next(&mut self, len: usize)
        ensures
            *final(self) == moved(*old(self), len as int, true),
    {
        if len > 0 {
            let selected = match self.selected {
                Some(i) => i,
                None => 0,
            };
            let next = if selected >= len - 1 {
                0
            } else {
                selected + 1
            };
            self.selected = Some(next);
        }
    }

    /// Moves the selection one row up in a list of `len` rows, from the
    /// first row to the last. An empty list keeps its selection.
    pub fn select_previous(&mut self, len: usize)
        ensures
            *final(self) == moved(*old(self), len as int, false),
    {
        if len > 0 {
            let selected = match self.selected {
                Some(i) => i,
                None => 0,
            };
            let previous = if selected == 0 {
                len - 1
            } else {
                selected - 1
            };
            self.selected = Some(previous);
        }
    }
}

} // verus!
