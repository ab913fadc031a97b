//! The episode list: which rows are shown, and how a row is marked.

use vstd::prelude::*;
use crate::entity::listening_state::Position;
use crate::list_state::ListState;
use crate::ui_models::{ChannelItem, ChannelItemView, ListeningState};

verus! {

/// The episode list widget.
pub struct SimpleList {}

/// How far an episode was heard.
#[derive(Debug, Clone, Copy, PartialEq, Eq, Structural)]
pub enum ItemState {
    Finished,
    InProgress(Position),
    Unplayed,
}

/// The mark of an episode with the given listening state.
pub open spec fn item_state_of(state: Option<ListeningState>) -> ItemState {
    match state {
        Some(ls) => if ls.finished {
            ItemState::Finished
        } else {
            ItemState::InProgress(ls.time)
        },
        None => ItemState::Unplayed,
    }
}

/// Whether `item` is the playing episode: it has the channel and the
/// enclosure of `active`.
pub open spec fn is_playing(item: ChannelItemView, active: Option<ChannelItemView>) -> bool {
    match active {
        Some(a) => item.channel_id == a.channel_id && item.enclosure == a.enclosure,
        None => false,
    }
}

/// The first row shown after the list scrolled to its selection: the
/// selection where it stood above the rows shown, the row that puts the
/// selection last where it stood below them, and the same row otherwise.
pub open spec fn scrolled(state: ListState, visible: int) -> int {
    match state.selected {
        Some(selected) => if selected < state.offset {
            selected as int
        } else if selected >= state.offset + visible {
            selected - visible + 1
        } else {
            state.offset as int
        },
        None => state.offset as int,
    }
}

/// The row behind the last row shown, in a list of `len` rows shown from
/// row `start`: `visible` rows further, but not beyond the last row of the
/// list.
pub open spec fn shown_end(len: int, start: int, visible: int) -> int {
    if len - 1 < start + visible {
        len - 1
    } else {
        start + visible
    }
}

impl SimpleList {
    /// Scrolls a list of `len` rows to its selection and returns the rows
    /// to draw, from the first to the one before the second. The list is
    /// drawn in `height` lines, two of which are its border.
    pub fn window(state: &mut ListState, len: usize, height: u16) -> (r: (usize, usize))
        requires
            len > 0,
            height >= 2,
            old(state).offset + height <= usize::MAX,
            old(state).selected matches Some(selected) ==> selected < usize::MAX,
        ensures
            final(state).selected == old(state).selected,
            final(state).offset == scrolled(*old(state), height - 2),
            r.0 == final(state).offset,
            r.1 == shown_end(len as int, r.0 as int, height - 2),
    {
        let visible = (height - 2) as usize;
        match state.selected {
            Some(selected) => {
                if selected < state.offset {
                    state.offset = selected;
                } else if selected >= state.offset + visible {
                    state.offset = selected - visible + 1;
                }
            },
            None => {},
        }
        let start = state.offset;
        let end = if len - 1 < start + visible {
            len - 1
        } else {
            start + visible
        };
        (start, end)
    }

    /// The mark of an episode.
    pub fn item_state(item: &ChannelItem) -> (r: ItemState)
        ensures
            r == item_state_of(item@.listening_state),
    {
        match item.listening_state {
            Some(ls) => if ls.finished {
                ItemState::Finished
            } else {
                ItemState::InProgress(ls.time)
            },
            None => ItemState::Unplayed,
        }
    }

    /// Whether an episode is the playing one.
    pub fn playing(item: &ChannelItem, active: &Option<ChannelItem>) -> (r: bool)
        ensures
            r == is_playing(item@, active.deep_view()),
    {
        match active {
            Some(a) => item.channel_id == a.channel_id && item.enclosure == a.enclosure,
            None => false,
        }
    }
}

} // verus!
