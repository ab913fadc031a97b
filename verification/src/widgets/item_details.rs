//! The details of the selected episode: what is shown of it, and where.

use vstd::prelude::*;
use crate::entity::listening_state::Position;
use crate::ui_models::{ChannelItem, ChannelItemView};
use crate::widgets::rect::Rect;

verus! {

/// The details widget.
pub struct ItemDetails {}

/// The first line of the details.
#[derive(Debug, Clone, Copy, PartialEq, Eq, Structural)]
pub enum Marker {
    /// The episode is the playing one.
    Playing,
    /// The episode was heard up to this position.
    Heard(Position),
    /// The episode was never played: there is no first line.
    Unplayed,
}

/// The lines that the head of the details takes.
pub const HEAD_HEIGHT: u16 = 8;

/// The first line of an episode: the playing mark where it is playing,
/// else the position of its listening state, if it has one.
pub open spec fn marker_of(item: ChannelItemView, currently_playing: bool) -> Marker {
    if currently_playing {
        Marker::Playing
    } else {
        match item.listening_state {
            Some(state) => Marker::Heard(state.time),
            None => Marker::Unplayed,
        }
    }
}

/// A text, or a dash where there is none.
pub open spec fn or_dash(text: Option<Seq<char>>) -> Seq<char> {
    match text {
        Some(t) => t,
        None => "-"@,
    }
}

impl ItemDetails {
    /// The first line of an episode.
    pub fn marker(item: &ChannelItem, currently_playing: bool) -> (r: Marker)
        ensures
            r == marker_of(item@, currently_playing),
    {
        if currently_playing {
            Marker::Playing
        } else {
            match item.listening_state {
                Some(state) => Marker::Heard(state.time),
                None => Marker::Unplayed,
            }
        }
    }

    /// The title that is shown: a dash for an episode without title.
    pub fn title(item: &ChannelItem) -> (r: String)
        ensures
            r@ == or_dash(item@.title),
    {
        match &item.title {
            Some(t) => t.clone(),
            None => "-".to_owned(),
        }
    }

    /// The description that is shown: a dash for an episode without
    /// description.
    pub fn description(item: &ChannelItem) -> (r: String)
        ensures
            r@ == or_dash(item@.description),
    {
        match &item.description {
            Some(t) => t.clone(),
            None => "-".to_owned(),
        }
    }

    /// The place of the head of the details: inside the border, the first
    /// `HEAD_HEIGHT` lines.
    pub fn head_area(area: Rect) -> (r: Rect)
        requires
            area.x + 1 <= u16::MAX,
            area.y + 1 <= u16::MAX,
            area.width >= 2,
        ensures
            r == (Rect {
                x: (area.x + 1) as u16,
                y: (area.y + 1) as u16,
                width: (area.width - 2) as u16,
                height: HEAD_HEIGHT,
            }),
    {
        Rect { x: area.x + 1, y: area.y + 1, width: area.width - 2, height: HEAD_HEIGHT }
    }

    /// The place of the description: inside the border, below the head.
    pub fn body_area(area: Rect) -> (r: Rect)
        requires
            area.x + 1 <= u16::MAX,
            area.y + 1 + HEAD_HEIGHT <= u16::MAX,
            area.width >= 2,
            area.height >= 2 + HEAD_HEIGHT,
        ensures
            r == (Rect {
                x: (area.x + 1) as u16,
                y: (area.y + 1 + HEAD_HEIGHT) as u16,
                width: (area.width - 2) as u16,
                height: (area.height - 2 - HEAD_HEIGHT) as u16,
            }),
    {
        Rect {
            x: area.x + 1,
            y: area.y + 1 + HEAD_HEIGHT,
            width: area.width - 2,
            height: area.height - 2 - HEAD_HEIGHT,
        }
    }
}

} // verus!
