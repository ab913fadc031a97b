//! What the foreground shows: episodes joined with their listening state.

use vstd::prelude::*;
use crate::date::PubDate;
use crate::entity::channel_item;
use crate::entity::listening_state;
use crate::entity::listening_state::Position;
use crate::text::{opt_chars, clone_opt};

verus! {

/// The playback progress of an episode.
#[derive(Debug, Clone, Copy, PartialEq, Eq, Structural)]
pub struct ListeningState {
    pub time: Position,
    pub finished: bool,
}

/// The progress that a stored row records.
pub open spec fn progress(row: listening_state::ModelView) -> ListeningState {
    ListeningState { time: row.time, finished: row.finished }
}

/// The progress that an optional stored row records.
pub open spec fn progress_opt(row: Option<listening_state::ModelView>) -> Option<ListeningState> {
    match row {
        Some(r) => Some(progress(r)),
        None => None,
    }
}

/// An episode as it is listed: the stored row, and the listening state of
/// the episode where one is stored. Absence means that the episode was
/// never played.
#[derive(Debug)]
pub struct ChannelItem {
    pub ordering: i32,
    pub channel_id: i32,
    pub title: Option<String>,
    pub link: Option<String>,
    pub source: Option<String>,
    pub enclosure: String,
    pub description: Option<String>,
    pub guid: Option<String>,
    pub pub_date: Option<PubDate>,
    pub listening_state: Option<ListeningState>,
}

/// The mathematical value of a listed episode.
pub struct ChannelItemView {
    pub ordering: i32,
    pub channel_id: i32,
    pub title: Option<Seq<char>>,
    pub link: Option<Seq<char>>,
    pub source: Option<Seq<char>>,
    pub enclosure: Seq<char>,
    pub description: Option<Seq<char>>,
    pub guid: Option<Seq<char>>,
    pub pub_date: Option<PubDate>,
    pub listening_state: Option<ListeningState>,
}

impl View for ChannelItem {
    type V = ChannelItemView;

    open spec fn view(&self) -> ChannelItemView {
        ChannelItemView {
            ordering: self.ordering,
            channel_id: self.channel_id,
            title: opt_chars(self.title),
            link: opt_chars(self.link),
            source: opt_chars(self.source),
            enclosure: self.enclosure@,
            description: opt_chars(self.description),
            guid: opt_chars(self.guid),
            pub_date: self.pub_date,
            listening_state: self.listening_state,
        }
    }
}

impl DeepView for ChannelItem {
    type V = ChannelItemView;

    open spec fn deep_view(&self) -> ChannelItemView {
        self@
    }
}

impl Clone for ChannelItem {
    fn clone(&self) -> (r: Self)
        ensures
            r@ == self@,
    {
        ChannelItem {
            ordering: self.ordering,
            channel_id: self.channel_id,
            title: clone_opt(&self.title),
            link: clone_opt(&self.link),
            source: clone_opt(&self.source),
            enclosure: self.enclosure.clone(),
            description: clone_opt(&self.description),
            guid: clone_opt(&self.guid),
            pub_date: self.pub_date,
            listening_state: self.listening_state,
        }
    }
}

/// The listing of an episode row beside the listening states related to it:
/// the row's fields without its guid, and the progress of the first related
/// state.
pub open spec fn joined(
    item: channel_item::ModelView,
    states: Seq<listening_state::ModelView>,
) -> ChannelItemView {
    ChannelItemView {
        ordering: item.ordering,
        channel_id: item.channel_id,
        title: item.title,
        link: item.link,
        source: item.source,
        enclosure: item.enclosure,
        description: item.description,
        guid: None,
        pub_date: item.pub_date,
        listening_state: if states.len() > 0 {
            Some(progress(states[0]))
        } else {
            None
        },
    }
}

impl ChannelItem {
    /// Joins an episode row with the listening states related to it.
    pub fn from(entry: &(channel_item::Model, Vec<listening_state::Model>)) -> (r: ChannelItem)
        ensures
            r@ == joined(entry.0@, entry.1.deep_view()),
    {
        let item = &entry.0;
        let listening_state = if entry.1.len() > 0 {
            let first = &entry.1[0];
            Some(ListeningState { time: first.time, finished: first.finished })
        } else {
            None
        };
        ChannelItem {
            ordering: item.ordering,
            channel_id: item.channel_id,
            title: clone_opt(&item.title),
            link: clone_opt(&item.link),
            source: clone_opt(&item.source),
            enclosure: item.enclosure.clone(),
            description: clone_opt(&item.description),
            guid: None,
            pub_date: item.pub_date,
            listening_state,
        }
    }
}

} // verus!
