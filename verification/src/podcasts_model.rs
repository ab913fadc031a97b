//! The podcast screen: what it holds, how it asks for a refresh, and how
//! it takes the messages of background work.

use vstd::prelude::*;
use crate::command::{Command, CommandView, PlayerStatus};
use crate::coordinator::{AsyncAction, AsyncActionView};
use crate::entity::channel;
use crate::feed::{FetchError, ParsedChannel, parse_feed, feed_in};
use crate::store::Store;
use crate::entity::listening_state::Position;
use crate::event::{KeyCode, KeyEvent};
use crate::list_state::{ListState, moved, selected_or_first};
use crate::text::{clone_opt, opt_chars};
use crate::textbox::{TextboxView, is_paste, typed};
use crate::ui_models::{ChannelItem, ChannelItemView, ListeningState};
use crate::widgets::open_dialog::OpenDialogState;

verus! {

/// The podcast screen.
#[derive(Debug)]
pub struct PodcastsModel {
    pub help_visible: bool,
    pub active_channel: Option<channel::Model>,
    pub active_item: Option<ChannelItem>,
    pub error: Option<String>,
    pub items_collection: Vec<ChannelItem>,
    pub list_state_channels: ListState,
    pub list_state_items: ListState,
    pub active_list_state: usize,
    pub podcasts_collection: Vec<channel::Model>,
    pub show_open_dialog: bool,
    pub waiting_message: Option<String>,
    pub open_dialog_state: OpenDialogState,
}

/// The mathematical value of the podcast screen.
pub struct PodcastsView {
    pub help_visible: bool,
    pub active_channel: Option<channel::ModelView>,
    pub active_item: Option<ChannelItemView>,
    pub error: Option<Seq<char>>,
    pub items_collection: Seq<ChannelItemView>,
    pub list_state_channels: ListState,
    pub list_state_items: ListState,
    pub active_list_state: usize,
    pub podcasts_collection: Seq<channel::ModelView>,
    pub show_open_dialog: bool,
    pub waiting_message: Option<Seq<char>>,
    pub open_dialog_state: TextboxView,
}

impl View for PodcastsModel {
    type V = PodcastsView;

    open spec fn view(&self) -> PodcastsView {
        PodcastsView {
            help_visible: self.help_visible,
            active_channel: self.active_channel.deep_view(),
            active_item: self.active_item.deep_view(),
            error: opt_chars(self.error),
            items_collection: self.items_collection.deep_view(),
            list_state_channels: self.list_state_channels,
            list_state_items: self.list_state_items,
            active_list_state: self.active_list_state,
            podcasts_collection: self.podcasts_collection.deep_view(),
            show_open_dialog: self.show_open_dialog,
            waiting_message: opt_chars(self.waiting_message),
            open_dialog_state: self.open_dialog_state@,
        }
    }
}

/// The channel that is selected in the channel list, if the selection
/// names a row of the list.
pub open spec fn selected_channel(v: PodcastsView) -> Option<channel::ModelView> {
    match v.list_state_channels.selected {
        Some(i) => if i < v.podcasts_collection.len() {
            Some(v.podcasts_collection[i as int])
        } else {
            None
        },
        None => None,
    }
}

/// The messages that ask for the playing episode's position to be stored:
/// the episode with `time` as its unfinished state, and then, where a
/// channel is selected, the request to list that channel anew. Nothing
/// where no episode is playing.
pub open spec fn listening_writes(v: PodcastsView, time: Position) -> Seq<CommandView> {
    match v.active_item {
        Some(item) => {
            let first = seq![
                CommandView::Send(
                    AsyncActionView::WriteListeningState(
                        ChannelItemView {
                            listening_state: Some(ListeningState { time, finished: false }),
                            ..item
                        },
                    ),
                ),
            ];
            match selected_channel(v) {
                Some(c) => first.push(CommandView::Send(AsyncActionView::ChannelAdded(c.id))),
                None => first,
            }
        },
        None => Seq::empty(),
    }
}

/// The screen after the episodes of channel `id` were listed: the listing
/// is shown, its first row is selected where the listing is not empty and the
/// playing episode is of another channel or there is none, and the waiting
/// message is gone.
pub open spec fn channel_shown(v: PodcastsView, id: i32, items: Seq<ChannelItemView>)
    -> PodcastsView {
    let unrelated = match v.active_item {
        Some(item) => item.channel_id != id,
        None => true,
    };
    PodcastsView {
        items_collection: items,
        list_state_items: if items.len() > 0 && unrelated {
            ListState { selected: Some(0), ..v.list_state_items }
        } else {
            v.list_state_items
        },
        waiting_message: None,
        ..v
    }
}

/// The screen after a refresh was asked for: the listing is empty, and
/// where a channel with a feed address is selected, the waiting message is
/// up.
pub open spec fn refresh_asked(v: PodcastsView) -> PodcastsView {
    PodcastsView {
        items_collection: Seq::empty(),
        waiting_message: match selected_channel(v) {
            Some(c) => if c.link is Some {
                Some("Fetching podcast info..."@)
            } else {
                v.waiting_message
            },
            None => v.waiting_message,
        },
        ..v
    }
}

/// The refresh that is started when one is asked for: of the selected
/// channel from its feed address, where there is such a channel and it has
/// one.
pub open spec fn refresh_started(v: PodcastsView) -> Seq<CommandView> {
    match selected_channel(v) {
        Some(c) => match c.link {
            Some(url) => seq![CommandView::Refresh { podcast_url: url, channel_id: c.id }],
            None => Seq::empty(),
        },
        None => Seq::empty(),
    }
}

/// The list that has the focus after the focus moved to the other list.
pub open spec fn other_list(active_list_state: usize) -> usize {
    if active_list_state % 2 == 0 {
        1
    } else {
        0
    }
}

/// The screen after an arrow key moved the selection of the list that has
/// the focus.
pub open spec fn arrow_pressed(v: PodcastsView, down: bool) -> PodcastsView {
    if v.active_list_state == 0 {
        PodcastsView {
            list_state_channels: moved(v.list_state_channels, v.podcasts_collection.len() as int, down),
            ..v
        }
    } else {
        PodcastsView {
            list_state_items: moved(v.list_state_items, v.items_collection.len() as int, down),
            ..v
        }
    }
}

/// The episode that the enter key plays: the selected row of the listing,
/// or its first row where none is selected, if the listing has that row.
pub open spec fn chosen_episode(v: PodcastsView) -> Option<ChannelItemView> {
    if selected_or_first(v.list_state_items) < v.items_collection.len() {
        Some(v.items_collection[selected_or_first(v.list_state_items)])
    } else {
        None
    }
}

/// The position at which an episode is taken up again: that of its
/// listening state.
pub open spec fn resume_at(item: ChannelItemView) -> Option<Position> {
    match item.listening_state {
        Some(state) => Some(state.time),
        None => None,
    }
}

/// The screen after a key.
///
/// While the dialog is up, escape and enter close it and every other key
/// goes to its text field. Else `o` opens the dialog with an empty field, `r`
/// asks for a refresh, left and right move the focus to the other list, up
/// and down move the selection of the list that has the focus, `h` shows or
/// hides the help. Enter on the channel list moves the focus to the listing;
/// enter on the listing makes the chosen episode the playing one and clears
/// the error. Every other key leaves the screen as it is.
pub open spec fn key_pressed(v: PodcastsView, key: KeyEvent) -> PodcastsView {
    if v.show_open_dialog {
        match key.code {
            KeyCode::Esc => PodcastsView { show_open_dialog: false, ..v },
            KeyCode::Enter => PodcastsView { show_open_dialog: false, ..v },
            _ => PodcastsView {
                open_dialog_state: typed(v.open_dialog_state, key.code, key.modifiers),
                ..v
            },
        }
    } else {
        match key.code {
            KeyCode::Char(c) => if c == 'o' {
                PodcastsView {
                    open_dialog_state: TextboxView {
                        cursor_pos: 0,
                        text: Seq::empty(),
                        ..v.open_dialog_state
                    },
                    show_open_dialog: true,
                    ..v
                }
            } else if c == 'r' {
                refresh_asked(v)
            } else if c == 'h' {
                PodcastsView { help_visible: !v.help_visible, ..v }
            } else {
                v
            },
            KeyCode::Left => PodcastsView { active_list_state: other_list(v.active_list_state), ..v },
            KeyCode::Right => PodcastsView { active_list_state: other_list(v.active_list_state), ..v },
            KeyCode::Down => arrow_pressed(v, true),
            KeyCode::Up => arrow_pressed(v, false),
            KeyCode::Enter => if v.active_list_state == 0 {
                PodcastsView { active_list_state: 1, ..v }
            } else {
                match chosen_episode(v) {
                    Some(item) => PodcastsView { active_item: Some(item), error: None, ..v },
                    None => v,
                }
            },
            _ => v,
        }
    }
}

/// The work that a key leaves to the surroundings.
///
/// While the dialog is up, only the paste key leaves work: the clipboard
/// is to be read. Else `r` starts a refresh; `.` and `,` move the player
/// where an episode is playing; the space key resumes a paused episode, or
/// pauses a playing one and asks for its position to be stored; `+`, `=` and
/// `-` change the volume. Enter on the channel list asks for the listing of
/// the selected channel; enter on the listing asks for the position of the
/// playing episode to be stored and then opens the chosen episode at the
/// position of its listening state.
pub open spec fn commands_of(v: PodcastsView, key: KeyEvent, player: PlayerStatus) -> Seq<
    CommandView,
> {
    if v.show_open_dialog {
        match key.code {
            KeyCode::Esc => Seq::empty(),
            KeyCode::Enter => Seq::empty(),
            _ => if is_paste(key.code, key.modifiers) {
                seq![CommandView::ReadClipboard]
            } else {
                Seq::empty()
            },
        }
    } else {
        match key.code {
            KeyCode::Char(c) => if c == 'r' {
                refresh_started(v)
            } else if c == '.' {
                if v.active_item is Some {
                    seq![CommandView::SeekForward]
                } else {
                    Seq::empty()
                }
            } else if c == ',' {
                if v.active_item is Some {
                    seq![CommandView::SeekBackward]
                } else {
                    Seq::empty()
                }
            } else if c == ' ' {
                if v.active_item is Some {
                    if player.paused {
                        seq![CommandView::Resume]
                    } else {
                        seq![CommandView::Pause] + listening_writes(v, player.position)
                    }
                } else {
                    Seq::empty()
                }
            } else if c == '+' || c == '=' {
                seq![CommandView::IncreaseVolume]
            } else if c == '-' {
                seq![CommandView::DecreaseVolume]
            } else {
                Seq::empty()
            },
            KeyCode::Enter => if v.active_list_state == 0 {
                match selected_channel(v) {
                    Some(c) => seq![CommandView::Send(AsyncActionView::ChannelAdded(c.id))],
                    None => Seq::empty(),
                }
            } else {
                match chosen_episode(v) {
                    Some(item) => listening_writes(v, player.position).push(
                        CommandView::Open { enclosure: item.enclosure, seek: resume_at(item) },
                    ),
                    None => listening_writes(v, player.position),
                }
            },
            _ => Seq::empty(),
        }
    }
}

/// Whether the episode that the details show is the playing one: it is
/// the selected row of the listing, and has the enclosure of the playing
/// episode.
pub open spec fn shows_playing(v: PodcastsView) -> bool {
    match (v.active_item, v.list_state_items.selected) {
        (Some(active), Some(i)) => i < v.items_collection.len() && active.enclosure
            == v.items_collection[i as int].enclosure,
        _ => false,
    }
}

/// The podcast screen at the start: no channels and no listing, the first
/// row of the channel list selected and the channel list in focus, nothing
/// playing, no error, no waiting message, the dialog closed and empty with
/// the hint of the address field, the help hidden.
pub open spec fn podcasts_at_start() -> PodcastsView {
    PodcastsView {
        help_visible: false,
        active_channel: None,
        active_item: None,
        error: None,
        items_collection: Seq::empty(),
        list_state_channels: ListState { offset: 0, selected: Some(0) },
        list_state_items: ListState { offset: 0, selected: None },
        active_list_state: 0,
        podcasts_collection: Seq::empty(),
        show_open_dialog: false,
        waiting_message: None,
        open_dialog_state: TextboxView {
            cursor_pos: 0,
            text: Seq::empty(),
            hint_text: Some("<enter address...>"@),
        },
    }
}

impl PodcastsModel {
    /// The screen at the start.
    pub fn new() -> (r: PodcastsModel)
        ensures
            r.open_dialog_state.wf(),
            r@ == podcasts_at_start(),
    {
        let mut list_state_channels = ListState::new();
        list_state_channels.select(Some(0));
        let r = PodcastsModel {
            help_visible: false,
            active_channel: None,
            active_item: None,
            error: None,
            items_collection: Vec::new(),
            list_state_channels,
            list_state_items: ListState::new(),
            active_list_state: 0,
            podcasts_collection: Vec::new(),
            show_open_dialog: false,
            waiting_message: None,
            open_dialog_state: OpenDialogState::default(),
        };
        assert(r@.items_collection == Seq::<ChannelItemView>::empty());
        assert(r@.podcasts_collection == Seq::<channel::ModelView>::empty());
        r
    }

    /// The id and the feed address of the selected channel.
    fn selected(&self) -> (r: Option<(i32, Option<String>)>)
        ensures
            match r {
                Some(c) => selected_channel(self@) is Some && c.0 == selected_channel(self@)->0.id
                    && opt_chars(c.1) == selected_channel(self@)->0.link,
                None => selected_channel(self@) is None,
            },
    {
        match self.list_state_channels.selected {
            Some(i) => if i < self.podcasts_collection.len() {
                let c = &self.podcasts_collection[i];
                Some((c.id, clone_opt(&c.link)))
            } else {
                None
            },
            None => None,
        }
    }

    /// The number of rows of the list that has the focus.
    pub fn list_state_len(&self) -> (r: usize)
        ensures
            r == (if self.active_list_state == 0 {
                self@.podcasts_collection.len()
            } else {
                self@.items_collection.len()
            }),
    {
        if self.active_list_state == 0 {
            self.podcasts_collection.len()
        } else {
            self.items_collection.len()
        }
    }

    /// Asks for the position `time` of the playing episode to be stored.
    /// The screen itself does not change.
    pub fn write_listening_state(&self, time: Position) -> (r: Vec<Command>)
        ensures
            r.deep_view() == listening_writes(self@, time),
    {
        let mut out: Vec<Command> = Vec::new();
        match &self.active_item {
            Some(active_item) => {
                let mut ci = active_item.clone();
                ci.listening_state = Some(ListeningState { time, finished: false });
                out.push(Command::Send(AsyncAction::WriteListeningState(ci)));
                match self.selected() {
                    Some(c) => {
                        out.push(Command::Send(AsyncAction::ChannelAdded(c.0)));
                    },
                    None => {},
                }
                assert(out.deep_view() == listening_writes(self@, time));
            },
            None => {},
        }
        out
    }

    /// Asks for a refresh of the selected channel.
    ///
    /// The listing is emptied at once. Where a channel with a feed address
    /// is selected, the waiting message goes up and the refresh is handed
    /// out to be started; else nothing more happens.
    pub fn request_refresh(&mut self) -> (r: Vec<Command>)
        ensures
            final(self)@ == refresh_asked(old(self)@),
            r.deep_view() == refresh_started(old(self)@),
            final(self).open_dialog_state == old(self).open_dialog_state,
    {
        self.items_collection = Vec::new();
        let mut out: Vec<Command> = Vec::new();
        match self.selected() {
            Some(c) => match c.1 {
                Some(podcast_url) => {
                    self.waiting_message = Some("Fetching podcast info...".to_owned());
                    out.push(Command::Refresh { podcast_url, channel_id: c.0 });
                    assert(out.deep_view() == refresh_started(old(self)@));
                },
                None => {},
            },
            None => {},
        }
        assert(self@.items_collection == Seq::<ChannelItemView>::empty());
        out
    }

    /// Takes the listing of channel `id` that a drained message asked
    /// for.
    pub fn channel_loaded(&mut self, id: i32, items: Vec<ChannelItem>)
        ensures
            final(self)@ == channel_shown(old(self)@, id, items.deep_view()),
            final(self).open_dialog_state == old(self).open_dialog_state,
    {
        let unrelated = match &self.active_item {
            Some(item) => item.channel_id != id,
            None => true,
        };
        if items.len() > 0 && unrelated {
            self.list_state_items.select(Some(0));
        }
        self.items_collection = items;
        self.waiting_message = None;
    }

    /// Takes the channel list that a drained message asked for.
    pub fn channels_loaded(&mut self, channels: Vec<channel::Model>)
        ensures
            final(self)@ == (PodcastsView {
                podcasts_collection: channels.deep_view(),
                ..old(self)@
            }),
            final(self).open_dialog_state == old(self).open_dialog_state,
    {
        self.podcasts_collection = channels;
    }

    /// Reacts to a key while the dialog is up.
    fn handle_open_dialog_events(&mut self, key: KeyEvent) -> (r: Vec<Command>)
        requires
            old(self).open_dialog_state.wf(),
            old(self).show_open_dialog,
        ensures
            final(self).open_dialog_state.wf(),
            final(self)@ == key_pressed(old(self)@, key),
            r.deep_view() == commands_of(
                old(self)@,
                key,
                PlayerStatus { paused: false, position: Position::start() },
            ),
    {
        let mut out: Vec<Command> = Vec::new();
        match key.code {
            KeyCode::Esc => {
                self.show_open_dialog = false;
            },
            KeyCode::Enter => {
                self.show_open_dialog = false;
            },
            _ => {
                if self.open_dialog_state.handle_events(key.code, key.modifiers) {
                    out.push(Command::ReadClipboard);
                    assert(out.deep_view() == seq![CommandView::ReadClipboard]);
                }
            },
        }
        out
    }

    /// Reacts to a key: changes the screen as `key_pressed` says and
    /// returns, in order, the work that `commands_of` names.
    ///
    /// `player` is what the player reports at the moment of the key.
    pub fn handle_events(&mut self, key: KeyEvent, player: PlayerStatus) -> (r: Vec<Command>)
        requires
            old(self).open_dialog_state.wf(),
        ensures
            final(self).open_dialog_state.wf(),
            final(self)@ == key_pressed(old(self)@, key),
            r.deep_view() == commands_of(old(self)@, key, player),
    {
        if self.show_open_dialog {
            return self.handle_open_dialog_events(key);
        }
        let mut out: Vec<Command> = Vec::new();
        match key.code {
            KeyCode::Char(c) => {
                if c == 'o' {
                    self.open_dialog_state.clear();
                    self.show_open_dialog = true;
                } else if c == 'r' {
                    out = self.request_refresh();
                } else if c == '.' {
                    if self.active_item.is_some() {
                        out.push(Command::SeekForward);
                        assert(out.deep_view() == seq![CommandView::SeekForward]);
                    }
                } else if c == ',' {
                    if self.active_item.is_some() {
                        out.push(Command::SeekBackward);
                        assert(out.deep_view() == seq![CommandView::SeekBackward]);
                    }
                } else if c == ' ' {
                    if self.active_item.is_some() {
                        if player.paused {
                            out.push(Command::Resume);
                            assert(out.deep_view() == seq![CommandView::Resume]);
                        } else {
                            out.push(Command::Pause);
                            let ghost head = out.deep_view();
                            let mut writes = self.write_listening_state(player.position);
                            let ghost tail = writes.deep_view();
                            out.append(&mut writes);
                            assert(out.deep_view() == head + tail);
                            assert(head == seq![CommandView::Pause]);
                        }
                    }
                } else if c == '+' || c == '=' {
                    out.push(Command::IncreaseVolume);
                    assert(out.deep_view() == seq![CommandView::IncreaseVolume]);
                } else if c == '-' {
                    out.push(Command::DecreaseVolume);
                    assert(out.deep_view() == seq![CommandView::DecreaseVolume]);
                } else if c == 'h' {
                    self.help_visible = !self.help_visible;
                }
            },
            KeyCode::Left | KeyCode::Right => {
                self.active_list_state = if self.active_list_state % 2 == 0 {
                    1
                } else {
                    0
                };
            },
            KeyCode::Down => {
                let len = self.list_state_len();
                if self.active_list_state == 0 {
                    self.list_state_channels.select_next(len);
                } else {
                    self.list_state_items.select_next(len);
                }
            },
            KeyCode::Up => {
                let len = self.list_state_len();
                if self.active_list_state == 0 {
                    self.list_state_channels.select_previous(len);
                } else {
                    self.list_state_items.select_previous(len);
                }
            },
            KeyCode::Enter => {
                if self.active_list_state == 0 {
                    match self.selected() {
                        Some(c) => {
                            out.push(Command::Send(AsyncAction::ChannelAdded(c.0)));
                            assert(out.deep_view() == seq![
                                CommandView::Send(AsyncActionView::ChannelAdded(c.0)),
                            ]);
                        },
                        None => {},
                    }
                    self.active_list_state = 1;
                } else {
                    out = self.write_listening_state(player.position);
                    let index = match self.list_state_items.selected {
                        Some(i) => i,
                        None => 0,
                    };
                    if index < self.items_collection.len() {
                        let item = self.items_collection[index].clone();
                        let seek = match item.listening_state {
                            Some(state) => Some(state.time),
                            None => None,
                        };
                        let ghost head = out.deep_view();
                        out.push(Command::Open { enclosure: item.enclosure.clone(), seek });
                        assert(out.deep_view() == head.push(
                            CommandView::Open { enclosure: item@.enclosure, seek: resume_at(item@) },
                        ));
                        self.active_item = Some(item);
                        self.error = None;
                    }
                }
            },
            _ => {},
        }
        out
    }

    /// The position of the playing episode is asked to be stored before
    /// the program ends.
    pub fn on_quit(&self, time: Position) -> (r: Vec<Command>)
        ensures
            r.deep_view() == listening_writes(self@, time),
    {
        self.write_listening_state(time)
    }

    /// Reads the channel list from the store.
    pub fn get_channels_from_db(db: &Store) -> (r: Vec<channel::Model>)
        ensures
            r.deep_view() == db@.channels,
    {
        let rows = db.channels();
        let mut out: Vec<channel::Model> = Vec::new();
        let mut i: usize = 0;
        while i < rows.len()
            invariant
                i <= rows.len(),
                out.deep_view() == rows.deep_view().take(i as int),
            decreases rows.len() - i,
        {
            let ghost before = out.deep_view();
            out.push(rows[i].clone());
            assert(out.deep_view() == before.push(rows.deep_view()[i as int]));
            i += 1;
        }
        assert(rows.deep_view().take(i as int) == rows.deep_view());
        out
    }

    /// Makes a channel of what the fetch of a feed address returned:
    /// `content` is the body, or `None` where the transport failed.
    ///
    /// Succeeds exactly when there is a body that is taken for a feed, as
    /// `feed_in` says, and then returns that feed. Every failure is the one
    /// `FetchError`.
    pub fn get_channel_from_url(content: Option<&str>) -> (r: Result<ParsedChannel, FetchError>)
        ensures
            match content {
                Some(text) => match r {
                    Ok(feed) => feed_in(text@) == Some(feed@),
                    Err(_) => feed_in(text@) is None,
                },
                None => r is Err,
            },
    {
        match content {
            Some(text) => parse_feed(text),
            None => Err(FetchError),
        }
    }

    /// Whether the selected episode is the playing one.
    pub fn currently_playing(&self) -> (r: bool)
        ensures
            r == shows_playing(self@),
    {
        match (&self.active_item, self.list_state_items.selected) {
            (Some(active), Some(i)) => i < self.items_collection.len() && active.enclosure
                == self.items_collection[i].enclosure,
            _ => false,
        }
    }

    /// Takes the failure of the open that the enter key asked for: the
    /// message stands as the error of the screen. Nothing else changes.
    pub fn open_failed(&mut self, message: String)
        ensures
            final(self)@ == (PodcastsView { error: Some(message@), ..old(self)@ }),
            final(self).open_dialog_state == old(self).open_dialog_state,
    {
        self.error = Some(message);
    }

    /// Takes the failure of a refresh: the waiting message goes down and
    /// the reason stands as the error of the screen. Nothing else changes.
    pub fn refresh_failed(&mut self, reason: String)
        ensures
            final(self)@ == (PodcastsView {
                waiting_message: None,
                error: Some(reason@),
                ..old(self)@
            }),
            final(self).open_dialog_state == old(self).open_dialog_state,
    {
        self.waiting_message = None;
        self.error = Some(reason);
    }
}

} // verus!
