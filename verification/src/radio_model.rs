//! The radio screen: a list of stream addresses, one of which may be
//! playing.

use vstd::prelude::*;
use crate::command::{Command, CommandView, PlayerStatus};
use crate::event::{KeyCode, KeyEvent};
use crate::list_state::{ListState, moved, selected_or_first};
use crate::text::{clone_strings, opt_chars};
use crate::textbox::{TextboxState, TextboxView, is_paste, typed};

verus! {

/// The radio screen.
#[derive(Debug)]
pub struct RadioModel {
    pub list_streams_state: ListState,
    pub streams_collection: Vec<String>,
    pub active_stream: Option<String>,
    pub error: Option<String>,
    pub show_open_dialog: bool,
    pub textbox_state: TextboxState,
    pub help_visible: bool,
}

/// The mathematical value of the radio screen.
pub struct RadioView {
    pub list_streams_state: ListState,
    pub streams_collection: Seq<Seq<char>>,
    pub active_stream: Option<Seq<char>>,
    pub error: Option<Seq<char>>,
    pub show_open_dialog: bool,
    pub textbox_state: TextboxView,
    pub help_visible: bool,
}

impl View for RadioModel {
    type V = RadioView;

    open spec fn view(&self) -> RadioView {
        RadioView {
            list_streams_state: self.list_streams_state,
            streams_collection: self.streams_collection.deep_view(),
            active_stream: opt_chars(self.active_stream),
            error: opt_chars(self.error),
            show_open_dialog: self.show_open_dialog,
            textbox_state: self.textbox_state@,
            help_visible: self.help_visible,
        }
    }
}

/// The stream that is selected, if the selection names a row of the list.
pub open spec fn selected_stream(v: RadioView) -> Option<Seq<char>> {
    match v.list_streams_state.selected {
        Some(i) => if i < v.streams_collection.len() {
            Some(v.streams_collection[i as int])
        } else {
            None
        },
        None => None,
    }
}

/// The screen after the selected stream, or the first one where none is
/// selected, was removed from the list. Where the selection then stands
/// behind the list and is not the first row, it steps back by one row.
pub open spec fn stream_removed(v: RadioView) -> RadioView {
    let at = selected_or_first(v.list_streams_state);
    if at < v.streams_collection.len() {
        let rest = v.streams_collection.remove(at);
        RadioView {
            streams_collection: rest,
            list_streams_state: if at >= rest.len() && at > 0 {
                ListState { selected: Some((at - 1) as usize), ..v.list_streams_state }
            } else {
                v.list_streams_state
            },
            ..v
        }
    } else {
        v
    }
}

/// The screen after a key.
///
/// While the dialog is up, escape closes it, enter adds the text of its
/// field to the streams and closes it, and every other key goes to the
/// field. Else `o` opens the dialog, `h` shows or hides the help, up and down
/// move the selection, `d` and delete remove the selected stream. Enter stops
/// the playing stream where there is one, and else makes the selected stream
/// the playing one and clears the error. Every other key leaves the screen as
/// it is.
pub open spec fn radio_key_pressed(v: RadioView, key: KeyEvent) -> RadioView {
    if v.show_open_dialog {
        match key.code {
            KeyCode::Esc => RadioView { show_open_dialog: false, ..v },
            KeyCode::Enter => RadioView {
                streams_collection: v.streams_collection.push(v.textbox_state.text),
                show_open_dialog: false,
                ..v
            },
            _ => RadioView { textbox_state: typed(v.textbox_state, key.code, key.modifiers), ..v },
        }
    } else {
        match key.code {
            KeyCode::Char(c) => if c == 'o' {
                RadioView { show_open_dialog: true, ..v }
            } else if c == 'h' {
                RadioView { help_visible: !v.help_visible, ..v }
            } else if c == 'd' {
                stream_removed(v)
            } else {
                v
            },
            KeyCode::Delete => stream_removed(v),
            KeyCode::Down => RadioView {
                list_streams_state: moved(
                    v.list_streams_state,
                    v.streams_collection.len() as int,
                    true,
                ),
                ..v
            },
            KeyCode::Up => RadioView {
                list_streams_state: moved(
                    v.list_streams_state,
                    v.streams_collection.len() as int,
                    false,
                ),
                ..v
            },
            KeyCode::Enter => match v.active_stream {
                Some(_) => RadioView { active_stream: None, ..v },
                None => match selected_stream(v) {
                    Some(stream) => RadioView { active_stream: Some(stream), error: None, ..v },
                    None => v,
                },
            },
            _ => v,
        }
    }
}

/// The work that a key leaves to the surroundings.
///
/// While the dialog is up, enter saves the streams with the new one, and
/// the paste key asks for the clipboard. Else enter resets the player where
/// a stream is playing and opens the selected stream where none is; the
/// space key resumes or pauses the playing stream; `+`, `=` and `-` change
/// the volume; `d` and delete save the streams that are left.
pub open spec fn radio_commands_of(v: RadioView, key: KeyEvent, player: PlayerStatus) -> Seq<
    CommandView,
> {
    if v.show_open_dialog {
        match key.code {
            KeyCode::Esc => Seq::empty(),
            KeyCode::Enter => seq![
                CommandView::SaveStreams(v.streams_collection.push(v.textbox_state.text)),
            ],
            _ => if is_paste(key.code, key.modifiers) {
                seq![CommandView::ReadClipboard]
            } else {
                Seq::empty()
            },
        }
    } else {
        match key.code {
            KeyCode::Char(c) => if c == ' ' {
                if v.active_stream is Some {
                    if player.paused {
                        seq![CommandView::Resume]
                    } else {
                        seq![CommandView::Pause]
                    }
                } else {
                    Seq::empty()
                }
            } else if c == '+' || c == '=' {
                seq![CommandView::IncreaseVolume]
            } else if c == '-' {
                seq![CommandView::DecreaseVolume]
            } else if c == 'd' {
                seq![CommandView::SaveStreams(stream_removed(v).streams_collection)]
            } else {
                Seq::empty()
            },
            KeyCode::Delete => seq![CommandView::SaveStreams(stream_removed(v).streams_collection)],
            KeyCode::Enter => match v.active_stream {
                Some(_) => seq![CommandView::ResetPlayer],
                None => match selected_stream(v) {
                    Some(stream) => seq![CommandView::Open { enclosure: stream, seek: None }],
                    None => Seq::empty(),
                },
            },
            _ => Seq::empty(),
        }
    }
}

/// Whether a key ends the program: `q`, while the dialog is not up.
pub open spec fn radio_quits(v: RadioView, key: KeyEvent) -> bool {
    !v.show_open_dialog && key.code == KeyCode::Char('q')
}

/// The radio screen at the start: no streams, nothing selected, nothing
/// playing, no error, the dialog closed and empty with the hint of the
/// stream field, the help hidden.
pub open spec fn radio_at_start() -> RadioView {
    RadioView {
        list_streams_state: ListState { offset: 0, selected: None },
        streams_collection: Seq::empty(),
        active_stream: None,
        error: None,
        show_open_dialog: false,
        textbox_state: TextboxView {
            cursor_pos: 0,
            text: Seq::empty(),
            hint_text: Some("<enter stream address>"@),
        },
        help_visible: false,
    }
}

impl RadioModel {
    /// Removes the selected stream and hands out the list to be saved.
    fn remove_selected(&mut self) -> (r: Vec<Command>)
        ensures
            final(self)@ == stream_removed(old(self)@),
            final(self).textbox_state == old(self).textbox_state,
            r.deep_view() == seq![CommandView::SaveStreams(stream_removed(old(self)@).streams_collection)],
    {
        let at = match self.list_streams_state.selected {
            Some(i) => i,
            None => 0,
        };
        if at < self.streams_collection.len() {
            let ghost before = self.streams_collection.deep_view();
            self.streams_collection.remove(at);
            assert(self.streams_collection.deep_view() == before.remove(at as int));
            if at >= self.streams_collection.len() && at > 0 {
                self.list_streams_state.select(Some(at - 1));
            }
        }
        let mut out: Vec<Command> = Vec::new();
        out.push(Command::SaveStreams(clone_strings(&self.streams_collection)));
        assert(out.deep_view() == seq![CommandView::SaveStreams(self@.streams_collection)]);
        out
    }

    fn handle_open_dialog_events(&mut self, key: KeyEvent) -> (r: Vec<Command>)
        requires
            old(self).textbox_state.wf(),
            old(self).show_open_dialog,
        ensures
            final(self).textbox_state.wf(),
            final(self)@ == radio_key_pressed(old(self)@, key),
            r.deep_view() == radio_commands_of(
                old(self)@,
                key,
                PlayerStatus { paused: false, position: crate::entity::listening_state::Position::start() },
            ),
    {
        let mut out: Vec<Command> = Vec::new();
        match key.code {
            KeyCode::Esc => {
                self.show_open_dialog = false;
            },
            KeyCode::Enter => {
                let ghost before = self.streams_collection.deep_view();
                self.streams_collection.push(self.textbox_state.text.clone());
                assert(self.streams_collection.deep_view() == before.push(self@.textbox_state.text));
                out.push(Command::SaveStreams(clone_strings(&self.streams_collection)));
                assert(out.deep_view() == seq![CommandView::SaveStreams(self@.streams_collection)]);
                self.show_open_dialog = false;
            },
            _ => {
                if self.textbox_state.handle_events(key.code, key.modifiers) {
                    out.push(Command::ReadClipboard);
                    assert(out.deep_view() == seq![CommandView::ReadClipboard]);
                }
            },
        }
        out
    }

    /// Reacts to a key: changes the screen as `radio_key_pressed` says,
    /// returns whether the key ends the program and, in order, the work that
    /// `radio_commands_of` names.
    pub fn handle_events(&mut self, key: KeyEvent, player: PlayerStatus) -> (r: (bool, Vec<Command>))
        requires
            old(self).textbox_state.wf(),
        ensures
            final(self).textbox_state.wf(),
            final(self)@ == radio_key_pressed(old(self)@, key),
            r.0 == radio_quits(old(self)@, key),
            r.1.deep_view() == radio_commands_of(old(self)@, key, player),
    {
        if self.show_open_dialog {
            return (false, self.handle_open_dialog_events(key));
        }
        let mut out: Vec<Command> = Vec::new();
        match key.code {
            KeyCode::Char(c) => {
                if c == 'o' {
                    self.show_open_dialog = true;
                } else if c == 'q' {
                    return (true, out);
                } else if c == ' ' {
                    if self.active_stream.is_some() {
                        if player.paused {
                            out.push(Command::Resume);
                            assert(out.deep_view() == seq![CommandView::Resume]);
                        } else {
                            out.push(Command::Pause);
                            assert(out.deep_view() == seq![CommandView::Pause]);
                        }
                    }
                } else if c == '+' || c == '=' {
                    out.push(Command::IncreaseVolume);
                    assert(out.deep_view() == seq![CommandView::IncreaseVolume]);
                } else if c == '-' {
                    out.push(Command::DecreaseVolume);
                    assert(out.deep_view() == seq![CommandView::DecreaseVolume]);
                } else if c == 'd' {
                    out = self.remove_selected();
                } else if c == 'h' {
                    self.help_visible = !self.help_visible;
                }
            },
            KeyCode::Delete => {
                out = self.remove_selected();
            },
            KeyCode::Down => {
                let len = self.streams_collection.len();
                self.list_streams_state.select_next(len);
            },
            KeyCode::Up => {
                let len = self.streams_collection.len();
                self.list_streams_state.select_previous(len);
            },
            KeyCode::Enter => {
                if self.active_stream.is_some() {
                    out.push(Command::ResetPlayer);
                    assert(out.deep_view() == seq![CommandView::ResetPlayer]);
                    self.active_stream = None;
                } else {
                    match self.list_streams_state.selected {
                        Some(index) => {
                            if index < self.streams_collection.len() {
                                let stream = self.streams_collection[index].clone();
                                out.push(Command::Open { enclosure: stream.clone(), seek: None });
                                assert(out.deep_view() == seq![
                                    CommandView::Open { enclosure: stream@, seek: None },
                                ]);
                                self.active_stream = Some(stream);
                                self.error = None;
                            }
                        },
                        None => {},
                    }
                }
            },
            _ => {},
        }
        (false, out)
    }

    /// Takes the failure of the open that the enter key asked for: the
    /// message stands as the error of the screen, next to the status.
    /// Nothing else changes; the stream stays the playing one.
    pub fn open_failed(&mut self, message: String)
        ensures
            final(self)@ == (RadioView { error: Some(message@), ..old(self)@ }),
            final(self).textbox_state == old(self).textbox_state,
    {
        self.error = Some(message);
    }
}

impl Default for RadioModel {
    /// The screen at the start.
    fn default() -> (r: Self)
        ensures
            r.textbox_state.wf(),
            r@ == radio_at_start(),
    {
        let r = RadioModel {
            list_streams_state: ListState::new(),
            streams_collection: Vec::new(),
            active_stream: None,
            error: None,
            show_open_dialog: false,
            textbox_state: TextboxState::default(),
            help_visible: false,
        };
        assert(r@.streams_collection == Seq::<Seq<char>>::empty());
        r
    }
}

} // verus!
