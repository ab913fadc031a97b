//! The foreground: two screens under tabs, and the reaction to the
//! messages of background work.

use vstd::prelude::*;
use crate::command::{Command, CommandView, PlayerStatus};
use crate::coordinator::AsyncAction;
use crate::data_layer::data_provider::DataProvider;
use crate::data_layer::listening_state_data_layer::{
    ListeningStateDataLayer, position_refused, positioned,
};
use crate::data_layer::listing::{in_listing_order, listing};
use crate::event::{KeyCode, KeyEvent};
use crate::podcasts_model::{
    PodcastsModel, PodcastsView, channel_shown, commands_of, key_pressed, listening_writes,
    podcasts_at_start,
};
use crate::radio_model::{
    RadioModel, RadioView, radio_at_start, radio_commands_of, radio_key_pressed,
};
use crate::store::Store;
use crate::ui_models::ChannelItemView;

verus! {

/// The foreground: the radio screen on tab 0, the podcast screen on tab 1.
#[derive(Debug)]
pub struct App {
    pub radio_model: RadioModel,
    pub podcasts_model: PodcastsModel,
    pub active_tab: usize,
}

/// The mathematical value of the foreground.
pub struct AppView {
    pub radio_model: RadioView,
    pub podcasts_model: PodcastsView,
    pub active_tab: usize,
}

impl View for App {
    type V = AppView;

    open spec fn view(&self) -> AppView {
        AppView {
            radio_model: self.radio_model@,
            podcasts_model: self.podcasts_model@,
            active_tab: self.active_tab,
        }
    }
}

/// Whether a key ends the program: `q`, on either tab.
pub open spec fn app_quits(key: KeyEvent) -> bool {
    key.code == KeyCode::Char('q')
}

/// The foreground after a key: `1` and `2` pick a tab, the tab key goes to
/// the other one, `q` changes nothing, and every other key goes to the
/// screen of the tab that is up.
pub open spec fn app_key_pressed(v: AppView, key: KeyEvent) -> AppView {
    match key.code {
        KeyCode::Char(c) => if c == 'q' {
            v
        } else if c == '1' {
            AppView { active_tab: 0, ..v }
        } else if c == '2' {
            AppView { active_tab: 1, ..v }
        } else {
            to_screen(v, key)
        },
        KeyCode::Tab => AppView {
            active_tab: if v.active_tab % 2 == 0 {
                1
            } else {
                0
            },
            ..v
        },
        _ => to_screen(v, key),
    }
}

/// The foreground after a key went to the screen of the tab that is up.
pub open spec fn to_screen(v: AppView, key: KeyEvent) -> AppView {
    if v.active_tab == 0 {
        AppView { radio_model: radio_key_pressed(v.radio_model, key), ..v }
    } else if v.active_tab == 1 {
        AppView { podcasts_model: key_pressed(v.podcasts_model, key), ..v }
    } else {
        v
    }
}

/// The work that a key leaves to the surroundings: on `q` the request to
/// store the position of the playing episode, nothing on the keys that pick
/// a tab, and else the work of the screen that the key went to.
pub open spec fn app_commands_of(v: AppView, key: KeyEvent, player: PlayerStatus) -> Seq<
    CommandView,
> {
    match key.code {
        KeyCode::Char(c) => if c == 'q' {
            listening_writes(v.podcasts_model, player.position)
        } else if c == '1' || c == '2' {
            Seq::empty()
        } else {
            screen_commands(v, key, player)
        },
        KeyCode::Tab => Seq::empty(),
        _ => screen_commands(v, key, player),
    }
}

/// The work of the screen of the tab that is up.
pub open spec fn screen_commands(v: AppView, key: KeyEvent, player: PlayerStatus) -> Seq<
    CommandView,
> {
    if v.active_tab == 0 {
        radio_commands_of(v.radio_model, key, player)
    } else if v.active_tab == 1 {
        commands_of(v.podcasts_model, key, player)
    } else {
        Seq::empty()
    }
}

impl App {
    /// A foreground whose text fields are valid.
    pub open spec fn wf(&self) -> bool {
        self.radio_model.textbox_state.wf() && self.podcasts_model.open_dialog_state.wf()
    }

    /// The foreground at the start: both screens as they are at their
    /// start, and the radio tab up.
    pub fn new() -> (r: App)
        ensures
            r.wf(),
            r@ == (AppView {
                radio_model: radio_at_start(),
                podcasts_model: podcasts_at_start(),
                active_tab: 0,
            }),
    {
        App { radio_model: RadioModel::default(), podcasts_model: PodcastsModel::new(), active_tab: 0 }
    }

    fn screen_events(&mut self, key: KeyEvent, player: PlayerStatus) -> (r: Vec<Command>)
        requires
            old(self).wf(),
        ensures
            final(self).wf(),
            final(self)@ == to_screen(old(self)@, key),
            r.deep_view() == screen_commands(old(self)@, key, player),
    {
        if self.active_tab == 0 {
            let (_, out) = self.radio_model.handle_events(key, player);
            out
        } else if self.active_tab == 1 {
            self.podcasts_model.handle_events(key, player)
        } else {
            Vec::new()
        }
    }

    /// Reacts to a key: changes the foreground as `app_key_pressed` says,
    /// returns whether the key ends the program and, in order, the work that
    /// `app_commands_of` names.
    pub fn handle_events(&mut self, key: KeyEvent, player: PlayerStatus) -> (r: (bool, Vec<Command>))
        requires
            old(self).wf(),
        ensures
            final(self).wf(),
            final(self)@ == app_key_pressed(old(self)@, key),
            r.0 == app_quits(key),
            r.1.deep_view() == app_commands_of(old(self)@, key, player),
    {
        match key.code {
            KeyCode::Char(c) => {
                if c == 'q' {
                    (true, self.podcasts_model.on_quit(player.position))
                } else if c == '1' {
                    self.active_tab = 0;
                    (false, Vec::new())
                } else if c == '2' {
                    self.active_tab = 1;
                    (false, Vec::new())
                } else {
                    (false, self.screen_events(key, player))
                }
            },
            KeyCode::Tab => {
                self.active_tab = if self.active_tab % 2 == 0 {
                    1
                } else {
                    0
                };
                (false, Vec::new())
            },
            _ => (false, self.screen_events(key, player)),
        }
    }

    /// Reacts to one drained message.
    ///
    /// `ChannelAdded` lists the channel anew from the store, in listing
    /// order, and shows the listing. `RefreshChannelsList` reads the channel
    /// list from the store. `WriteListeningState` records the position that
    /// the episode carries, if it carries one; where the store refuses, the
    /// message is dropped.
    pub fn drain(&mut self, action: AsyncAction, db: &mut Store)
        requires
            old(self).wf(),
            old(db).wf(),
        ensures
            final(self).wf(),
            final(db).wf(),
            final(self)@.radio_model == old(self)@.radio_model,
            final(self)@.active_tab == old(self)@.active_tab,
            match action {
                AsyncAction::ChannelAdded(id) => final(db)@ == old(db)@ && exists|
                    items: Seq<ChannelItemView>,
                |
                    #![trigger channel_shown(old(self)@.podcasts_model, id, items)]
                    items.to_multiset() == listing(old(db)@, id).to_multiset() && in_listing_order(
                        items,
                    ) && final(self)@.podcasts_model == channel_shown(
                        old(self)@.podcasts_model,
                        id,
                        items,
                    ),
                AsyncAction::RefreshChannelsList => {
                    &&& final(db)@ == old(db)@
                    &&& final(self)@.podcasts_model == (PodcastsView {
                        podcasts_collection: old(db)@.channels,
                        ..old(self)@.podcasts_model
                    })
                },
                AsyncAction::WriteListeningState(item) => final(self)@ == old(self)@ && final(db)@
                    == (match item@.listening_state {
                    Some(state) => if position_refused(old(db)@, item@.enclosure, item@.channel_id) {
                        old(db)@
                    } else {
                        positioned(old(db)@, item@.enclosure, item@.channel_id, state.time)
                    },
                    None => old(db)@,
                }),
            },
    {
        match action {
            AsyncAction::ChannelAdded(id) => {
                let items = DataProvider::get_items_from_db(id, db);
                let ghost shown = items.deep_view();
                self.podcasts_model.channel_loaded(id, items);
                assert(self@.podcasts_model == channel_shown(old(self)@.podcasts_model, id, shown));
            },
            AsyncAction::RefreshChannelsList => {
                let channels = PodcastsModel::get_channels_from_db(db);
                self.podcasts_model.channels_loaded(channels);
            },
            AsyncAction::WriteListeningState(item) => {
                match item.listening_state {
                    Some(state) => {
                        let _ = ListeningStateDataLayer::update_current_time_for_item(
                            db,
                            item.enclosure,
                            item.channel_id,
                            state.time,
                        );
                    },
                    None => {},
                }
            },
        }
    }
}

} // verus!
