use librecast::command::{Command, PlayerStatus};
use librecast::coordinator::AsyncAction;
use librecast::data_layer::data_provider::DataProvider;
use librecast::data_layer::listening_state_data_layer::ListeningStateDataLayer;
use librecast::entity::channel;
use librecast::entity::listening_state::Position;
use librecast::event::{KeyCode, KeyEvent, KeyModifiers};
use librecast::feed::{ParsedChannel, ParsedItem};
use librecast::foreground::App;
use librecast::list_state::ListState;
use librecast::podcasts_model::PodcastsModel;
use librecast::radio_model::RadioModel;
use librecast::store::Store;
use librecast::ui_models::{ChannelItem, ListeningState};

fn key(code: KeyCode) -> KeyEvent {
    KeyEvent { code, modifiers: KeyModifiers::none() }
}

fn playing_at(bits: u32) -> PlayerStatus {
    PlayerStatus { paused: false, position: Position::from_bits(bits) }
}

fn paused() -> PlayerStatus {
    PlayerStatus { paused: true, position: Position::zero() }
}

fn channel(id: i32, link: Option<&str>) -> channel::Model {
    channel::Model { id, title: Some(format!("c{}", id)), link: link.map(|l| l.to_string()), description: None }
}

fn episode(channel_id: i32, enclosure: &str, state: Option<ListeningState>) -> ChannelItem {
    ChannelItem {
        ordering: 1,
        channel_id,
        title: Some(enclosure.to_string()),
        link: None,
        source: None,
        enclosure: enclosure.to_string(),
        description: None,
        guid: None,
        pub_date: None,
        listening_state: state,
    }
}

#[test]
fn refresh_empties_the_listing_and_waits() {
    let mut m = PodcastsModel::new();
    m.podcasts_collection = vec![channel(1, Some("https://feed.example/1")), channel(2, None)];
    m.items_collection = vec![episode(1, "a", None)];
    let out = m.handle_events(key(KeyCode::Char('r')), paused());
    assert!(m.items_collection.is_empty());
    assert_eq!(m.waiting_message.as_deref(), Some("Fetching podcast info..."));
    assert_eq!(out.len(), 1);
    match &out[0] {
        Command::Refresh { podcast_url, channel_id } => {
            assert_eq!(podcast_url, "https://feed.example/1");
            assert_eq!(*channel_id, 1);
        }
        other => panic!("unexpected {:?}", other),
    }
}

#[test]
fn refresh_of_a_channel_without_address_starts_nothing() {
    let mut m = PodcastsModel::new();
    m.podcasts_collection = vec![channel(1, Some("https://feed.example/1")), channel(2, None)];
    m.list_state_channels.select(Some(1));
    m.items_collection = vec![episode(2, "a", None)];
    assert!(m.handle_events(key(KeyCode::Char('r')), paused()).is_empty());
    assert!(m.items_collection.is_empty());
    assert_eq!(m.waiting_message, None);
    m.list_state_channels.select(Some(5));
    assert!(m.handle_events(key(KeyCode::Char('r')), paused()).is_empty());
    assert_eq!(m.waiting_message, None);
}

#[test]
fn loaded_listing_selects_its_first_row_unless_the_playing_episode_is_related() {
    let mut m = PodcastsModel::new();
    m.waiting_message = Some("wait".into());
    m.channel_loaded(1, vec![episode(1, "a", None), episode(1, "b", None)]);
    assert_eq!(m.items_collection.len(), 2);
    assert_eq!(m.list_state_items.selected(), Some(0));
    assert_eq!(m.waiting_message, None);

    m.active_item = Some(episode(1, "b", None));
    m.list_state_items.select(Some(1));
    m.channel_loaded(1, vec![episode(1, "a", None), episode(1, "b", None)]);
    assert_eq!(m.list_state_items.selected(), Some(1));
    m.channel_loaded(2, vec![episode(2, "z", None)]);
    assert_eq!(m.list_state_items.selected(), Some(0));
    m.list_state_items.select(Some(3));
    m.channel_loaded(2, vec![]);
    assert_eq!(m.list_state_items.selected(), Some(3));
    assert!(m.items_collection.is_empty());
}

#[test]
fn pause_asks_for_the_position_to_be_stored() {
    let mut m = PodcastsModel::new();
    m.podcasts_collection = vec![channel(7, None)];
    m.active_item = Some(episode(7, "a", None));
    let out = m.handle_events(key(KeyCode::Char(' ')), playing_at(99));
    assert_eq!(out.len(), 3);
    assert!(matches!(out[0], Command::Pause));
    match &out[1] {
        Command::Send(AsyncAction::WriteListeningState(item)) => {
            assert_eq!(item.enclosure, "a");
            assert_eq!(item.listening_state, Some(ListeningState { time: Position::from_bits(99), finished: false }));
        }
        other => panic!("unexpected {:?}", other),
    }
    assert!(matches!(out[2], Command::Send(AsyncAction::ChannelAdded(7))));
    let out = m.handle_events(key(KeyCode::Char(' ')), paused());
    assert_eq!(out.len(), 1);
    assert!(matches!(out[0], Command::Resume));
    m.active_item = None;
    assert!(m.handle_events(key(KeyCode::Char(' ')), paused()).is_empty());
}

#[test]
fn seek_keys_need_a_playing_episode() {
    let mut m = PodcastsModel::new();
    assert!(m.handle_events(key(KeyCode::Char('.')), paused()).is_empty());
    assert!(m.handle_events(key(KeyCode::Char(',')), paused()).is_empty());
    m.active_item = Some(episode(1, "a", None));
    assert!(matches!(m.handle_events(key(KeyCode::Char('.')), paused())[0], Command::SeekForward));
    assert!(matches!(m.handle_events(key(KeyCode::Char(',')), paused())[0], Command::SeekBackward));
    assert!(matches!(m.handle_events(key(KeyCode::Char('+')), paused())[0], Command::IncreaseVolume));
    assert!(matches!(m.handle_events(key(KeyCode::Char('=')), paused())[0], Command::IncreaseVolume));
    assert!(matches!(m.handle_events(key(KeyCode::Char('-')), paused())[0], Command::DecreaseVolume));
}

#[test]
fn enter_on_channels_asks_for_the_listing_and_moves_the_focus() {
    let mut m = PodcastsModel::new();
    m.podcasts_collection = vec![channel(4, None)];
    let out = m.handle_events(key(KeyCode::Enter), paused());
    assert!(matches!(out[0], Command::Send(AsyncAction::ChannelAdded(4))));
    assert_eq!(out.len(), 1);
    assert_eq!(m.active_list_state, 1);
}

#[test]
fn enter_on_an_episode_opens_it_where_it_was_left() {
    let mut m = PodcastsModel::new();
    m.active_list_state = 1;
    let left = ListeningState { time: Position::from_bits(12.0f32.to_bits()), finished: false };
    m.items_collection = vec![episode(1, "a", None), episode(1, "b", Some(left))];
    m.list_state_items.select(Some(1));
    m.error = Some("old".into());
    let out = m.handle_events(key(KeyCode::Enter), playing_at(3));
    assert_eq!(out.len(), 1);
    match &out[0] {
        Command::Open { enclosure, seek } => {
            assert_eq!(enclosure, "b");
            assert_eq!(*seek, Some(left.time));
        }
        other => panic!("unexpected {:?}", other),
    }
    assert_eq!(m.active_item.as_ref().unwrap().enclosure, "b");
    assert_eq!(m.error, None);
    m.list_state_items.select(Some(0));
    let out = m.handle_events(key(KeyCode::Enter), playing_at(3));
    assert_eq!(out.len(), 2);
    assert!(matches!(&out[0], Command::Send(AsyncAction::WriteListeningState(i)) if i.enclosure == "b"));
    assert!(matches!(&out[1], Command::Open { enclosure, seek: None } if enclosure == "a"));
    m.items_collection.clear();
    let out = m.handle_events(key(KeyCode::Enter), playing_at(3));
    assert_eq!(out.len(), 1);
    assert_eq!(m.active_item.as_ref().unwrap().enclosure, "a");
}

#[test]
fn arrows_wrap_and_focus_toggles() {
    let mut m = PodcastsModel::new();
    m.podcasts_collection = vec![channel(1, None), channel(2, None), channel(3, None)];
    m.handle_events(key(KeyCode::Up), paused());
    assert_eq!(m.list_state_channels.selected(), Some(2));
    m.handle_events(key(KeyCode::Down), paused());
    assert_eq!(m.list_state_channels.selected(), Some(0));
    m.handle_events(key(KeyCode::Down), paused());
    assert_eq!(m.list_state_channels.selected(), Some(1));
    m.handle_events(key(KeyCode::Right), paused());
    assert_eq!(m.active_list_state, 1);
    m.handle_events(key(KeyCode::Down), paused());
    assert_eq!(m.list_state_items.selected(), None);
    assert_eq!(m.list_state_channels.selected(), Some(1));
    m.items_collection = vec![episode(1, "a", None), episode(1, "b", None)];
    m.handle_events(key(KeyCode::Down), paused());
    assert_eq!(m.list_state_items.selected(), Some(1));
    m.handle_events(key(KeyCode::Left), paused());
    assert_eq!(m.active_list_state, 0);
}

#[test]
fn dialog_takes_the_keys_while_it_is_up() {
    let mut m = PodcastsModel::new();
    m.handle_events(key(KeyCode::Char('o')), paused());
    assert!(m.show_open_dialog);
    assert!(m.handle_events(key(KeyCode::Char('r')), paused()).is_empty());
    assert_eq!(m.open_dialog_state.text(), "r");
    assert_eq!(m.waiting_message, None);
    let ctrl_v = KeyEvent { code: KeyCode::Char('v'), modifiers: KeyModifiers { shift: false, control: true, alt: false } };
    assert!(matches!(m.handle_events(ctrl_v, paused())[0], Command::ReadClipboard));
    m.handle_events(key(KeyCode::Esc), paused());
    assert!(!m.show_open_dialog);
    m.handle_events(key(KeyCode::Char('o')), paused());
    assert_eq!(m.open_dialog_state.text(), "");
    m.handle_events(key(KeyCode::Enter), paused());
    assert!(!m.show_open_dialog);
    assert!(!m.help_visible);
    m.handle_events(key(KeyCode::Char('h')), paused());
    assert!(m.help_visible);
}

#[test]
fn radio_adds_plays_and_removes_streams() {
    let mut r = RadioModel::default();
    r.handle_events(key(KeyCode::Char('o')), paused());
    for c in "s1".chars() {
        r.handle_events(key(KeyCode::Char(c)), paused());
    }
    let (quit, out) = r.handle_events(key(KeyCode::Enter), paused());
    assert!(!quit);
    assert!(matches!(&out[0], Command::SaveStreams(l) if l == &vec!["s1".to_string()]));
    assert!(!r.show_open_dialog);
    r.streams_collection.push("s2".into());
    assert!(r.handle_events(key(KeyCode::Enter), paused()).1.is_empty());
    r.handle_events(key(KeyCode::Down), paused());
    assert_eq!(r.list_streams_state.selected(), Some(1));
    let (_, out) = r.handle_events(key(KeyCode::Enter), paused());
    assert!(matches!(&out[0], Command::Open { enclosure, seek: None } if enclosure == "s2"));
    assert_eq!(r.active_stream.as_deref(), Some("s2"));
    assert!(matches!(r.handle_events(key(KeyCode::Char(' ')), playing_at(0)).1[0], Command::Pause));
    assert!(matches!(r.handle_events(key(KeyCode::Char(' ')), paused()).1[0], Command::Resume));
    let (_, out) = r.handle_events(key(KeyCode::Enter), paused());
    assert!(matches!(out[0], Command::ResetPlayer));
    assert_eq!(r.active_stream, None);
    let (_, out) = r.handle_events(key(KeyCode::Delete), paused());
    assert!(matches!(&out[0], Command::SaveStreams(l) if l == &vec!["s1".to_string()]));
    assert_eq!(r.list_streams_state.selected(), Some(0));
    let (_, out) = r.handle_events(key(KeyCode::Char('d')), paused());
    assert!(matches!(&out[0], Command::SaveStreams(l) if l.is_empty()));
    assert_eq!(r.list_streams_state.selected(), Some(0));
    let (_, out) = r.handle_events(key(KeyCode::Char('d')), paused());
    assert!(matches!(&out[0], Command::SaveStreams(l) if l.is_empty()));
    let (quit, out) = r.handle_events(key(KeyCode::Char('q')), paused());
    assert!(quit);
    assert!(out.is_empty());
}

#[test]
fn tabs_switch_and_quit_stores_the_position() {
    let mut app = App::new();
    assert_eq!(app.active_tab, 0);
    app.handle_events(key(KeyCode::Char('2')), paused());
    assert_eq!(app.active_tab, 1);
    app.handle_events(key(KeyCode::Tab), paused());
    assert_eq!(app.active_tab, 0);
    app.handle_events(key(KeyCode::Tab), paused());
    assert_eq!(app.active_tab, 1);
    app.handle_events(key(KeyCode::Char('h')), paused());
    assert!(app.podcasts_model.help_visible);
    assert!(!app.radio_model.help_visible);
    app.handle_events(key(KeyCode::Char('1')), paused());
    app.handle_events(key(KeyCode::Char('h')), paused());
    assert!(app.radio_model.help_visible);
    app.podcasts_model.active_item = Some(episode(1, "a", None));
    let (quit, out) = app.handle_events(key(KeyCode::Char('q')), playing_at(8));
    assert!(quit);
    assert_eq!(out.len(), 1);
    assert!(matches!(&out[0], Command::Send(AsyncAction::WriteListeningState(i)) if i.listening_state.unwrap().time.to_bits() == 8));
}

#[test]
fn drained_messages_reach_the_store_and_the_screen() {
    let mut db = Store::new();
    let item = |e: &str| ParsedItem {
        title: None,
        link: None,
        source: None,
        enclosure: Some(e.to_string()),
        description: None,
        guid: None,
        pub_date: None,
    };
    let feed = ParsedChannel { title: "T".into(), link: "l".into(), description: "d".into(), items: vec![item("a"), item("b")] };
    DataProvider::reconcile("u", 1, &feed, &mut db).unwrap();
    let mut app = App::new();
    app.podcasts_model.waiting_message = Some("wait".into());
    app.drain(AsyncAction::RefreshChannelsList, &mut db);
    assert_eq!(app.podcasts_model.podcasts_collection.len(), 1);
    assert_eq!(app.podcasts_model.podcasts_collection[0].title.as_deref(), Some("T"));
    assert_eq!(app.podcasts_model.waiting_message.as_deref(), Some("wait"));
    app.drain(AsyncAction::ChannelAdded(1), &mut db);
    assert_eq!(app.podcasts_model.items_collection.len(), 2);
    assert_eq!(app.podcasts_model.waiting_message, None);
    assert_eq!(app.podcasts_model.list_state_items, ListState { offset: 0, selected: Some(0) });
    let heard = ListeningState { time: Position::from_bits(5), finished: false };
    app.drain(AsyncAction::WriteListeningState(episode(1, "b", Some(heard))), &mut db);
    app.drain(AsyncAction::WriteListeningState(episode(1, "a", None)), &mut db);
    assert_eq!(ListeningStateDataLayer::get(&db, "b", 1), Some(heard));
    assert_eq!(ListeningStateDataLayer::get(&db, "a", 1), None);
    app.drain(AsyncAction::ChannelAdded(1), &mut db);
    assert_eq!(app.podcasts_model.items_collection[1].listening_state, Some(heard));
}

#[test]
fn details_follow_the_selected_row() {
    let mut m = PodcastsModel::new();
    assert!(!m.currently_playing());
    m.items_collection = vec![episode(1, "a", None), episode(1, "b", None)];
    m.active_item = Some(episode(1, "b", None));
    assert!(!m.currently_playing());
    m.list_state_items.select(Some(0));
    assert!(!m.currently_playing());
    m.list_state_items.select(Some(1));
    assert!(m.currently_playing());
    m.list_state_items.select(Some(2));
    assert!(!m.currently_playing());
}

#[test]
fn a_failed_open_shows_its_words() {
    let mut r = RadioModel::default();
    r.streams_collection = vec!["s1".into()];
    r.list_streams_state.select(Some(0));
    let (_, out) = r.handle_events(key(KeyCode::Enter), paused());
    assert!(matches!(&out[0], Command::Open { enclosure, seek: None } if enclosure == "s1"));
    assert_eq!(r.error, None);
    r.open_failed("no such host".to_string());
    assert_eq!(r.error.as_deref(), Some("no such host"));
    assert_eq!(r.active_stream.as_deref(), Some("s1"));
    assert_eq!(r.streams_collection, vec!["s1".to_string()]);

    let mut m = PodcastsModel::new();
    m.waiting_message = Some("wait".into());
    m.open_failed("bad file".to_string());
    assert_eq!(m.error.as_deref(), Some("bad file"));
    assert_eq!(m.waiting_message.as_deref(), Some("wait"));
}

#[test]
fn a_failed_refresh_ends_the_waiting_and_shows_its_reason() {
    let mut m = PodcastsModel::new();
    m.podcasts_collection = vec![channel(1, Some("https://feed.example/1"))];
    m.handle_events(key(KeyCode::Char('r')), paused());
    assert!(m.waiting_message.is_some());
    m.refresh_failed("the feed could not be had".to_string());
    assert_eq!(m.waiting_message, None);
    assert_eq!(m.error.as_deref(), Some("the feed could not be had"));
    assert_eq!(m.podcasts_collection.len(), 1);
}
