use librecast::config::{load, save};
use librecast::entity::listening_state::Position;
use librecast::list_state::ListState;
use librecast::player_engine::{PlayerEngine, SEEK_BACKWARD_SECONDS, SEEK_FORWARD_SECONDS};
use librecast::ui_models::{ChannelItem, ListeningState};
use librecast::widgets::item_details::{ItemDetails, Marker};
use librecast::widgets::open_dialog::OpenDialog;
use librecast::widgets::rect::Rect;
use librecast::widgets::simple_list::{ItemState, SimpleList};
use librecast::widgets::waiting_message_dialog::WaitingMessageDialog;

fn episode(channel_id: i32, enclosure: &str, state: Option<ListeningState>) -> ChannelItem {
    ChannelItem {
        ordering: 1,
        channel_id,
        title: None,
        link: None,
        source: None,
        enclosure: enclosure.to_string(),
        description: None,
        guid: None,
        pub_date: None,
        listening_state: state,
    }
}

#[test]
fn streams_are_read_from_a_json_array() {
    assert_eq!(load(Some(r#"["http://a", "http://b"]"#)), Ok(vec!["http://a".to_string(), "http://b".to_string()]));
    assert_eq!(load(None), Ok(vec![]));
    assert!(load(Some("{}")).is_err());
    assert!(load(Some("[1]")).is_err());
}

#[test]
fn streams_are_written_as_a_json_array() {
    assert_eq!(save(&vec!["http://a".to_string(), "q\"q".to_string()]).unwrap(), r#"["http://a","q\"q"]"#);
    assert_eq!(save(&vec![]).unwrap(), "[]");
    let list = vec!["x".to_string(), "y".to_string()];
    assert_eq!(load(Some(&save(&list).unwrap())), Ok(list));
}

#[test]
fn player_remembers_address_and_playing() {
    let mut p = PlayerEngine::new();
    assert!(p.is_paused());
    assert_eq!(p.stream_addr(), None);
    assert!(!p.play());
    assert!(p.is_paused());
    p.open("http://a");
    assert!(!p.is_paused());
    assert_eq!(p.stream_addr().as_deref(), Some("http://a"));
    p.pause();
    assert!(p.is_paused());
    p.resume();
    assert!(!p.is_paused());
    p.pause();
    assert!(p.play());
    assert!(!p.is_paused());
    assert!(PlayerEngine::default().is_paused());
    assert_eq!(SEEK_FORWARD_SECONDS, 30);
    assert_eq!(SEEK_BACKWARD_SECONDS, 10);
}

#[test]
fn list_selection_wraps_and_empty_lists_keep_theirs() {
    let mut s = ListState::new();
    s.select_next(0);
    assert_eq!(s.selected(), None);
    s.select_previous(0);
    assert_eq!(s.selected(), None);
    s.select_next(3);
    assert_eq!(s.selected(), Some(1));
    s.select_next(3);
    s.select_next(3);
    assert_eq!(s.selected(), Some(0));
    s.select_previous(3);
    assert_eq!(s.selected(), Some(2));
    s.select(Some(9));
    s.select_next(3);
    assert_eq!(s.selected(), Some(0));
    let mut t = ListState { offset: 4, selected: Some(2) };
    t.select(Some(1));
    assert_eq!(t.offset(), 4);
    t.select(None);
    assert_eq!(t, ListState { offset: 0, selected: None });
}

#[test]
fn list_window_follows_the_selection() {
    let mut s = ListState { offset: 5, selected: Some(2) };
    assert_eq!(SimpleList::window(&mut s, 20, 6), (2, 6));
    assert_eq!(s.offset(), 2);
    let mut s = ListState { offset: 0, selected: Some(10) };
    assert_eq!(SimpleList::window(&mut s, 20, 6), (7, 11));
    let mut s = ListState { offset: 3, selected: Some(4) };
    assert_eq!(SimpleList::window(&mut s, 20, 6), (3, 7));
    let mut s = ListState { offset: 0, selected: None };
    assert_eq!(SimpleList::window(&mut s, 3, 10), (0, 2));
    let mut s = ListState { offset: 0, selected: Some(0) };
    assert_eq!(SimpleList::window(&mut s, 1, 10), (0, 0));
}

#[test]
fn rows_are_marked_by_their_state() {
    let time = Position::from_bits(3);
    assert_eq!(SimpleList::item_state(&episode(1, "a", None)), ItemState::Unplayed);
    assert_eq!(
        SimpleList::item_state(&episode(1, "a", Some(ListeningState { time, finished: false }))),
        ItemState::InProgress(time)
    );
    assert_eq!(
        SimpleList::item_state(&episode(1, "a", Some(ListeningState { time: Position::zero(), finished: true }))),
        ItemState::Finished
    );
    let active = Some(episode(1, "a", None));
    assert!(SimpleList::playing(&episode(1, "a", None), &active));
    assert!(!SimpleList::playing(&episode(2, "a", None), &active));
    assert!(!SimpleList::playing(&episode(1, "b", None), &active));
    assert!(!SimpleList::playing(&episode(1, "a", None), &None));
}

#[test]
fn dialogs_are_placed_in_their_area() {
    let screen = Rect { x: 0, y: 3, width: 80, height: 20 };
    let d = OpenDialog::dialog_area(screen);
    assert_eq!(d, Rect { x: 2, y: 4, width: 75, height: 8 });
    assert_eq!(OpenDialog::text_box_area(d), Rect { x: 3, y: 5, width: 73, height: 1 });
    assert_eq!(OpenDialog::help_area(d), Rect { x: 3, y: 7, width: 75, height: 8 });
    assert_eq!(OpenDialog::new("Add".to_string()).title, "Add");
    assert_eq!(WaitingMessageDialog::dialog_area(screen, 24), Rect { x: 3, y: 6, width: 26, height: 3 });
    assert_eq!(WaitingMessageDialog::dialog_area(Rect { width: 10, ..screen }, 24), Rect { x: 3, y: 6, width: 6, height: 3 });
    assert_eq!(WaitingMessageDialog::new("m".to_string()).message, "m");
}

#[test]
fn waiting_mark_turns_every_second() {
    let marks: Vec<char> = (0..6).map(WaitingMessageDialog::mark).collect();
    assert_eq!(marks, vec!['|', '/', '-', '\\', '|', '/']);
}

#[test]
fn details_show_the_mark_and_dashes() {
    let heard = ListeningState { time: Position::from_bits(9), finished: false };
    let mut item = episode(1, "a", Some(heard));
    assert_eq!(ItemDetails::marker(&item, true), Marker::Playing);
    assert_eq!(ItemDetails::marker(&item, false), Marker::Heard(Position::from_bits(9)));
    assert_eq!(ItemDetails::title(&item), "-");
    assert_eq!(ItemDetails::description(&item), "-");
    item.listening_state = None;
    item.title = Some("T".into());
    item.description = Some("D".into());
    assert_eq!(ItemDetails::marker(&item, false), Marker::Unplayed);
    assert_eq!(ItemDetails::title(&item), "T");
    assert_eq!(ItemDetails::description(&item), "D");
    let area = Rect { x: 40, y: 3, width: 40, height: 20 };
    assert_eq!(ItemDetails::head_area(area), Rect { x: 41, y: 4, width: 38, height: 8 });
    assert_eq!(ItemDetails::body_area(area), Rect { x: 41, y: 12, width: 38, height: 10 });
}
