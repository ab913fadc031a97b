use librecast::data_layer::data_provider::DataProvider;
use librecast::data_layer::listening_state_data_layer::{ListeningStateDataLayer, StateWrite};
use librecast::entity::listening_state::{Model, Position};
use librecast::error::PersistenceError;
use librecast::feed::{ParsedChannel, ParsedItem};
use librecast::store::Store;
use librecast::ui_models::ListeningState;

fn at(seconds: f32) -> Position {
    Position::from_bits(seconds.to_bits())
}

fn entry(enclosure: &str) -> ParsedItem {
    ParsedItem {
        title: None,
        link: None,
        source: None,
        enclosure: Some(enclosure.to_string()),
        description: None,
        guid: None,
        pub_date: None,
    }
}

fn feed(items: Vec<ParsedItem>) -> ParsedChannel {
    ParsedChannel { title: "t".into(), link: "l".into(), description: "d".into(), items }
}

#[test]
fn position_written_is_position_read() {
    let mut db = Store::new();
    ListeningStateDataLayer::update_current_time_for_item(&mut db, "e.mp3".to_string(), 2, at(5.5)).unwrap();
    let got = ListeningStateDataLayer::get(&db, "e.mp3", 2).unwrap();
    assert_eq!(got, ListeningState { time: at(5.5), finished: false });
    assert_eq!(f32::from_bits(got.time.to_bits()), 5.5);
    assert_eq!(db.listening_states().len(), 1);
    assert_eq!(db.listening_states()[0].id, 1);
}

#[test]
fn finished_episode_goes_back_to_its_start() {
    let mut db = Store::new();
    ListeningStateDataLayer::update_current_time_for_item(&mut db, "e.mp3".to_string(), 2, at(5.0)).unwrap();
    ListeningStateDataLayer::mark_item_as_finished(&mut db, "e.mp3".to_string(), 2).unwrap();
    let got = ListeningStateDataLayer::get(&db, "e.mp3", 2).unwrap();
    assert_eq!(got, ListeningState { time: Position::zero(), finished: true });
    assert_eq!(f32::from_bits(got.time.to_bits()), 0.0);
}

#[test]
fn marking_an_unplayed_episode_makes_no_row() {
    let mut db = Store::new();
    assert_eq!(ListeningStateDataLayer::mark_item_as_finished(&mut db, "e.mp3".to_string(), 2), Ok(()));
    assert_eq!(db.listening_states().len(), 0);
    assert_eq!(ListeningStateDataLayer::get(&db, "e.mp3", 2), None);
}

#[test]
fn a_position_after_finish_reopens_the_episode() {
    let mut db = Store::new();
    ListeningStateDataLayer::update_current_time_for_item(&mut db, "e.mp3".to_string(), 2, at(5.0)).unwrap();
    ListeningStateDataLayer::mark_item_as_finished(&mut db, "e.mp3".to_string(), 2).unwrap();
    ListeningStateDataLayer::update_current_time_for_item(&mut db, "e.mp3".to_string(), 2, at(7.0)).unwrap();
    let got = ListeningStateDataLayer::get(&db, "e.mp3", 2).unwrap();
    assert_eq!(got, ListeningState { time: at(7.0), finished: false });
    assert_eq!(db.listening_states().len(), 1);
}

#[test]
fn repeated_writes_make_no_second_row() {
    let mut db = Store::new();
    for _ in 0..3 {
        ListeningStateDataLayer::update_current_time_for_item(&mut db, "e.mp3".to_string(), 2, at(1.0)).unwrap();
    }
    ListeningStateDataLayer::update_current_time_for_item(&mut db, "e.mp3".to_string(), 3, at(2.0)).unwrap();
    ListeningStateDataLayer::update_current_time_for_item(&mut db, "f.mp3".to_string(), 2, at(3.0)).unwrap();
    assert_eq!(db.listening_states().len(), 3);
    let ids: Vec<i32> = db.listening_states().iter().map(|r| r.id).collect();
    assert_eq!(ids, vec![1, 2, 3]);
    assert_eq!(ListeningStateDataLayer::get(&db, "e.mp3", 2).unwrap().time, at(1.0));
    assert_eq!(ListeningStateDataLayer::get(&db, "e.mp3", 3).unwrap().time, at(2.0));
    assert_eq!(ListeningStateDataLayer::get(&db, "f.mp3", 2).unwrap().time, at(3.0));
}

#[test]
fn state_of_a_removed_episode_stays() {
    let mut db = Store::new();
    DataProvider::reconcile("u", 1, &feed(vec![entry("a.mp3"), entry("e.mp3")]), &mut db).unwrap();
    ListeningStateDataLayer::update_current_time_for_item(&mut db, "e.mp3".to_string(), 1, at(42.0)).unwrap();
    DataProvider::reconcile("u", 1, &feed(vec![entry("a.mp3")]), &mut db).unwrap();
    let listed = DataProvider::get_items_from_db(1, &db);
    assert_eq!(listed.len(), 1);
    assert_eq!(listed[0].enclosure, "a.mp3");
    assert_eq!(
        ListeningStateDataLayer::get(&db, "e.mp3", 1),
        Some(ListeningState { time: at(42.0), finished: false })
    );
}

#[test]
fn decisions_name_the_write() {
    let w = ListeningStateDataLayer::position_write(None, "e.mp3".to_string(), 4, at(1.5));
    match w {
        StateWrite::Insert { channel_id, enclosure, time } => {
            assert_eq!(channel_id, 4);
            assert_eq!(enclosure, "e.mp3");
            assert_eq!(time, at(1.5));
        }
        _ => panic!("an insert was expected"),
    }
    let row = Model { id: 9, channel_id: 4, channel_item_enclosure: "e.mp3".to_string(), time: at(1.5), finished: true };
    match ListeningStateDataLayer::position_write(Some(row.clone()), "e.mp3".to_string(), 4, at(2.5)) {
        StateWrite::Update(r) => {
            assert_eq!(r.id, 9);
            assert_eq!(r.time, at(2.5));
            assert!(!r.finished);
        }
        _ => panic!("an update was expected"),
    }
    match ListeningStateDataLayer::finished_write(Some(row)) {
        StateWrite::Update(r) => {
            assert_eq!(r.id, 9);
            assert_eq!(r.time, Position::zero());
            assert!(r.finished);
        }
        _ => panic!("an update was expected"),
    }
    assert!(matches!(ListeningStateDataLayer::finished_write(None), StateWrite::Nothing));
}

#[test]
fn the_store_refuses_writes_that_break_its_keys() {
    let mut db = Store::new();
    db.write_state(StateWrite::Insert { channel_id: 1, enclosure: "e".to_string(), time: at(1.0) }).unwrap();
    db.write_state(StateWrite::Insert { channel_id: 1, enclosure: "f".to_string(), time: at(1.0) }).unwrap();
    assert_eq!(
        db.write_state(StateWrite::Insert { channel_id: 1, enclosure: "e".to_string(), time: at(2.0) }),
        Err(PersistenceError::UniqueViolation)
    );
    let missing = Model { id: 77, channel_id: 1, channel_item_enclosure: "g".to_string(), time: at(0.0), finished: false };
    assert_eq!(db.write_state(StateWrite::Update(missing)), Err(PersistenceError::NotFound));
    let clash = Model { id: 2, channel_id: 1, channel_item_enclosure: "e".to_string(), time: at(0.0), finished: false };
    assert_eq!(db.write_state(StateWrite::Update(clash)), Err(PersistenceError::UniqueViolation));
    assert_eq!(db.write_state(StateWrite::Nothing), Ok(()));
    assert_eq!(db.listening_states().len(), 2);
    assert_eq!(db.find_state(1, "f").unwrap().id, 2);
}
