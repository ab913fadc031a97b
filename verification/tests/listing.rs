use librecast::data_layer::data_provider::DataProvider;
use librecast::data_layer::listening_state_data_layer::ListeningStateDataLayer;
use librecast::date::PubDate;
use librecast::entity::channel_item;
use librecast::entity::listening_state::{Model, Position};
use librecast::feed::{ParsedChannel, ParsedItem};
use librecast::store::Store;
use librecast::ui_models::{ChannelItem, ListeningState};

fn entry(enclosure: &str, date: Option<&str>) -> ParsedItem {
    ParsedItem {
        title: Some(enclosure.to_string()),
        link: None,
        source: None,
        enclosure: Some(enclosure.to_string()),
        description: None,
        guid: Some("guid".to_string()),
        pub_date: date.map(|d| d.to_string()),
    }
}

fn feed(items: Vec<ParsedItem>) -> ParsedChannel {
    ParsedChannel { title: "t".into(), link: "l".into(), description: "d".into(), items }
}

#[test]
fn listing_puts_the_latest_first_and_ranks_break_ties() {
    let items = vec![
        entry("old", Some("Mon, 01 Jan 2018 10:00:00 GMT")),
        entry("undated-1", None),
        entry("new", Some("Tue, 01 Jan 2019 10:00:00 GMT")),
        entry("same-as-new", Some("Tue, 01 Jan 2019 11:00:00 +0100")),
        entry("undated-2", Some("sometime")),
    ];
    let mut db = Store::new();
    DataProvider::reconcile("u", 1, &feed(items), &mut db).unwrap();
    let listed: Vec<String> =
        DataProvider::get_items_from_db(1, &db).into_iter().map(|i| i.enclosure).collect();
    assert_eq!(listed, vec!["new", "same-as-new", "old", "undated-1", "undated-2"]);
}

#[test]
fn listing_holds_one_channel_only() {
    let mut db = Store::new();
    DataProvider::reconcile("u1", 1, &feed(vec![entry("a", None), entry("b", None)]), &mut db).unwrap();
    let mut other = feed(vec![entry("c", None)]);
    other.link = "l2".into();
    DataProvider::reconcile("u2", 2, &other, &mut db).unwrap();
    assert_eq!(DataProvider::get_items_from_db(1, &db).len(), 2);
    assert_eq!(DataProvider::get_items_from_db(2, &db).len(), 1);
    assert_eq!(DataProvider::get_items_from_db(3, &db).len(), 0);
}

#[test]
fn listing_joins_the_state_of_each_episode() {
    let mut db = Store::new();
    DataProvider::reconcile("u", 1, &feed(vec![entry("a", None), entry("b", None)]), &mut db).unwrap();
    let half = Position::from_bits(30.5f32.to_bits());
    ListeningStateDataLayer::update_current_time_for_item(&mut db, "b".to_string(), 1, half).unwrap();
    ListeningStateDataLayer::update_current_time_for_item(&mut db, "a".to_string(), 2, half).unwrap();
    let listed = DataProvider::get_items_from_db(1, &db);
    assert_eq!(listed[0].enclosure, "a");
    assert_eq!(listed[0].listening_state, None);
    assert_eq!(listed[1].enclosure, "b");
    assert_eq!(listed[1].listening_state, Some(ListeningState { time: half, finished: false }));
    assert_eq!(listed[1].ordering, 2);
    assert_eq!(listed[1].guid, None);
}

#[test]
fn join_takes_the_first_related_state() {
    let item = channel_item::Model {
        ordering: 3,
        channel_id: 1,
        title: Some("t".into()),
        link: Some("l".into()),
        source: Some("s".into()),
        enclosure: "e".into(),
        description: Some("d".into()),
        guid: Some("g".into()),
        pub_date: None,
    };
    let state = |bits: u32, finished: bool| Model {
        id: 1,
        channel_id: 1,
        channel_item_enclosure: "e".into(),
        time: Position::from_bits(bits),
        finished,
    };
    let none: ChannelItem = ChannelItem::from(&(item.clone(), vec![]));
    assert_eq!(none.listening_state, None);
    assert_eq!(none.ordering, 3);
    assert_eq!(none.source.as_deref(), Some("s"));
    assert_eq!(none.description.as_deref(), Some("d"));
    assert_eq!(none.guid, None);
    let two = ChannelItem::from(&(item, vec![state(7, false), state(0, true)]));
    assert_eq!(two.listening_state, Some(ListeningState { time: Position::from_bits(7), finished: false }));
}

#[test]
fn rows_read_in_any_order_are_listed_in_listing_order() {
    let row = |ordering: i32, enclosure: &str, date: Option<&str>| channel_item::Model {
        ordering,
        channel_id: 1,
        title: None,
        link: None,
        source: None,
        enclosure: enclosure.into(),
        description: None,
        guid: None,
        pub_date: date.and_then(PubDate::parse),
    };
    let state = Model {
        id: 4,
        channel_id: 1,
        channel_item_enclosure: "old".into(),
        time: Position::from_bits(3),
        finished: false,
    };
    let entries = vec![
        (row(3, "undated-3", None), vec![]),
        (row(2, "old", Some("Mon, 01 Jan 2018 10:00:00 GMT")), vec![state]),
        (row(1, "undated-1", None), vec![]),
        (row(4, "new", Some("Tue, 01 Jan 2019 10:00:00 GMT")), vec![]),
    ];
    let listed = DataProvider::list_items(&entries);
    let names: Vec<&str> = listed.iter().map(|i| i.enclosure.as_str()).collect();
    assert_eq!(names, vec!["new", "old", "undated-1", "undated-3"]);
    assert_eq!(listed[1].listening_state, Some(ListeningState { time: Position::from_bits(3), finished: false }));
    assert!(DataProvider::list_items(&vec![]).is_empty());
}
