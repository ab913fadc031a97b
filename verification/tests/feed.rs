use librecast::data_layer::data_provider::DataProvider;
use librecast::date::PubDate;
use librecast::feed::{nesting_within, parse_feed, FetchError, NESTING_LIMIT};
use librecast::entity::channel;
use librecast::error::{PersistenceError, SyncError};
use librecast::podcasts_model::PodcastsModel;
use librecast::store::Store;

const FEED: &str = r#"<?xml version="1.0" encoding="UTF-8"?>
<rss version="2.0">
  <channel>
    <title>Example Cast</title>
    <link>https://example.org/</link>
    <description>A show about examples</description>
    <item>
      <title>One</title>
      <enclosure url="https://media.example.org/1.mp3" length="1" type="audio/mpeg"/>
      <guid>g-1</guid>
      <pubDate>Wed, 18 Feb 2015 23:16:09 GMT</pubDate>
    </item>
    <item>
      <title>Two</title>
      <description>no media here</description>
    </item>
    <item>
      <title>Three</title>
      <enclosure url="https://media.example.org/3.mp3" length="3" type="audio/mpeg"/>
      <pubDate>not a date</pubDate>
    </item>
  </channel>
</rss>"#;

#[test]
fn rfc2822_date_is_read() {
    let d = PubDate::parse("Wed, 18 Feb 2015 23:16:09 GMT").unwrap();
    assert_eq!(d.timestamp, 1424301369);
    assert_eq!(d.nanos, 0);
    assert_eq!(d.offset, 0);
}

#[test]
fn feed_is_parsed_in_order() {
    let feed = parse_feed(FEED).unwrap();
    assert_eq!(feed.title, "Example Cast");
    assert_eq!(feed.link, "https://example.org/");
    assert_eq!(feed.description, "A show about examples");
    assert_eq!(feed.items.len(), 3);
    assert_eq!(feed.items[0].title.as_deref(), Some("One"));
    assert_eq!(feed.items[0].enclosure.as_deref(), Some("https://media.example.org/1.mp3"));
    assert_eq!(feed.items[0].guid.as_deref(), Some("g-1"));
    assert_eq!(feed.items[1].enclosure, None);
    assert_eq!(feed.items[2].pub_date.as_deref(), Some("not a date"));
}

#[test]
fn three_items_one_without_enclosure_give_two_episodes() {
    let mut db = Store::new();
    let id = DataProvider::fetch_data("https://example.org/feed.xml", 7, FEED, &mut db).unwrap();
    assert_eq!(id, 7);
    let rows = db.episodes();
    assert_eq!(rows.len(), 2);
    assert_eq!(rows[0].ordering, 1);
    assert_eq!(rows[0].enclosure, "https://media.example.org/1.mp3");
    assert_eq!(rows[1].ordering, 2);
    assert_eq!(rows[1].enclosure, "https://media.example.org/3.mp3");
    assert_eq!(rows[1].pub_date, None);
    assert_eq!(rows[0].channel_id, 7);
}

#[test]
fn a_stored_link_of_another_channel_fails_the_sync_as_persistence() {
    let mut db = Store::new();
    db.insert_channel(channel::Model {
        id: 1,
        title: None,
        link: Some("https://example.org/feed.xml".to_string()),
        description: None,
    })
    .unwrap();
    let r = DataProvider::fetch_data("https://example.org/feed.xml", 2, FEED, &mut db);
    assert_eq!(r, Err(SyncError::Persistence(PersistenceError::UniqueViolation)));
    assert_eq!(db.episodes().len(), 0);
    assert_eq!(db.channels().len(), 1);
}

#[test]
fn a_missing_body_and_a_body_without_feed_are_the_same_error() {
    assert!(PodcastsModel::get_channel_from_url(None).is_err());
    assert!(PodcastsModel::get_channel_from_url(Some("")).is_err());
    assert!(PodcastsModel::get_channel_from_url(Some("<rss><item/></rss>")).is_err());
    let feed = PodcastsModel::get_channel_from_url(Some(FEED)).unwrap();
    assert_eq!(feed.items.len(), 3);
}

#[test]
fn channel_list_is_read_from_the_store() {
    let mut db = Store::new();
    assert!(PodcastsModel::get_channels_from_db(&db).is_empty());
    DataProvider::fetch_data("https://example.org/feed.xml", 7, FEED, &mut db).unwrap();
    let channels = PodcastsModel::get_channels_from_db(&db);
    assert_eq!(channels.len(), 1);
    assert_eq!(channels[0].id, 7);
    assert_eq!(channels[0].title.as_deref(), Some("Example Cast"));
    assert_eq!(channels[0].link.as_deref(), Some("https://example.org/feed.xml"));
    assert_eq!(channels[0].description.as_deref(), Some("A show about examples"));
}

#[test]
fn dates_keep_their_offset_and_compare_by_instant() {
    let east = PubDate::parse("Tue, 01 Jan 2019 11:00:00 +0100").unwrap();
    let utc = PubDate::parse("Tue, 01 Jan 2019 10:00:00 GMT").unwrap();
    let later = PubDate::parse("Tue, 01 Jan 2019 10:00:01 GMT").unwrap();
    assert_eq!(east.offset, 3600);
    assert_eq!(east.timestamp, utc.timestamp);
    assert!(!east.after(&utc));
    assert!(!utc.after(&east));
    assert!(later.after(&east));
    assert!(!east.after(&later));
    assert_eq!(PubDate::parse(""), None);
    assert_eq!(PubDate::parse("2019-01-01T10:00:00Z"), None);
}

fn nested(levels: usize) -> String {
    let mut text = String::from(
        "<rss version=\"2.0\"><channel><title>T</title><link>l</link><description>d</description><x:a>",
    );
    for _ in 0..levels {
        text.push_str("<b>");
    }
    for _ in 0..levels {
        text.push_str("</b>");
    }
    text.push_str("</x:a></channel></rss>");
    text
}

#[test]
fn nesting_is_counted_as_the_reader_meets_it() {
    assert!(nesting_within("", 0));
    assert!(nesting_within("no markup at all", 0));
    assert!(nesting_within("<a/><b/><c/>", 1));
    assert!(!nesting_within("<a/>", 0));
    assert!(nesting_within("<a><b></b><c></c></a>", 2));
    assert!(!nesting_within("<a><b><c/></b></a>", 2));
    assert!(nesting_within("<a><!-- <b><c><d> --><![CDATA[<e><f>]]></a>", 1));
    assert!(nesting_within(FEED, 4));
    assert!(!nesting_within(FEED, 3));
    assert!(nesting_within(&nested(125), NESTING_LIMIT));
    assert!(!nesting_within(&nested(126), NESTING_LIMIT));
}

#[test]
fn a_feed_at_the_nesting_limit_is_read_and_a_deeper_one_is_refused() {
    let feed = parse_feed(&nested(125)).unwrap();
    assert_eq!(feed.title, "T");
    assert!(parse_feed(&nested(126)).is_err());
}

#[test]
fn a_very_deep_body_is_refused_unread() {
    let mut db = Store::new();
    let body = nested(200_000);
    assert!(parse_feed(&body).is_err());
    assert!(PodcastsModel::get_channel_from_url(Some(&body)).is_err());
    let r = DataProvider::fetch_data("https://example.org/feed.xml", 1, &body, &mut db);
    assert_eq!(r, Err(SyncError::Fetch(FetchError)));
    assert_eq!(db.channels().len(), 0);
}
