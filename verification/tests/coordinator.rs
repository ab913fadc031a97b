use librecast::coordinator::{run_refresh, AsyncAction, SyncEvent, SyncState};
use librecast::store::Store;

const FEED: &str = r#"<rss version="2.0"><channel><title>T</title><link>https://site.example</link>
<description>D</description>
<item><title>a</title><enclosure url="https://m.example/a.mp3" length="1" type="audio/mpeg"/></item>
</channel></rss>"#;

#[test]
fn a_refresh_walks_from_idle_to_delivered_and_back() {
    let (s, m) = SyncState::Idle.advance(SyncEvent::RefreshRequested);
    assert_eq!(s, SyncState::Fetching);
    assert!(m.is_empty());
    let (s, m) = s.advance(SyncEvent::Fetched);
    assert_eq!(s, SyncState::Reconciling);
    assert!(m.is_empty());
    let (s, m) = s.advance(SyncEvent::Stored(4));
    assert_eq!(s, SyncState::Delivered);
    assert_eq!(m.len(), 2);
    assert!(matches!(m[0], AsyncAction::ChannelAdded(4)));
    assert!(matches!(m[1], AsyncAction::RefreshChannelsList));
    let (s, m) = s.advance(SyncEvent::Consumed);
    assert_eq!(s, SyncState::Idle);
    assert!(m.is_empty());
}

#[test]
fn a_failed_refresh_posts_nothing_and_returns_to_idle() {
    let (s, m) = SyncState::Fetching.advance(SyncEvent::FetchFailed);
    assert_eq!(s, SyncState::Failed);
    assert!(m.is_empty());
    let (s, m) = SyncState::Reconciling.advance(SyncEvent::StoreFailed);
    assert_eq!(s, SyncState::Failed);
    assert!(m.is_empty());
    let (s, _) = s.advance(SyncEvent::Stored(1));
    assert_eq!(s, SyncState::Failed);
    let (s, _) = s.advance(SyncEvent::Consumed);
    assert_eq!(s, SyncState::Failed);
    let (s, m) = s.advance(SyncEvent::Abandoned);
    assert_eq!(s, SyncState::Idle);
    assert!(m.is_empty());
}

#[test]
fn events_out_of_turn_change_nothing() {
    let (s, m) = SyncState::Idle.advance(SyncEvent::Stored(1));
    assert_eq!(s, SyncState::Idle);
    assert!(m.is_empty());
    let (s, _) = SyncState::Fetching.advance(SyncEvent::RefreshRequested);
    assert_eq!(s, SyncState::Fetching);
    let (s, _) = SyncState::Delivered.advance(SyncEvent::Abandoned);
    assert_eq!(s, SyncState::Delivered);
}

#[test]
fn a_refresh_that_stores_is_delivered_with_both_messages() {
    let mut db = Store::new();
    let (state, messages) = run_refresh("https://feed.example/rss", 3, Some(FEED), &mut db);
    assert_eq!(state, SyncState::Delivered);
    assert_eq!(messages.len(), 2);
    assert!(matches!(messages[0], AsyncAction::ChannelAdded(3)));
    assert!(matches!(messages[1], AsyncAction::RefreshChannelsList));
    assert_eq!(db.episodes().len(), 1);
    assert_eq!(db.channels()[0].title.as_deref(), Some("T"));
}

#[test]
fn a_refresh_without_a_feed_fails_silently() {
    let mut db = Store::new();
    let (state, messages) = run_refresh("https://feed.example/rss", 3, None, &mut db);
    assert_eq!(state, SyncState::Failed);
    assert!(messages.is_empty());
    let (state, messages) = run_refresh("https://feed.example/rss", 3, Some("not xml"), &mut db);
    assert_eq!(state, SyncState::Failed);
    assert!(messages.is_empty());
    assert_eq!(db.channels().len(), 0);
}
