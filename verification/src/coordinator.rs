//! Synchronisation coordinator: the life of one refresh, from the request
//! to the messages that the foreground drains.

use vstd::prelude::*;
use crate::data_layer::data_provider::{DataProvider, reconcile_refusal, reconciled, sync_plan};
use crate::feed::feed_in;
use crate::store::Store;
use crate::ui_models::{ChannelItem, ChannelItemView};

verus! {

/// A message from background work to the foreground.
#[derive(Debug)]
pub enum AsyncAction {
    /// The episodes of the channel with this id are to be listed anew.
    ChannelAdded(i32),
    /// The channel list is to be read anew.
    RefreshChannelsList,
    /// The listening state that the episode carries is to be stored.
    WriteListeningState(ChannelItem),
}

/// The mathematical value of a message.
pub enum AsyncActionView {
    ChannelAdded(i32),
    RefreshChannelsList,
    WriteListeningState(ChannelItemView),
}

impl View for AsyncAction {
    type V = AsyncActionView;

    open spec fn view(&self) -> AsyncActionView {
        match self {
            AsyncAction::ChannelAdded(id) => AsyncActionView::ChannelAdded(*id),
            AsyncAction::RefreshChannelsList => AsyncActionView::RefreshChannelsList,
            AsyncAction::WriteListeningState(item) => AsyncActionView::WriteListeningState(item@),
        }
    }
}

impl DeepView for AsyncAction {
    type V = AsyncActionView;

    open spec fn deep_view(&self) -> AsyncActionView {
        self@
    }
}

/// Where a refresh stands.
#[derive(Debug, Clone, Copy, PartialEq, Eq, Structural)]
pub enum SyncState {
    /// No refresh is under way.
    Idle,
    /// The feed is being fetched.
    Fetching,
    /// The feed was had and is being stored.
    Reconciling,
    /// The outcome was posted and waits to be drained.
    Delivered,
    /// The refresh failed. Nothing was posted.
    Failed,
}

/// What happens to a refresh.
#[derive(Debug, Clone, Copy, PartialEq, Eq, Structural)]
pub enum SyncEvent {
    /// The foreground asks for a refresh.
    RefreshRequested,
    /// The feed was fetched and parsed.
    Fetched,
    /// The feed could not be had.
    FetchFailed,
    /// The episodes were stored for the channel with this id.
    Stored(i32),
    /// The store refused the episodes.
    StoreFailed,
    /// The foreground drained the outcome.
    Consumed,
    /// The failure was noted.
    Abandoned,
}

/// The state that follows `state` on `event`. An event that does not belong
/// to the state leaves it as it is.
pub open spec fn next_state(state: SyncState, event: SyncEvent) -> SyncState {
    match (state, event) {
        (SyncState::Idle, SyncEvent::RefreshRequested) => SyncState::Fetching,
        (SyncState::Fetching, SyncEvent::Fetched) => SyncState::Reconciling,
        (SyncState::Fetching, SyncEvent::FetchFailed) => SyncState::Failed,
        (SyncState::Reconciling, SyncEvent::Stored(_)) => SyncState::Delivered,
        (SyncState::Reconciling, SyncEvent::StoreFailed) => SyncState::Failed,
        (SyncState::Delivered, SyncEvent::Consumed) => SyncState::Idle,
        (SyncState::Failed, SyncEvent::Abandoned) => SyncState::Idle,
        _ => state,
    }
}

/// The messages that are posted when `event` meets `state`: the channel's
/// listing and the channel list, in this order, when the episodes of a
/// refresh were stored, and none otherwise.
pub open spec fn posted(state: SyncState, event: SyncEvent) -> Seq<AsyncActionView> {
    match (state, event) {
        (SyncState::Reconciling, SyncEvent::Stored(id)) => seq![
            AsyncActionView::ChannelAdded(id),
            AsyncActionView::RefreshChannelsList,
        ],
        _ => Seq::empty(),
    }
}

/// Messages are posted exactly on the step into `Delivered`, and a failed
/// refresh goes back to `Idle` or stays failed: it never delivers.
pub proof fn law_only_delivery_posts(state: SyncState, event: SyncEvent)
    ensures
        posted(state, event).len() > 0 <==> (state != SyncState::Delivered && next_state(
            state,
            event,
        ) == SyncState::Delivered),
        state == SyncState::Failed ==> next_state(state, event) != SyncState::Delivered,
        next_state(state, event) == SyncState::Delivered ==> state == SyncState::Reconciling
            || state == SyncState::Delivered,
{
}

impl SyncState {
    /// Takes one step: returns the next state and the messages to post.
    pub fn advance(self, event: SyncEvent) -> (r: (SyncState, Vec<AsyncAction>))
        ensures
            r.0 == next_state(self, event),
            r.1.deep_view() == posted(self, event),
    {
        match (self, event) {
            (SyncState::Idle, SyncEvent::RefreshRequested) => (SyncState::Fetching, Vec::new()),
            (SyncState::Fetching, SyncEvent::Fetched) => (SyncState::Reconciling, Vec::new()),
            (SyncState::Fetching, SyncEvent::FetchFailed) => (SyncState::Failed, Vec::new()),
            (SyncState::Reconciling, SyncEvent::Stored(id)) => {
                let mut messages: Vec<AsyncAction> = Vec::new();
                messages.push(AsyncAction::ChannelAdded(id));
                messages.push(AsyncAction::RefreshChannelsList);
                assert(messages.deep_view() == posted(self, event));
                (SyncState::Delivered, messages)
            },
            (SyncState::Reconciling, SyncEvent::StoreFailed) => (SyncState::Failed, Vec::new()),
            (SyncState::Delivered, SyncEvent::Consumed) => (SyncState::Idle, Vec::new()),
            (SyncState::Failed, SyncEvent::Abandoned) => (SyncState::Idle, Vec::new()),
            _ => (self, Vec::new()),
        }
    }
}

/// The state in which a refresh ends, given what the fetch returned: the
/// body of the feed, or nothing where the transport failed.
pub open spec fn refresh_outcome(
    s: crate::store::StoreView,
    url: Seq<char>,
    hint: i32,
    body: Option<Seq<char>>,
) -> SyncState {
    match body {
        None => SyncState::Failed,
        Some(text) => match feed_in(text) {
            None => SyncState::Failed,
            Some(feed) => if reconcile_refusal(s, url, hint, feed) is None {
                SyncState::Delivered
            } else {
                SyncState::Failed
            },
        },
    }
}

/// Runs one refresh from the request to its end.
///
/// `body` is what the fetch of `podcast_url` returned, `None` where the
/// transport failed. The refresh is delivered exactly when the body is taken
/// for a feed, as `feed_in` says, and the store takes its episodes. Then the store is the reconciled
/// store and the messages are the channel's listing and the channel list, in
/// this order. Otherwise the refresh has failed, the store is unchanged and
/// no message is posted.
pub fn run_refresh(
    podcast_url: &str,
    selected_channel_id: i32,
    body: Option<&str>,
    db: &mut Store,
) -> (r: (SyncState, Vec<AsyncAction>))
    requires
        old(db).wf(),
    ensures
        final(db).wf(),
        r.0 == refresh_outcome(
            old(db)@,
            podcast_url@,
            selected_channel_id,
            match body {
                Some(text) => Some(text@),
                None => None,
            },
        ),
        r.0 == SyncState::Failed ==> final(db)@ == old(db)@ && r.1.deep_view().len() == 0,
        r.0 == SyncState::Delivered ==> body is Some && feed_in(body->0@) is Some && ({
            let feed = feed_in(body->0@)->0;
            &&& final(db)@ == reconciled(old(db)@, podcast_url@, selected_channel_id, feed)
            &&& r.1.deep_view() == seq![
                AsyncActionView::ChannelAdded(
                    sync_plan(old(db)@, podcast_url@, selected_channel_id, feed).channel_id,
                ),
                AsyncActionView::RefreshChannelsList,
            ]
        }),
{
    let (fetching, _) = SyncState::Idle.advance(SyncEvent::RefreshRequested);
    let text = match body {
        Some(text) => text,
        None => {
            let (failed, messages) = fetching.advance(SyncEvent::FetchFailed);
            return (failed, messages);
        },
    };
    match DataProvider::fetch_data(podcast_url, selected_channel_id, text, db) {
        Ok(id) => {
            let (reconciling, _) = fetching.advance(SyncEvent::Fetched);
            reconciling.advance(SyncEvent::Stored(id))
        },
        Err(crate::error::SyncError::Fetch(_)) => fetching.advance(SyncEvent::FetchFailed),
        Err(crate::error::SyncError::Persistence(_)) => {
            let (reconciling, _) = fetching.advance(SyncEvent::Fetched);
            reconciling.advance(SyncEvent::StoreFailed)
        },
    }
}

} // verus!
