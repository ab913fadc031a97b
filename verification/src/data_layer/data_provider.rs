//! Episode reconciler: a fetched feed replaces the stored episode set of
//! its channel.

use vstd::prelude::*;
use crate::data_layer::episodes::{
    episodes_of, first_index, has_enclosure, law_every_enclosure_has_a_row, law_ranks_are_dense,
    law_rows_are_distinct, law_rows_come_from_feed,
};
use crate::data_layer::plan::{SyncPlanView, lemma_plan_rows, plan_of};
use crate::entity::channel;
use crate::entity::channel_item::ModelView;
use crate::error::{PersistenceError, SyncError};
use crate::feed::{ParsedChannel, ParsedChannelView, parse_feed, feed_in};
use crate::store::{
    Store, StoreView, channel_by_link, channels_distinct, commit_refused, committed, episodes_in,
    has_id, has_link, in_channel, index_of_id, lemma_replace_distinct, lemma_upsert_distinct,
    link_taken, not_in_channel, state_of, upserted, well_formed,
};

verus! {

/// The reconciler.
pub struct DataProvider {}

/// The plan that a feed calls for in a given store: the feed's own link is
/// looked up among the stored channels.
pub open spec fn sync_plan(s: StoreView, url: Seq<char>, hint: i32, feed: ParsedChannelView)
    -> SyncPlanView {
    plan_of(url, hint, channel_by_link(s.channels, feed.link), feed)
}

/// Why a feed cannot be reconciled with a store, if it cannot: the feed has
/// more episodes than there are ranks, or the channel row to write would
/// repeat the link of another channel.
pub open spec fn reconcile_refusal(s: StoreView, url: Seq<char>, hint: i32, feed: ParsedChannelView)
    -> Option<PersistenceError> {
    if sync_plan(s, url, hint, feed).episodes.len() > i32::MAX {
        Some(PersistenceError::OutOfRange)
    } else if commit_refused(s, sync_plan(s, url, hint, feed)) {
        Some(PersistenceError::UniqueViolation)
    } else {
        None
    }
}

/// The store after a feed is reconciled with it.
pub open spec fn reconciled(s: StoreView, url: Seq<char>, hint: i32, feed: ParsedChannelView)
    -> StoreView {
    committed(s, sync_plan(s, url, hint, feed))
}

/// Rows that all meet a condition pass a filter on it unchanged, and rows
/// that all fail it are all dropped.
pub proof fn lemma_filter_all_or_none<A>(rows: Seq<A>, pred: spec_fn(A) -> bool)
    ensures
        (forall|n: int| 0 <= n < rows.len() ==> pred(#[trigger] rows[n])) ==> rows.filter(pred)
            == rows,
        (forall|n: int| 0 <= n < rows.len() ==> !pred(#[trigger] rows[n])) ==> rows.filter(pred)
            == Seq::<A>::empty(),
    decreases rows.len(),
{
    reveal(Seq::filter);
    if rows.len() > 0 {
        lemma_filter_all_or_none(rows.drop_last(), pred);
        if forall|n: int| 0 <= n < rows.len() ==> pred(#[trigger] rows[n]) {
            assert forall|n: int| 0 <= n < rows.drop_last().len() implies pred(
                #[trigger] rows.drop_last()[n],
            ) by {
                assert(rows.drop_last()[n] == rows[n]);
            }
            assert(pred(rows.last()));
            assert(rows.drop_last().push(rows.last()) == rows);
        }
        if forall|n: int| 0 <= n < rows.len() ==> !pred(#[trigger] rows[n]) {
            assert forall|n: int| 0 <= n < rows.drop_last().len() implies !pred(
                #[trigger] rows.drop_last()[n],
            ) by {
                assert(rows.drop_last()[n] == rows[n]);
            }
            assert(!pred(rows.last()));
        }
    }
}

/// The constraints of the schema outlast every reconciliation: where the
/// store takes one, no two channels share an id or a link afterwards, no two
/// episodes share a channel and an enclosure, and the listening states are as
/// they were.
pub proof fn law_reconcile_keeps_constraints(s: StoreView, url: Seq<char>, hint: i32, feed: ParsedChannelView)
    requires
        well_formed(s),
        !commit_refused(s, sync_plan(s, url, hint, feed)),
    ensures
        well_formed(reconciled(s, url, hint, feed)),
{
    let plan = sync_plan(s, url, hint, feed);
    lemma_plan_rows(url, hint, channel_by_link(s.channels, feed.link), feed);
    lemma_replace_distinct(s.episodes, plan.channel_id, plan.episodes);
    if plan.channel is Some {
        lemma_upsert_distinct(s.channels, plan.channel->0);
    }
}

/// After a feed is reconciled, the stored episode set of its channel is
/// the feed's episode set: the rows of `episodes_of`, in feed order, and no
/// row of an earlier sync among them.
pub proof fn law_reconcile_mirrors_feed(s: StoreView, url: Seq<char>, hint: i32, feed: ParsedChannelView)
    ensures
        episodes_in(reconciled(s, url, hint, feed), sync_plan(s, url, hint, feed).channel_id)
            == episodes_of(sync_plan(s, url, hint, feed).channel_id, url, feed.items),
{
    let plan = sync_plan(s, url, hint, feed);
    let id = plan.channel_id;
    let others = s.episodes.filter(not_in_channel(id));
    lemma_plan_rows(url, hint, channel_by_link(s.channels, feed.link), feed);
    Seq::filter_distributes_over_add(others, plan.episodes, in_channel(id));
    assert forall|n: int| 0 <= n < others.len() implies !in_channel(id)(#[trigger] others[n]) by {
        s.episodes.lemma_filter_pred(not_in_channel(id), n);
    }
    lemma_filter_all_or_none(others, in_channel(id));
    lemma_filter_all_or_none(plan.episodes, in_channel(id));
    assert(Seq::<ModelView>::empty() + plan.episodes == plan.episodes);
}

/// After a feed is reconciled, its channel has exactly one stored episode
/// for each distinct non-empty enclosure URL of the feed, and the ranks are
/// 1 to N in feed order.
///
/// In full: every entry with a non-empty enclosure has a row with its URL;
/// every row has the URL, not empty, of an entry; no two rows share a URL;
/// row `n` has rank `n + 1`, where the rank fits; and of two rows, the
/// earlier is the one whose URL the feed gives first.
pub proof fn law_one_row_per_enclosure(s: StoreView, url: Seq<char>, hint: i32, feed: ParsedChannelView)
    ensures
        ({
            let rows = episodes_in(
                reconciled(s, url, hint, feed),
                sync_plan(s, url, hint, feed).channel_id,
            );
            let items = feed.items;
            &&& forall|i: int|
                0 <= i < items.len() && #[trigger] has_enclosure(items[i]) ==> exists|n: int|
                    0 <= n < rows.len() && (#[trigger] rows[n]).enclosure == items[i].enclosure->0
            &&& forall|n: int|
                0 <= n < rows.len() ==> (#[trigger] rows[n]).enclosure.len() > 0 && exists|i: int|
                    0 <= i < items.len() && (#[trigger] items[i]).enclosure == Some(
                        rows[n].enclosure,
                    )
            &&& forall|m: int, n: int|
                0 <= m < n < rows.len() ==> (#[trigger] rows[m]).enclosure != (
                #[trigger] rows[n]).enclosure
            &&& forall|n: int|
                0 <= n < rows.len() && n < i32::MAX ==> (#[trigger] rows[n]).ordering == n + 1
            &&& forall|m: int, n: int|
                0 <= m < n < rows.len() ==> first_index(items, (#[trigger] rows[m]).enclosure)
                    < first_index(items, (#[trigger] rows[n]).enclosure)
        }),
{
    let id = sync_plan(s, url, hint, feed).channel_id;
    let rows = episodes_in(reconciled(s, url, hint, feed), id);
    let items = feed.items;
    law_reconcile_mirrors_feed(s, url, hint, feed);
    assert forall|i: int| 0 <= i < items.len() && #[trigger] has_enclosure(items[i]) implies exists|
        n: int,
    | 0 <= n < rows.len() && (#[trigger] rows[n]).enclosure == items[i].enclosure->0 by {
        let n = law_every_enclosure_has_a_row(id, url, items, i);
        assert(rows[n].enclosure == items[i].enclosure->0);
    }
    assert forall|n: int| 0 <= n < rows.len() implies (#[trigger] rows[n]).enclosure.len() > 0
        && exists|i: int|
        0 <= i < items.len() && (#[trigger] items[i]).enclosure == Some(rows[n].enclosure) by {
        let i = law_rows_come_from_feed(id, url, items, n);
        assert(items[i].enclosure == Some(rows[n].enclosure));
    }
    assert forall|m: int, n: int| 0 <= m < n < rows.len() implies (#[trigger] rows[m]).enclosure
        != (#[trigger] rows[n]).enclosure && first_index(items, rows[m].enclosure) < first_index(
        items,
        rows[n].enclosure,
    ) by {
        law_rows_are_distinct(id, url, items, m, n);
    }
    assert forall|n: int| 0 <= n < rows.len() && n < i32::MAX implies (
    #[trigger] rows[n]).ordering == n + 1 by {
        law_ranks_are_dense(id, url, items, n);
    }
}

/// A reconciliation leaves the episodes of every other channel, and every
/// listening state, as they were.
pub proof fn law_reconcile_touches_one_channel(
    s: StoreView,
    url: Seq<char>,
    hint: i32,
    feed: ParsedChannelView,
    other: i32,
)
    requires
        other != sync_plan(s, url, hint, feed).channel_id,
    ensures
        episodes_in(reconciled(s, url, hint, feed), other) == episodes_in(s, other),
        reconciled(s, url, hint, feed).listening == s.listening,
{
    let plan = sync_plan(s, url, hint, feed);
    let id = plan.channel_id;
    let others = s.episodes.filter(not_in_channel(id));
    lemma_plan_rows(url, hint, channel_by_link(s.channels, feed.link), feed);
    Seq::filter_distributes_over_add(others, plan.episodes, in_channel(other));
    assert forall|n: int| 0 <= n < plan.episodes.len() implies !in_channel(other)(
        #[trigger] plan.episodes[n],
    ) by {}
    lemma_filter_all_or_none(plan.episodes, in_channel(other));
    lemma_filter_twice(s.episodes, id, other);
    assert(others.filter(in_channel(other)) + Seq::<ModelView>::empty() == others.filter(
        in_channel(other),
    ));
}

/// Dropping the rows of one channel does not change the rows of another.
pub proof fn lemma_filter_twice(episodes: Seq<ModelView>, dropped: i32, other: i32)
    requires
        dropped != other,
    ensures
        episodes.filter(not_in_channel(dropped)).filter(in_channel(other)) == episodes.filter(
            in_channel(other),
        ),
    decreases episodes.len(),
{
    reveal(Seq::filter);
    if episodes.len() > 0 {
        let front = episodes.drop_last();
        let last = episodes.last();
        lemma_filter_twice(front, dropped, other);
        if not_in_channel(dropped)(last) {
            front.filter(not_in_channel(dropped)).lemma_filter_push(last, in_channel(other));
        }
    }
}

/// After a row is written, it is the row of its id, and every other row is
/// a row that was there before.
pub proof fn lemma_upserted_rows(channels: Seq<channel::ModelView>, row: channel::ModelView)
    requires
        channels_distinct(channels),
        !link_taken(channels, row),
    ensures
        channels_distinct(upserted(channels, row)),
        has_id(upserted(channels, row), row.id),
        upserted(channels, row)[index_of_id(upserted(channels, row), row.id)] == row,
        forall|i: int|
            0 <= i < upserted(channels, row).len() && (#[trigger] upserted(channels, row)[i]).id
                != row.id ==> 0 <= i < channels.len() && channels[i] == upserted(channels, row)[i],
{
    let after = upserted(channels, row);
    lemma_upsert_distinct(channels, row);
    let at = if has_id(channels, row.id) {
        index_of_id(channels, row.id)
    } else {
        channels.len() as int
    };
    assert(after[at] == row);
    let found = index_of_id(after, row.id);
    if found < at {
        assert(after[found].id != after[at].id);
    } else if at < found {
        assert(after[at].id != after[found].id);
    }
}

/// Once a channel row is written, the link it was looked up by is settled:
/// the lookup finds the row where the row's link is that link and finds
/// nothing otherwise, and writing the row again changes nothing.
pub proof fn lemma_channel_settled(
    channels: Seq<channel::ModelView>,
    row: channel::ModelView,
    link: Seq<char>,
)
    requires
        channels_distinct(channels),
        !has_link(channels, link),
        row.link is Some,
        !link_taken(channels, row),
    ensures
        row.link == Some(link) ==> channel_by_link(upserted(channels, row), link) == Some(row.id),
        row.link != Some(link) ==> channel_by_link(upserted(channels, row), link) is None,
        !link_taken(upserted(channels, row), row),
        upserted(upserted(channels, row), row) == upserted(channels, row),
{
    let after = upserted(channels, row);
    lemma_upserted_rows(channels, row);
    let at = index_of_id(after, row.id);
    assert(after.update(at, row) == after);
    assert(!link_taken(after, row)) by {
        if link_taken(after, row) {
            let i = choose|i: int|
                0 <= i < after.len() && (#[trigger] after[i]).id != row.id && after[i].link
                    == row.link;
            assert(channels[i] == after[i]);
        }
    }
    if has_link(after, link) {
        let found = choose|i: int| 0 <= i < after.len() && (#[trigger] after[i]).link == Some(link);
        if after[found].id != row.id {
            assert(channels[found] == after[found]);
        } else {
            if found < at {
                assert(after[found].id != after[at].id);
            } else if at < found {
                assert(after[at].id != after[found].id);
            }
        }
    } else {
        assert(after[at].link != Some(link));
    }
}

/// Replacing the episodes of a channel by rows of that channel, twice, is
/// replacing them once.
pub proof fn lemma_replaced_again(episodes: Seq<ModelView>, id: i32, rows: Seq<ModelView>)
    requires
        forall|n: int| 0 <= n < rows.len() ==> (#[trigger] rows[n]).channel_id == id,
    ensures
        (episodes.filter(not_in_channel(id)) + rows).filter(not_in_channel(id)) + rows
            == episodes.filter(not_in_channel(id)) + rows,
{
    let others = episodes.filter(not_in_channel(id));
    Seq::filter_distributes_over_add(others, rows, not_in_channel(id));
    assert forall|n: int| 0 <= n < others.len() implies not_in_channel(id)(#[trigger] others[n]) by {
        episodes.lemma_filter_pred(not_in_channel(id), n);
    }
    assert forall|n: int| 0 <= n < rows.len() implies !not_in_channel(id)(#[trigger] rows[n]) by {}
    lemma_filter_all_or_none(others, not_in_channel(id));
    lemma_filter_all_or_none(rows, not_in_channel(id));
    assert(others + Seq::<ModelView>::empty() == others);
}

/// The plan of a second reconciliation of the same feed: it is for the
/// same channel with the same episodes, and where it writes a channel row,
/// the store takes the row and is not changed by it.
pub proof fn lemma_second_plan(s: StoreView, url: Seq<char>, hint: i32, feed: ParsedChannelView)
    requires
        channels_distinct(s.channels),
        !commit_refused(s, sync_plan(s, url, hint, feed)),
    ensures
        ({
            let once = reconciled(s, url, hint, feed);
            let again = sync_plan(once, url, hint, feed);
            &&& again.channel_id == sync_plan(s, url, hint, feed).channel_id
            &&& again.episodes == sync_plan(s, url, hint, feed).episodes
            &&& !commit_refused(once, again)
            &&& committed(once, again).channels == once.channels
        }),
{
    let plan = sync_plan(s, url, hint, feed);
    match plan.channel {
        None => {},
        Some(row) => {
            lemma_channel_settled(s.channels, row, feed.link);
        },
    }
}

/// Reconciling the same feed twice is reconciling it once: where the store
/// takes a reconciliation, it takes the same one again, and the second leaves
/// every relation, row for row, as the first left it.
pub proof fn law_reconcile_idempotent(s: StoreView, url: Seq<char>, hint: i32, feed: ParsedChannelView)
    requires
        well_formed(s),
        reconcile_refusal(s, url, hint, feed) is None,
    ensures
        reconcile_refusal(reconciled(s, url, hint, feed), url, hint, feed) is None,
        reconciled(reconciled(s, url, hint, feed), url, hint, feed) == reconciled(
            s,
            url,
            hint,
            feed,
        ),
{
    let plan = sync_plan(s, url, hint, feed);
    lemma_second_plan(s, url, hint, feed);
    lemma_plan_rows(url, hint, channel_by_link(s.channels, feed.link), feed);
    lemma_replaced_again(s.episodes, plan.channel_id, plan.episodes);
}

/// An episode that left the feed leaves the listing and keeps its
/// listening state: after a reconciliation, no stored episode of the channel
/// has an enclosure that the feed does not carry, and the listening state
/// stored for any episode, listed or not, is the one that was stored before.
pub proof fn law_removed_episode_keeps_state(
    s: StoreView,
    url: Seq<char>,
    hint: i32,
    feed: ParsedChannelView,
    enclosure: Seq<char>,
)
    requires
        forall|i: int| 0 <= i < feed.items.len() ==> (#[trigger] feed.items[i]).enclosure != Some(enclosure),
    ensures
        ({
            let id = sync_plan(s, url, hint, feed).channel_id;
            let listed = episodes_in(reconciled(s, url, hint, feed), id);
            &&& forall|n: int| 0 <= n < listed.len() ==> (#[trigger] listed[n]).enclosure != enclosure
            &&& state_of(reconciled(s, url, hint, feed).listening, id, enclosure) == state_of(
                s.listening,
                id,
                enclosure,
            )
        }),
{
    let id = sync_plan(s, url, hint, feed).channel_id;
    let listed = episodes_in(reconciled(s, url, hint, feed), id);
    law_reconcile_mirrors_feed(s, url, hint, feed);
    assert forall|n: int| 0 <= n < listed.len() implies (#[trigger] listed[n]).enclosure
        != enclosure by {
        let i = law_rows_come_from_feed(id, url, feed.items, n);
        assert(feed.items[i].enclosure != Some(enclosure));
    }
}

/// Of two reconciliations carried out one after the other, the later one
/// decides the episode set of its channel in full: the set is the later
/// feed's, whatever the earlier one stored.
pub proof fn law_later_sync_wins(
    s: StoreView,
    url: Seq<char>,
    hint: i32,
    earlier: ParsedChannelView,
    later: ParsedChannelView,
)
    ensures
        ({
            let between = reconciled(s, url, hint, earlier);
            let id = sync_plan(between, url, hint, later).channel_id;
            episodes_in(reconciled(between, url, hint, later), id) == episodes_of(
                id,
                url,
                later.items,
            )
        }),
{
    law_reconcile_mirrors_feed(reconciled(s, url, hint, earlier), url, hint, later);
}

impl DataProvider {
    /// Reconciles a parsed feed with the store, as one transaction.
    ///
    /// The channel is the stored channel whose link is the feed's own
    /// link; where there is none, it is `selected_channel_id`, and its row
    /// is written with the feed's title and description and with
    /// `podcast_url` as its link. Every stored episode of the channel is
    /// dropped and the feed's episode set is inserted. Listening states are
    /// not touched.
    ///
    /// Fails exactly when `reconcile_refusal` names a reason, with that
    /// reason, and then the store stays as it is. On success returns the
    /// channel's id.
    pub fn reconcile(
        podcast_url: &str,
        selected_channel_id: i32,
        feed: &ParsedChannel,
        db: &mut Store,
    ) -> (r: Result<i32, PersistenceError>)
        requires
            old(db).wf(),
        ensures
            final(db).wf(),
            match r {
                Ok(id) => {
                    &&& reconcile_refusal(old(db)@, podcast_url@, selected_channel_id, feed@) is None
                    &&& id == sync_plan(old(db)@, podcast_url@, selected_channel_id, feed@).channel_id
                    &&& final(db)@ == reconciled(old(db)@, podcast_url@, selected_channel_id, feed@)
                    &&& episodes_in(final(db)@, id) == episodes_of(id, podcast_url@, feed@.items)
                    &&& final(db)@.listening == old(db)@.listening
                },
                Err(e) => reconcile_refusal(old(db)@, podcast_url@, selected_channel_id, feed@)
                    == Some(e) && final(db)@ == old(db)@,
            },
    {
        let exist = db.find_channel_by_link(feed.link.as_str());
        let plan = match Self::plan(podcast_url, selected_channel_id, exist, feed) {
            Ok(p) => p,
            Err(e) => {
                return Err(e);
            },
        };
        proof {
            law_reconcile_mirrors_feed(db@, podcast_url@, selected_channel_id, feed@);
        }
        match db.commit(&plan) {
            Ok(_) => Ok(plan.channel_id()),
            Err(e) => Err(e),
        }
    }

    /// Synchronises a channel from the body of its feed.
    ///
    /// `content` is what the fetch of `podcast_url` returned. Where it is
    /// not taken for a feed, as `feed_in` says, the call fails with `Fetch`
    /// and the store stays as it is. Otherwise the feed is reconciled as `reconcile` says,
    /// and a refusal of the store comes back as `Persistence`.
    pub fn fetch_data(podcast_url: &str, selected_channel_id: i32, content: &str, db: &mut Store)
        -> (r: Result<i32, SyncError>)
        requires
            old(db).wf(),
        ensures
            final(db).wf(),
            match feed_in(content@) {
                None => r is Err && r->Err_0 is Fetch && final(db)@ == old(db)@,
                Some(feed) => match r {
                    Ok(id) => {
                        &&& reconcile_refusal(old(db)@, podcast_url@, selected_channel_id, feed) is None
                        &&& id == sync_plan(old(db)@, podcast_url@, selected_channel_id, feed).channel_id
                        &&& final(db)@ == reconciled(old(db)@, podcast_url@, selected_channel_id, feed)
                    },
                    Err(e) => {
                        &&& e matches SyncError::Persistence(why)
                        &&& reconcile_refusal(old(db)@, podcast_url@, selected_channel_id, feed)
                            == Some(why)
                        &&& final(db)@ == old(db)@
                    },
                },
            },
    {
        match parse_feed(content) {
            Err(e) => Err(SyncError::Fetch(e)),
            Ok(feed) => match Self::reconcile(podcast_url, selected_channel_id, &feed, db) {
                Ok(id) => Ok(id),
                Err(e) => Err(SyncError::Persistence(e)),
            },
        }
    }
}

} // verus!
