//! The writes of one synchronisation, decided before the store is
//! touched.

use vstd::prelude::*;
use crate::data_layer::data_provider::DataProvider;
use crate::data_layer::episodes::{
    episodes, episodes_of, law_ranks_are_dense, law_rows_are_distinct, lemma_origins,
};
use crate::entity::channel;
use crate::entity::channel_item::{Model, ModelView};
use crate::error::PersistenceError;
use crate::feed::{ParsedChannel, ParsedChannelView};

verus! {

/// The number of rows that one insert carries at most.
pub const BATCH_SIZE: usize = 500;

/// The number of inserts that `n` rows take.
pub open spec fn batch_count(n: int) -> int {
    (n + BATCH_SIZE - 1) / (BATCH_SIZE as int)
}

/// The rows of insert number `b`: the next `BATCH_SIZE` rows, or the rest
/// where fewer are left.
pub open spec fn batch<A>(rows: Seq<A>, b: int) -> Seq<A> {
    rows.subrange(
        b * BATCH_SIZE,
        if (b + 1) * BATCH_SIZE < rows.len() {
            (b + 1) * BATCH_SIZE
        } else {
            rows.len() as int
        },
    )
}

/// The writes of one synchronisation, to be carried out as one transaction:
/// write `channel` where there is one, delete every episode of
/// `channel_id`, insert `episodes`.
#[derive(Debug)]
pub struct SyncPlan {
    channel_id: i32,
    channel: Option<channel::Model>,
    episodes: Vec<Model>,
}

/// The mathematical value of a plan.
pub struct SyncPlanView {
    pub channel_id: i32,
    pub channel: Option<channel::ModelView>,
    pub episodes: Seq<ModelView>,
}

impl View for SyncPlan {
    type V = SyncPlanView;

    closed spec fn view(&self) -> SyncPlanView {
        SyncPlanView {
            channel_id: self.channel_id,
            channel: self.channel.deep_view(),
            episodes: self.episodes.deep_view(),
        }
    }
}

/// The plan that a feed calls for.
///
/// `exist` is the id of the stored channel whose link is the feed's own
/// link, if there is one. That id is then the channel's, and its row stays as
/// it is. Otherwise the channel is `hint`, and its row is written with the
/// feed's title and description and with `url` as its link.
pub open spec fn plan_of(url: Seq<char>, hint: i32, exist: Option<i32>, feed: ParsedChannelView)
    -> SyncPlanView {
    let channel_id = match exist {
        Some(id) => id,
        None => hint,
    };
    SyncPlanView {
        channel_id,
        channel: match exist {
            Some(_) => None,
            None => Some(
                channel::ModelView {
                    id: hint,
                    title: Some(feed.title),
                    link: Some(url),
                    description: Some(feed.description),
                },
            ),
        },
        episodes: episodes_of(channel_id, url, feed.items),
    }
}

impl SyncPlan {
    /// A plan whose episodes all belong to its channel, at most one for each
    /// enclosure.
    pub open spec fn wf(&self) -> bool {
        &&& forall|n: int|
            0 <= n < self@.episodes.len() ==> (#[trigger] self@.episodes[n]).channel_id
                == self@.channel_id
        &&& forall|m: int, n: int|
            0 <= m < n < self@.episodes.len() ==> (#[trigger] self@.episodes[m]).enclosure != (
            #[trigger] self@.episodes[n]).enclosure
        &&& self@.channel matches Some(row) ==> row.id == self@.channel_id
    }

    /// The channel that the plan is for.
    pub fn channel_id(&self) -> (r: i32)
        ensures
            r == self@.channel_id,
    {
        self.channel_id
    }

    /// The channel row to write, if any.
    pub fn channel(&self) -> (r: &Option<channel::Model>)
        ensures
            r.deep_view() == self@.channel,
    {
        &self.channel
    }

    /// The episode rows to insert.
    pub fn episodes(&self) -> (r: &Vec<Model>)
        ensures
            r.deep_view() == self@.episodes,
    {
        &self.episodes
    }

    /// Cuts the episode rows into inserts of at most `BATCH_SIZE` rows, in
    /// order, none of them empty.
    pub fn batches(&self) -> (r: Vec<Vec<Model>>)
        ensures
            r.len() == batch_count(self@.episodes.len() as int),
            forall|b: int|
                0 <= b < r.len() ==> (#[trigger] r[b]).deep_view() == batch(self@.episodes, b),
    {
        let rows = &self.episodes;
        let ghost all = rows.deep_view();
        let mut out: Vec<Vec<Model>> = Vec::new();
        let mut start: usize = 0;
        while start < rows.len()
            invariant
                all == rows.deep_view(),
                start <= rows.len(),
                start == rows.len() || start == out.len() * BATCH_SIZE,
                out.len() == batch_count(start as int),
                forall|b: int| 0 <= b < out.len() ==> (#[trigger] out[b]).deep_view() == batch(all, b),
            decreases rows.len() - start,
        {
            let end = if rows.len() - start > BATCH_SIZE {
                start + BATCH_SIZE
            } else {
                rows.len()
            };
            let mut chunk: Vec<Model> = Vec::new();
            let mut k: usize = start;
            while k < end
                invariant
                    all == rows.deep_view(),
                    start <= k <= end <= rows.len(),
                    chunk.deep_view() == all.subrange(start as int, k as int),
                decreases end - k,
            {
                let ghost before = chunk.deep_view();
                let row = rows[k].clone();
                assert(row@ == all[k as int]);
                chunk.push(row);
                assert(chunk.deep_view() == before.push(all[k as int]));
                k += 1;
            }
            assert(chunk.deep_view() == batch(all, out.len() as int));
            out.push(chunk);
            start = end;
        }
        out
    }
}

/// The plan's rows belong to the plan's channel, one for each enclosure.
pub proof fn lemma_plan_rows(url: Seq<char>, hint: i32, exist: Option<i32>, feed: ParsedChannelView)
    ensures
        ({
            let plan = plan_of(url, hint, exist, feed);
            &&& forall|n: int|
                0 <= n < plan.episodes.len() ==> (#[trigger] plan.episodes[n]).channel_id
                    == plan.channel_id
            &&& forall|m: int, n: int|
                0 <= m < n < plan.episodes.len() ==> (#[trigger] plan.episodes[m]).enclosure != (
                #[trigger] plan.episodes[n]).enclosure
        }),
{
    let plan = plan_of(url, hint, exist, feed);
    lemma_origins(plan.channel_id, url, feed.items);
    assert forall|m: int, n: int| 0 <= m < n < plan.episodes.len() implies (
    #[trigger] plan.episodes[m]).enclosure != (#[trigger] plan.episodes[n]).enclosure by {
        law_rows_are_distinct(plan.channel_id, url, feed.items, m, n);
    }
}

fn channel_row(podcast_url: &str, hint: i32, feed: &ParsedChannel) -> (r: channel::Model)
    ensures
        r@ == (channel::ModelView {
            id: hint,
            title: Some(feed@.title),
            link: Some(podcast_url@),
            description: Some(feed@.description),
        }),
{
    channel::Model {
        id: hint,
        title: Some(feed.title.clone()),
        link: Some(podcast_url.to_owned()),
        description: Some(feed.description.clone()),
    }
}

impl DataProvider {
    /// Decides the writes of a synchronisation.
    ///
    /// `podcast_url` is the address the feed was fetched from,
    /// `selected_channel_id` the id of the channel that was refreshed, `exist`
    /// the outcome of looking up the feed's own link among the stored
    /// channels.
    ///
    /// Fails, with `OutOfRange`, exactly when the feed has more episodes than
    /// there are ranks.
    pub fn plan(
        podcast_url: &str,
        selected_channel_id: i32,
        exist: Option<i32>,
        feed: &ParsedChannel,
    ) -> (r: Result<SyncPlan, PersistenceError>)
        ensures
            match r {
                Ok(p) => p@ == plan_of(podcast_url@, selected_channel_id, exist, feed@) && p.wf()
                    && p@.episodes.len() <= i32::MAX,
                Err(e) => e == PersistenceError::OutOfRange && plan_of(
                    podcast_url@,
                    selected_channel_id,
                    exist,
                    feed@,
                ).episodes.len() > i32::MAX,
            },
    {
        let channel_id = match exist {
            Some(id) => id,
            None => selected_channel_id,
        };
        let channel = match exist {
            Some(_) => None,
            None => Some(channel_row(podcast_url, selected_channel_id, feed)),
        };
        match episodes(channel_id, podcast_url, &feed.items) {
            Ok(rows) => {
                let p = SyncPlan { channel_id, channel, episodes: rows };
                proof {
                    let items = feed@.items;
                    assert forall|n: int| 0 <= n < p@.episodes.len() implies (
                    #[trigger] p@.episodes[n]).channel_id == p@.channel_id by {
                        law_ranks_are_dense(channel_id, podcast_url@, items, n);
                    }
                    assert forall|m: int, n: int| 0 <= m < n < p@.episodes.len() implies (
                    #[trigger] p@.episodes[m]).enclosure != (#[trigger] p@.episodes[n]).enclosure by {
                        law_rows_are_distinct(channel_id, podcast_url@, items, m, n);
                    }
                }
                Ok(p)
            },
            Err(e) => Err(e),
        }
    }
}

} // verus!
