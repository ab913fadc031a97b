//! Episode listing: the episodes of a channel, each joined with its
//! listening state, in the order in which they are shown.

use vstd::prelude::*;
use vstd::seq_lib::{to_multiset_build, to_multiset_insert};
use crate::data_layer::data_provider::DataProvider;
use crate::entity::channel_item;
use crate::entity::listening_state;
use crate::store::{Store, StoreView, episodes_in, in_channel, state_of};
use crate::ui_models::{ChannelItem, ChannelItemView, joined};

verus! {

/// The listening states related to an episode: the one stored for it, or
/// none.
pub open spec fn related(
    listening: Seq<listening_state::ModelView>,
    channel_id: i32,
    enclosure: Seq<char>,
) -> Seq<listening_state::ModelView> {
    match state_of(listening, channel_id, enclosure) {
        Some(row) => seq![row],
        None => Seq::empty(),
    }
}

/// Joins an episode with its listening state.
pub open spec fn listed(listening: Seq<listening_state::ModelView>) -> spec_fn(
    channel_item::ModelView,
) -> ChannelItemView {
    |e: channel_item::ModelView| joined(e, related(listening, e.channel_id, e.enclosure))
}

/// The episodes of a channel joined with their listening states, in
/// stored order.
pub open spec fn listing(s: StoreView, channel_id: i32) -> Seq<ChannelItemView> {
    episodes_in(s, channel_id).map_values(listed(s.listening))
}

/// Whether `a` may stand before `b` in a listing: the later publish date
/// first, a dated episode before an undated one, and the lower rank first
/// where the dates are the same instant or both are missing.
pub open spec fn may_precede(a: ChannelItemView, b: ChannelItemView) -> bool {
    match (a.pub_date, b.pub_date) {
        (Some(x), Some(y)) => x.is_after(y) || (x.same_instant(y) && a.ordering <= b.ordering),
        (Some(_), None) => true,
        (None, Some(_)) => false,
        (None, None) => a.ordering <= b.ordering,
    }
}

/// Whether a listing stands in listing order.
pub open spec fn in_listing_order(items: Seq<ChannelItemView>) -> bool {
    forall|i: int, j: int|
        0 <= i < j < items.len() ==> may_precede(#[trigger] items[i], #[trigger] items[j])
}

fn precedes(a: &ChannelItem, b: &ChannelItem) -> (r: bool)
    ensures
        r == may_precede(a@, b@),
{
    match (&a.pub_date, &b.pub_date) {
        (Some(x), Some(y)) => x.after(y) || (!y.after(x) && a.ordering <= b.ordering),
        (Some(_), None) => true,
        (None, Some(_)) => false,
        (None, None) => a.ordering <= b.ordering,
    }
}

fn place(sorted: &mut Vec<ChannelItem>, item: ChannelItem)
    requires
        in_listing_order(old(sorted).deep_view()),
    ensures
        in_listing_order(final(sorted).deep_view()),
        final(sorted).deep_view().to_multiset() == old(sorted).deep_view().to_multiset().insert(
            item@,
        ),
{
    let ghost before = sorted.deep_view();
    let mut at: usize = 0;
    while at < sorted.len() && precedes(&sorted[at], &item)
        invariant
            at <= sorted.len(),
            sorted.deep_view() == before,
            forall|i: int| 0 <= i < at ==> may_precede(#[trigger] before[i], item@),
        decreases sorted.len() - at,
    {
        at += 1;
    }
    sorted.insert(at, item);
    proof {
        let after = sorted.deep_view();
        assert(after == before.insert(at as int, item@));
        to_multiset_insert(before, at as int, item@);
        assert forall|i: int, j: int| 0 <= i < j < after.len() implies may_precede(
            #[trigger] after[i],
            #[trigger] after[j],
        ) by {
            if j < at {
                assert(after[i] == before[i] && after[j] == before[j]);
            } else if j == at {
                assert(after[i] == before[i]);
            } else if i < at {
                assert(after[i] == before[i] && after[j] == before[j - 1]);
            } else if i == at {
                assert(after[j] == before[j - 1]);
                assert(!may_precede(before[at as int], item@));
                if j - 1 > at {
                    assert(may_precede(before[at as int], before[j - 1]));
                }
            } else {
                assert(after[i] == before[i - 1] && after[j] == before[j - 1]);
            }
        }
    }
}

/// The listings of episode rows that come with their related listening
/// states, in the order of the rows.
pub open spec fn joined_all(
    entries: Seq<(channel_item::ModelView, Seq<listening_state::ModelView>)>,
) -> Seq<ChannelItemView> {
    entries.map_values(
        |e: (channel_item::ModelView, Seq<listening_state::ModelView>)| joined(e.0, e.1),
    )
}

impl DataProvider {
    /// Makes the listing of episode rows that were read with their related
    /// listening states, in whatever order.
    ///
    /// The result holds the listing of each row once, and stands in listing
    /// order.
    pub fn list_items(entries: &Vec<(channel_item::Model, Vec<listening_state::Model>)>) -> (r: Vec<
        ChannelItem,
    >)
        ensures
            r.deep_view().to_multiset() == joined_all(entries.deep_view()).to_multiset(),
            in_listing_order(r.deep_view()),
    {
        let ghost all = entries.deep_view();
        let mut out: Vec<ChannelItem> = Vec::new();
        let mut i: usize = 0;
        assert(out.deep_view() == joined_all(all.take(0)));
        while i < entries.len()
            invariant
                i <= entries.len(),
                all == entries.deep_view(),
                in_listing_order(out.deep_view()),
                out.deep_view().to_multiset() == joined_all(all.take(i as int)).to_multiset(),
            decreases entries.len() - i,
        {
            let item = ChannelItem::from(&entries[i]);
            proof {
                assert(item@ == joined(all[i as int].0, all[i as int].1));
                assert(joined_all(all.take(i + 1)) == joined_all(all.take(i as int)).push(item@));
                to_multiset_build(joined_all(all.take(i as int)), item@);
            }
            place(&mut out, item);
            i += 1;
        }
        assert(all.take(i as int) == all);
        out
    }

    /// Lists the episodes of a channel.
    ///
    /// The result holds the stored episodes of `channel_id`, each once and
    /// each joined with the listening state stored for it, if any. They stand
    /// in listing order: by publish date, the latest first, and by rank where
    /// dates are equal or missing.
    pub fn get_items_from_db(channel_id: i32, db: &Store) -> (r: Vec<ChannelItem>)
        requires
            db.wf(),
        ensures
            r.deep_view().to_multiset() == listing(db@, channel_id).to_multiset(),
            in_listing_order(r.deep_view()),
    {
        let rows = db.episodes();
        let ghost all = db@.episodes;
        let ghost join = listed(db@.listening);
        let mut out: Vec<ChannelItem> = Vec::new();
        let mut i: usize = 0;
        assert(out.deep_view() == all.take(0).filter(in_channel(channel_id)).map_values(join)) by {
            reveal(Seq::filter);
        }
        while i < rows.len()
            invariant
                db.wf(),
                i <= rows.len(),
                rows.deep_view() == all,
                all == db@.episodes,
                join == listed(db@.listening),
                in_listing_order(out.deep_view()),
                out.deep_view().to_multiset() == all.take(i as int).filter(
                    in_channel(channel_id),
                ).map_values(join).to_multiset(),
            decreases rows.len() - i,
        {
            let row = &rows[i];
            proof {
                let seen = all.take(i as int);
                assert(all.take(i + 1) == seen.push(all[i as int]));
                seen.lemma_filter_push(all[i as int], in_channel(channel_id));
                if in_channel(channel_id)(all[i as int]) {
                    let kept = seen.filter(in_channel(channel_id));
                    assert(kept.push(all[i as int]).map_values(join) == kept.map_values(join).push(
                        join(all[i as int]),
                    ));
                    to_multiset_build(kept.map_values(join), join(all[i as int]));
                }
            }
            if row.channel_id == channel_id {
                let states = match db.find_state(row.channel_id, row.enclosure.as_str()) {
                    Some(state) => vec![state],
                    None => Vec::new(),
                };
                assert(states.deep_view() == related(
                    db@.listening,
                    row@.channel_id,
                    row@.enclosure,
                ));
                let entry = (row.clone(), states);
                let item = ChannelItem::from(&entry);
                assert(item@ == join(all[i as int]));
                place(&mut out, item);
            }
            i += 1;
        }
        assert(all.take(i as int) == all);
        out
    }
}

} // verus!
