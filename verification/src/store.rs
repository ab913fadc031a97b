//! The persisted state: three relations and the constraints they enforce.
//!
//! `Store` keeps the relations in memory. It is the model that the engine's
//! operations are stated and proved against; a database that holds the same
//! relations under the same constraints takes the same writes.

use vstd::prelude::*;
use crate::data_layer::plan::{SyncPlan, SyncPlanView};
use crate::data_layer::listening_state_data_layer::{StateWrite, StateWriteView};
use crate::entity::channel;
use crate::entity::channel_item;
use crate::entity::listening_state;
use crate::entity::listening_state::Position;
use crate::error::PersistenceError;
use crate::text::opt_eq;

verus! {

/// The mathematical value of a store: the rows of each relation in the
/// order in which they were written, and the next surrogate key of the
/// listening-state relation.
pub struct StoreView {
    pub channels: Seq<channel::ModelView>,
    pub episodes: Seq<channel_item::ModelView>,
    pub listening: Seq<listening_state::ModelView>,
    pub next_id: i32,
}

/// No two channels share an id, and no two share a link; channels
/// without a link are not held against each other.
pub open spec fn channels_distinct(channels: Seq<channel::ModelView>) -> bool {
    forall|i: int, j: int|
        0 <= i < j < channels.len() ==> (#[trigger] channels[i]).id != (#[trigger] channels[j]).id
            && (channels[i].link is Some ==> channels[i].link != channels[j].link)
}

/// No two episodes share `(channel_id, enclosure)`.
pub open spec fn episodes_distinct(episodes: Seq<channel_item::ModelView>) -> bool {
    forall|i: int, j: int|
        0 <= i < j < episodes.len() ==> !((#[trigger] episodes[i]).channel_id == (
        #[trigger] episodes[j]).channel_id && episodes[i].enclosure == episodes[j].enclosure)
}

/// No two listening states name the same episode or share a surrogate key,
/// every key was handed out by the store, and a finished episode stands at
/// its start.
pub open spec fn listening_distinct(listening: Seq<listening_state::ModelView>, next_id: i32)
    -> bool {
    &&& forall|i: int, j: int|
        0 <= i < j < listening.len() ==> (#[trigger] listening[i]).id != (
        #[trigger] listening[j]).id && !(listening[i].channel_id == listening[j].channel_id
            && listening[i].channel_item_enclosure == listening[j].channel_item_enclosure)
    &&& forall|i: int|
        0 <= i < listening.len() ==> (#[trigger] listening[i]).id < next_id && (listening[i].finished
            ==> listening[i].time == Position::start())
}

/// The constraints of the persisted schema.
pub open spec fn well_formed(s: StoreView) -> bool {
    &&& channels_distinct(s.channels)
    &&& episodes_distinct(s.episodes)
    &&& listening_distinct(s.listening, s.next_id)
}

/// Selects the episodes of one channel.
pub open spec fn in_channel(channel_id: i32) -> spec_fn(channel_item::ModelView) -> bool {
    |e: channel_item::ModelView| e.channel_id == channel_id
}

/// Selects the episodes of all channels but one.
pub open spec fn not_in_channel(channel_id: i32) -> spec_fn(channel_item::ModelView) -> bool {
    |e: channel_item::ModelView| e.channel_id != channel_id
}

/// The stored episode set of a channel, in stored order.
pub open spec fn episodes_in(s: StoreView, channel_id: i32) -> Seq<channel_item::ModelView> {
    s.episodes.filter(in_channel(channel_id))
}

/// Whether some channel has the link `link`.
pub open spec fn has_link(channels: Seq<channel::ModelView>, link: Seq<char>) -> bool {
    exists|i: int| 0 <= i < channels.len() && (#[trigger] channels[i]).link == Some(link)
}

/// The id of the channel whose link is `link`, if there is one.
pub open spec fn channel_by_link(channels: Seq<channel::ModelView>, link: Seq<char>) -> Option<i32> {
    if has_link(channels, link) {
        let i = choose|i: int| 0 <= i < channels.len() && (#[trigger] channels[i]).link == Some(link);
        Some(channels[i].id)
    } else {
        None
    }
}

/// Whether some channel has the id `id`.
pub open spec fn has_id(channels: Seq<channel::ModelView>, id: i32) -> bool {
    exists|i: int| 0 <= i < channels.len() && (#[trigger] channels[i]).id == id
}

/// Whether a channel other than `row` already has `row`'s link.
pub open spec fn link_taken(channels: Seq<channel::ModelView>, row: channel::ModelView) -> bool {
    row.link is Some && exists|i: int|
        0 <= i < channels.len() && (#[trigger] channels[i]).id != row.id && channels[i].link
            == row.link
}

/// Whether a listening state is stored for an episode.
pub open spec fn has_state(
    listening: Seq<listening_state::ModelView>,
    channel_id: i32,
    enclosure: Seq<char>,
) -> bool {
    exists|i: int|
        0 <= i < listening.len() && (#[trigger] listening[i]).channel_id == channel_id
            && listening[i].channel_item_enclosure == enclosure
}

/// The position of the listening state of an episode.
pub open spec fn index_of_state(
    listening: Seq<listening_state::ModelView>,
    channel_id: i32,
    enclosure: Seq<char>,
) -> int {
    choose|i: int|
        0 <= i < listening.len() && (#[trigger] listening[i]).channel_id == channel_id
            && listening[i].channel_item_enclosure == enclosure
}

/// The listening state of an episode, if one is stored.
pub open spec fn state_of(
    listening: Seq<listening_state::ModelView>,
    channel_id: i32,
    enclosure: Seq<char>,
) -> Option<listening_state::ModelView> {
    if has_state(listening, channel_id, enclosure) {
        Some(listening[index_of_state(listening, channel_id, enclosure)])
    } else {
        None
    }
}

/// Whether a listening state has the surrogate key `id`.
pub open spec fn has_state_id(listening: Seq<listening_state::ModelView>, id: i32) -> bool {
    exists|i: int| 0 <= i < listening.len() && (#[trigger] listening[i]).id == id
}

/// The position of the listening state with the surrogate key `id`.
pub open spec fn index_of_state_id(listening: Seq<listening_state::ModelView>, id: i32) -> int {
    choose|i: int| 0 <= i < listening.len() && (#[trigger] listening[i]).id == id
}

/// Whether a listening state other than `row` names `row`'s episode.
pub open spec fn episode_taken(
    listening: Seq<listening_state::ModelView>,
    row: listening_state::ModelView,
) -> bool {
    exists|i: int|
        0 <= i < listening.len() && (#[trigger] listening[i]).id != row.id
            && listening[i].channel_id == row.channel_id && listening[i].channel_item_enclosure
            == row.channel_item_enclosure
}

/// Why the store refuses a write to the listening-state relation, if it
/// does.
///
/// An insert is refused where the episode already has a state, and where no
/// surrogate key is left. An update is refused where no row has its key, and
/// where it would give the row the episode of another row.
pub open spec fn write_refusal(s: StoreView, w: StateWriteView) -> Option<PersistenceError> {
    match w {
        StateWriteView::Insert { channel_id, enclosure, time } => if has_state(
            s.listening,
            channel_id,
            enclosure,
        ) {
            Some(PersistenceError::UniqueViolation)
        } else if s.next_id == i32::MAX {
            Some(PersistenceError::OutOfRange)
        } else {
            None
        },
        StateWriteView::Update(row) => if !has_state_id(s.listening, row.id) {
            Some(PersistenceError::NotFound)
        } else if episode_taken(s.listening, row) {
            Some(PersistenceError::UniqueViolation)
        } else {
            None
        },
        StateWriteView::Nothing => None,
    }
}

/// The store after a write to the listening-state relation: an insert adds
/// an unfinished row under the next surrogate key, an update replaces the row
/// of the same key.
pub open spec fn written(s: StoreView, w: StateWriteView) -> StoreView {
    match w {
        StateWriteView::Insert { channel_id, enclosure, time } => StoreView {
            listening: s.listening.push(
                listening_state::ModelView {
                    id: s.next_id,
                    channel_id,
                    channel_item_enclosure: enclosure,
                    time,
                    finished: false,
                },
            ),
            next_id: (s.next_id + 1) as i32,
            ..s
        },
        StateWriteView::Update(row) => StoreView {
            listening: s.listening.update(index_of_state_id(s.listening, row.id), row),
            ..s
        },
        StateWriteView::Nothing => s,
    }
}

/// In a store that meets its constraints, the state of an episode is the
/// one row that names it.
pub proof fn lemma_state_of(listening: Seq<listening_state::ModelView>, next_id: i32, i: int)
    requires
        listening_distinct(listening, next_id),
        0 <= i < listening.len(),
    ensures
        has_state(listening, listening[i].channel_id, listening[i].channel_item_enclosure),
        index_of_state(listening, listening[i].channel_id, listening[i].channel_item_enclosure)
            == i,
        has_state_id(listening, listening[i].id),
        index_of_state_id(listening, listening[i].id) == i,
{
    let j = index_of_state(listening, listening[i].channel_id, listening[i].channel_item_enclosure);
    if j < i {
        assert(listening[j].id != listening[i].id);
    } else if i < j {
        assert(listening[i].id != listening[j].id);
    }
    let k = index_of_state_id(listening, listening[i].id);
    if k < i {
        assert(listening[k].id != listening[i].id);
    } else if i < k {
        assert(listening[i].id != listening[k].id);
    }
}

/// A write that the store does not refuse leaves it within its
/// constraints.
pub proof fn lemma_written_wf(s: StoreView, w: StateWriteView)
    requires
        well_formed(s),
        w matches StateWriteView::Update(row) ==> (row.finished ==> row.time == Position::start()),
        write_refusal(s, w) is None,
    ensures
        well_formed(written(s, w)),
{
    let before = s.listening;
    let after = written(s, w).listening;
    let next = written(s, w).next_id;
    match w {
        StateWriteView::Insert { channel_id, enclosure, time } => {
            assert forall|i: int, j: int| 0 <= i < j < after.len() implies (#[trigger] after[i]).id
                != (#[trigger] after[j]).id && !(after[i].channel_id == after[j].channel_id
                && after[i].channel_item_enclosure == after[j].channel_item_enclosure) by {
                assert(after[i] == before[i]);
                if j < before.len() {
                    assert(after[j] == before[j]);
                }
            }
            assert forall|i: int| 0 <= i < after.len() implies (#[trigger] after[i]).id < next && (
            after[i].finished ==> after[i].time == Position::start()) by {
                if i < before.len() {
                    assert(after[i] == before[i]);
                }
            }
        },
        StateWriteView::Update(row) => {
            let at = index_of_state_id(before, row.id);
            assert forall|i: int, j: int| 0 <= i < j < after.len() implies (#[trigger] after[i]).id
                != (#[trigger] after[j]).id && !(after[i].channel_id == after[j].channel_id
                && after[i].channel_item_enclosure == after[j].channel_item_enclosure) by {
                assert(before[i].id != before[j].id);
                if i == at {
                    assert(before[j].id != row.id);
                } else if j == at {
                    assert(before[i].id != row.id);
                }
            }
            assert forall|i: int| 0 <= i < after.len() implies (#[trigger] after[i]).id < next && (
            after[i].finished ==> after[i].time == Position::start()) by {
                assert(before[i].id < s.next_id);
            }
        },
        StateWriteView::Nothing => {},
    }
}

/// The position of the channel with id `id`.
pub open spec fn index_of_id(channels: Seq<channel::ModelView>, id: i32) -> int {
    choose|i: int| 0 <= i < channels.len() && (#[trigger] channels[i]).id == id
}

/// The channel relation after `row` is written: in place of the row with
/// the same id where there is one, else as a new last row.
pub open spec fn upserted(channels: Seq<channel::ModelView>, row: channel::ModelView) -> Seq<
    channel::ModelView,
> {
    if has_id(channels, row.id) {
        channels.update(index_of_id(channels, row.id), row)
    } else {
        channels.push(row)
    }
}

/// Whether the store refuses a plan: its channel row would repeat the link
/// of another channel.
pub open spec fn commit_refused(s: StoreView, plan: SyncPlanView) -> bool {
    plan.channel matches Some(row) && link_taken(s.channels, row)
}

/// The store after a plan is carried out: the channel row written, and the
/// episodes of the plan's channel replaced, all of them, by the plan's.
pub open spec fn committed(s: StoreView, plan: SyncPlanView) -> StoreView {
    StoreView {
        channels: match plan.channel {
            Some(row) => upserted(s.channels, row),
            None => s.channels,
        },
        episodes: s.episodes.filter(not_in_channel(plan.channel_id)) + plan.episodes,
        listening: s.listening,
        next_id: s.next_id,
    }
}

/// Dropping rows leaves the remaining episodes distinct.
pub proof fn lemma_filter_distinct(
    episodes: Seq<channel_item::ModelView>,
    pred: spec_fn(channel_item::ModelView) -> bool,
)
    requires
        episodes_distinct(episodes),
    ensures
        episodes_distinct(episodes.filter(pred)),
    decreases episodes.len(),
{
    reveal(Seq::filter);
    if episodes.len() > 0 {
        let front = episodes.drop_last();
        let last = episodes.last();
        assert(episodes_distinct(front)) by {
            assert forall|i: int, j: int| 0 <= i < j < front.len() implies !((
            #[trigger] front[i]).channel_id == (#[trigger] front[j]).channel_id && front[i].enclosure
                == front[j].enclosure) by {
                assert(front[i] == episodes[i] && front[j] == episodes[j]);
            }
        }
        lemma_filter_distinct(front, pred);
        let rest = front.filter(pred);
        if pred(last) {
            let all = episodes.filter(pred);
            assert forall|i: int, j: int| 0 <= i < j < all.len() implies !((
            #[trigger] all[i]).channel_id == (#[trigger] all[j]).channel_id && all[i].enclosure
                == all[j].enclosure) by {
                if j < rest.len() {
                    assert(all[i] == rest[i] && all[j] == rest[j]);
                } else {
                    assert(rest.contains(rest[i]));
                    front.lemma_filter_contains_rev(pred, rest[i]);
                    let k = choose|k: int| 0 <= k < front.len() && front[k] == rest[i];
                    assert(episodes[k] == all[i]);
                    assert(episodes[episodes.len() - 1] == all[j]);
                }
            }
        }
    }
}

/// Replacing the episodes of one channel by distinct episodes of that
/// channel leaves the relation distinct.
pub proof fn lemma_replace_distinct(
    episodes: Seq<channel_item::ModelView>,
    channel_id: i32,
    rows: Seq<channel_item::ModelView>,
)
    requires
        episodes_distinct(episodes),
        forall|n: int| 0 <= n < rows.len() ==> (#[trigger] rows[n]).channel_id == channel_id,
        forall|m: int, n: int|
            0 <= m < n < rows.len() ==> (#[trigger] rows[m]).enclosure != (
            #[trigger] rows[n]).enclosure,
    ensures
        episodes_distinct(episodes.filter(not_in_channel(channel_id)) + rows),
{
    let others = episodes.filter(not_in_channel(channel_id));
    let all = others + rows;
    lemma_filter_distinct(episodes, not_in_channel(channel_id));
    assert forall|i: int, j: int| 0 <= i < j < all.len() implies !((#[trigger] all[i]).channel_id
        == (#[trigger] all[j]).channel_id && all[i].enclosure == all[j].enclosure) by {
        if j < others.len() {
            assert(all[i] == others[i] && all[j] == others[j]);
        } else if i < others.len() {
            episodes.lemma_filter_pred(not_in_channel(channel_id), i);
            assert(all[i] == others[i]);
            assert(all[j] == rows[j - others.len()]);
        } else {
            assert(all[i] == rows[i - others.len()]);
            assert(all[j] == rows[j - others.len()]);
        }
    }
}

/// Writing a row whose link no other channel has leaves the channels
/// distinct.
pub proof fn lemma_upsert_distinct(channels: Seq<channel::ModelView>, row: channel::ModelView)
    requires
        channels_distinct(channels),
        !link_taken(channels, row),
    ensures
        channels_distinct(upserted(channels, row)),
{
    let after = upserted(channels, row);
    if has_id(channels, row.id) {
        let at = index_of_id(channels, row.id);
        assert forall|i: int, j: int| 0 <= i < j < after.len() implies (#[trigger] after[i]).id != (
        #[trigger] after[j]).id && (after[i].link is Some ==> after[i].link != after[j].link) by {
            assert(channels[i].id != channels[j].id);
            assert(channels[i].link is Some ==> channels[i].link != channels[j].link);
            if i == at {
                assert(channels[j].id != row.id);
            } else if j == at {
                assert(channels[i].id != row.id);
            }
        }
    } else {
        assert forall|i: int, j: int| 0 <= i < j < after.len() implies (#[trigger] after[i]).id != (
        #[trigger] after[j]).id && (after[i].link is Some ==> after[i].link != after[j].link) by {
            if j < channels.len() {
                assert(channels[i].id != channels[j].id);
            } else {
                assert(channels[i].id != row.id);
            }
        }
    }
}

/// The channels that a new store is seeded with.
pub open spec fn seed_channels() -> Seq<channel::ModelView> {
    seq![
        channel::ModelView {
            id: 1,
            title: Some("Dasko i Mladja"@),
            link: Some("https://podcast.daskoimladja.com/feed.xml"@),
            description: Some("fake..."@),
        },
        channel::ModelView {
            id: 2,
            title: Some("Agelast"@),
            link: Some("https://feeds.transistor.fm/agelast-podcast"@),
            description: Some("fake..."@),
        },
    ]
}

/// The two seeded channels have different links.
pub proof fn lemma_seed_links_differ()
    ensures
        "https://podcast.daskoimladja.com/feed.xml"@
            != "https://feeds.transistor.fm/agelast-podcast"@,
{
    reveal_strlit("https://podcast.daskoimladja.com/feed.xml");
    reveal_strlit("https://feeds.transistor.fm/agelast-podcast");
    assert("https://podcast.daskoimladja.com/feed.xml"@[8] == 'p');
    assert("https://feeds.transistor.fm/agelast-podcast"@[8] == 'f');
}

/// The persisted relations, held in memory.
pub struct Store {
    channels: Vec<channel::Model>,
    episodes: Vec<channel_item::Model>,
    listening: Vec<listening_state::Model>,
    next_id: i32,
}

impl View for Store {
    type V = StoreView;

    closed spec fn view(&self) -> StoreView {
        StoreView {
            channels: self.channels.deep_view(),
            episodes: self.episodes.deep_view(),
            listening: self.listening.deep_view(),
            next_id: self.next_id,
        }
    }
}

impl Store {
    /// Whether the store meets the constraints of the schema.
    pub open spec fn wf(&self) -> bool {
        well_formed(self@)
    }

    /// A store without rows. Its first surrogate key is 1.
    pub fn new() -> (r: Store)
        ensures
            r.wf(),
            r@.channels.len() == 0,
            r@.episodes.len() == 0,
            r@.listening.len() == 0,
            r@.next_id == 1,
    {
        Store { channels: Vec::new(), episodes: Vec::new(), listening: Vec::new(), next_id: 1 }
    }

    /// The channel rows.
    pub fn channels(&self) -> (r: &Vec<channel::Model>)
        ensures
            r.deep_view() == self@.channels,
    {
        &self.channels
    }

    /// The episode rows of all channels.
    pub fn episodes(&self) -> (r: &Vec<channel_item::Model>)
        ensures
            r.deep_view() == self@.episodes,
    {
        &self.episodes
    }

    /// The listening-state rows.
    pub fn listening_states(&self) -> (r: &Vec<listening_state::Model>)
        ensures
            r.deep_view() == self@.listening,
    {
        &self.listening
    }

    /// Looks up the channel whose link is `link`.
    pub fn find_channel_by_link(&self, link: &str) -> (r: Option<i32>)
        requires
            self.wf(),
        ensures
            r == channel_by_link(self@.channels, link@),
    {
        let needle = link.to_owned();
        let mut i: usize = 0;
        while i < self.channels.len()
            invariant
                self.wf(),
                needle@ == link@,
                i <= self.channels.len(),
                forall|k: int| 0 <= k < i ==> (#[trigger] self@.channels[k]).link != Some(link@),
            decreases self.channels.len() - i,
        {
            let hit = match &self.channels[i].link {
                Some(l) => *l == needle,
                None => false,
            };
            if hit {
                proof {
                    let v = self@.channels;
                    assert(v[i as int].link == Some(link@));
                    let j = choose|j: int| 0 <= j < v.len() && (#[trigger] v[j]).link == Some(link@);
                    assert(j == i) by {
                        if j < i {
                            assert(v[j].link != v[i as int].link);
                        } else if i < j {
                            assert(v[i as int].link != v[j].link);
                        }
                    }
                }
                return Some(self.channels[i].id);
            }
            i += 1;
        }
        None
    }

    /// Inserts a channel row. The store refuses it, and stays as it is, exactly
    /// when the row's id or its link is already a channel's.
    pub fn insert_channel(&mut self, row: channel::Model) -> (r: Result<(), PersistenceError>)
        requires
            old(self).wf(),
        ensures
            final(self).wf(),
            match r {
                Ok(_) => !has_id(old(self)@.channels, row.id) && !link_taken(
                    old(self)@.channels,
                    row@,
                ) && final(self)@ == (StoreView {
                    channels: old(self)@.channels.push(row@),
                    ..old(self)@
                }),
                Err(e) => e == PersistenceError::UniqueViolation && (has_id(
                    old(self)@.channels,
                    row.id,
                ) || link_taken(old(self)@.channels, row@)) && final(self)@ == old(self)@,
            },
    {
        if self.position_of(row.id).is_some() || self.link_in_use(&row) {
            return Err(PersistenceError::UniqueViolation);
        }
        proof {
            lemma_upsert_distinct(self@.channels, row@);
        }
        let ghost before = self.channels.deep_view();
        self.channels.push(row);
        assert(self.channels.deep_view() == before.push(row@));
        Ok(())
    }

    fn position_of(&self, id: i32) -> (r: Option<usize>)
        requires
            self.wf(),
        ensures
            match r {
                Some(i) => has_id(self@.channels, id) && i == index_of_id(self@.channels, id),
                None => !has_id(self@.channels, id),
            },
    {
        let mut i: usize = 0;
        while i < self.channels.len()
            invariant
                self.wf(),
                i <= self.channels.len(),
                forall|k: int| 0 <= k < i ==> (#[trigger] self@.channels[k]).id != id,
            decreases self.channels.len() - i,
        {
            if self.channels[i].id == id {
                proof {
                    let v = self@.channels;
                    assert(v[i as int].id == id);
                    let j = index_of_id(v, id);
                    if j < i {
                        assert(v[j].id != v[i as int].id);
                    } else if i < j {
                        assert(v[i as int].id != v[j].id);
                    }
                }
                return Some(i);
            }
            i += 1;
        }
        None
    }

    fn link_in_use(&self, row: &channel::Model) -> (r: bool)
        ensures
            r == link_taken(self@.channels, row@),
    {
        if row.link.is_none() {
            return false;
        }
        let mut i: usize = 0;
        while i < self.channels.len()
            invariant
                row@.link is Some,
                i <= self.channels.len(),
                forall|k: int|
                    0 <= k < i ==> !((#[trigger] self@.channels[k]).id != row.id
                        && self@.channels[k].link == row@.link),
            decreases self.channels.len() - i,
        {
            if self.channels[i].id != row.id && opt_eq(&self.channels[i].link, &row.link) {
                assert(self@.channels[i as int].id != row.id);
                return true;
            }
            i += 1;
        }
        false
    }

    /// Carries out a plan as one transaction.
    ///
    /// The store refuses the plan, and stays as it is, exactly when the
    /// plan's channel row would repeat another channel's link. Otherwise
    /// the channel row is written, every episode of the plan's channel is
    /// dropped and the plan's episodes are inserted. Listening states are
    /// never touched.
    pub fn commit(&mut self, plan: &SyncPlan) -> (r: Result<(), PersistenceError>)
        requires
            old(self).wf(),
            plan.wf(),
        ensures
            final(self).wf(),
            match r {
                Ok(_) => !commit_refused(old(self)@, plan@) && final(self)@ == committed(
                    old(self)@,
                    plan@,
                ),
                Err(e) => e == PersistenceError::UniqueViolation && commit_refused(
                    old(self)@,
                    plan@,
                ) && final(self)@ == old(self)@,
            },
    {
        let ghost before = self@;
        let channel_id = plan.channel_id();
        match plan.channel() {
            Some(row) => {
                if self.link_in_use(row) {
                    return Err(PersistenceError::UniqueViolation);
                }
                proof {
                    lemma_upsert_distinct(before.channels, row@);
                }
                match self.position_of(row.id) {
                    Some(at) => {
                        self.channels.set(at, row.clone());
                        assert(self.channels.deep_view() == before.channels.update(
                            at as int,
                            row@,
                        ));
                    },
                    None => {
                        self.channels.push(row.clone());
                        assert(self.channels.deep_view() == before.channels.push(row@));
                    },
                }
            },
            None => {},
        }
        let mut kept: Vec<channel_item::Model> = Vec::new();
        let mut i: usize = 0;
        while i < self.episodes.len()
            invariant
                i <= self.episodes.len(),
                self.episodes.deep_view() == before.episodes,
                kept.deep_view() == before.episodes.take(i as int).filter(
                    not_in_channel(channel_id),
                ),
            decreases self.episodes.len() - i,
        {
            let ghost so_far = kept.deep_view();
            proof {
                assert(before.episodes.take(i + 1) == before.episodes.take(i as int).push(
                    before.episodes[i as int],
                ));
                before.episodes.take(i as int).lemma_filter_push(
                    before.episodes[i as int],
                    not_in_channel(channel_id),
                );
            }
            if self.episodes[i].channel_id != channel_id {
                let row = self.episodes[i].clone();
                assert(row@ == before.episodes[i as int]);
                kept.push(row);
                assert(kept.deep_view() == so_far.push(before.episodes[i as int]));
            }
            i += 1;
        }
        assert(before.episodes.take(i as int) == before.episodes);
        let ghost others = kept.deep_view();
        let rows = plan.episodes();
        let mut k: usize = 0;
        while k < rows.len()
            invariant
                k <= rows.len(),
                rows.deep_view() == plan@.episodes,
                kept.deep_view() == others + plan@.episodes.take(k as int),
            decreases rows.len() - k,
        {
            let ghost so_far = kept.deep_view();
            let row = rows[k].clone();
            assert(row@ == plan@.episodes[k as int]);
            kept.push(row);
            assert(kept.deep_view() == so_far.push(plan@.episodes[k as int]));
            assert(plan@.episodes.take(k + 1) == plan@.episodes.take(k as int).push(
                plan@.episodes[k as int],
            ));
            k += 1;
        }
        assert(plan@.episodes.take(k as int) == plan@.episodes);
        proof {
            lemma_replace_distinct(before.episodes, channel_id, plan@.episodes);
        }
        self.episodes = kept;
        Ok(())
    }

    /// Looks up the listening state of an episode.
    pub fn find_state(&self, channel_id: i32, enclosure: &str) -> (r: Option<
        listening_state::Model,
    >)
        requires
            self.wf(),
        ensures
            r.deep_view() == state_of(self@.listening, channel_id, enclosure@),
    {
        match self.position_of_state(channel_id, enclosure) {
            Some(i) => Some(self.listening[i].clone()),
            None => None,
        }
    }

    fn position_of_state(&self, channel_id: i32, enclosure: &str) -> (r: Option<usize>)
        requires
            self.wf(),
        ensures
            match r {
                Some(i) => has_state(self@.listening, channel_id, enclosure@) && i
                    == index_of_state(self@.listening, channel_id, enclosure@),
                None => !has_state(self@.listening, channel_id, enclosure@),
            },
    {
        let needle = enclosure.to_owned();
        let mut i: usize = 0;
        while i < self.listening.len()
            invariant
                self.wf(),
                needle@ == enclosure@,
                i <= self.listening.len(),
                forall|k: int|
                    0 <= k < i ==> !((#[trigger] self@.listening[k]).channel_id == channel_id
                        && self@.listening[k].channel_item_enclosure == enclosure@),
            decreases self.listening.len() - i,
        {
            if self.listening[i].channel_id == channel_id && self.listening[i].channel_item_enclosure
                == needle {
                proof {
                    lemma_state_of(self@.listening, self@.next_id, i as int);
                }
                return Some(i);
            }
            i += 1;
        }
        None
    }

    fn position_of_state_id(&self, id: i32) -> (r: Option<usize>)
        requires
            self.wf(),
        ensures
            match r {
                Some(i) => has_state_id(self@.listening, id) && i == index_of_state_id(
                    self@.listening,
                    id,
                ),
                None => !has_state_id(self@.listening, id),
            },
    {
        let mut i: usize = 0;
        while i < self.listening.len()
            invariant
                self.wf(),
                i <= self.listening.len(),
                forall|k: int| 0 <= k < i ==> (#[trigger] self@.listening[k]).id != id,
            decreases self.listening.len() - i,
        {
            if self.listening[i].id == id {
                proof {
                    lemma_state_of(self@.listening, self@.next_id, i as int);
                }
                return Some(i);
            }
            i += 1;
        }
        None
    }

    fn episode_in_use(&self, row: &listening_state::Model) -> (r: bool)
        ensures
            r == episode_taken(self@.listening, row@),
    {
        let mut i: usize = 0;
        while i < self.listening.len()
            invariant
                i <= self.listening.len(),
                forall|k: int|
                    0 <= k < i ==> !((#[trigger] self@.listening[k]).id != row.id
                        && self@.listening[k].channel_id == row.channel_id
                        && self@.listening[k].channel_item_enclosure
                        == row@.channel_item_enclosure),
            decreases self.listening.len() - i,
        {
            let other = &self.listening[i];
            if other.id != row.id && other.channel_id == row.channel_id
                && other.channel_item_enclosure == row.channel_item_enclosure {
                assert(self@.listening[i as int].id != row.id);
                return true;
            }
            i += 1;
        }
        false
    }

    /// Carries out a write to the listening-state relation.
    ///
    /// The store refuses the write, and stays as it is, exactly when
    /// `write_refusal` names a reason; the error is that reason.
    pub fn write_state(&mut self, w: StateWrite) -> (r: Result<(), PersistenceError>)
        requires
            old(self).wf(),
            w.wf(),
        ensures
            final(self).wf(),
            match r {
                Ok(_) => write_refusal(old(self)@, w@) is None && final(self)@ == written(
                    old(self)@,
                    w@,
                ),
                Err(e) => write_refusal(old(self)@, w@) == Some(e) && final(self)@ == old(self)@,
            },
    {
        let ghost before = self@;
        match w {
            StateWrite::Insert { channel_id, enclosure, time } => {
                if self.position_of_state(channel_id, enclosure.as_str()).is_some() {
                    return Err(PersistenceError::UniqueViolation);
                }
                if self.next_id == i32::MAX {
                    return Err(PersistenceError::OutOfRange);
                }
                let row = listening_state::Model {
                    id: self.next_id,
                    channel_id,
                    channel_item_enclosure: enclosure,
                    time,
                    finished: false,
                };
                let ghost added = row@;
                self.listening.push(row);
                self.next_id = self.next_id + 1;
                assert(self.listening.deep_view() == before.listening.push(added));
                proof {
                    lemma_written_wf(before, w@);
                }
                Ok(())
            },
            StateWrite::Update(row) => {
                match self.position_of_state_id(row.id) {
                    None => Err(PersistenceError::NotFound),
                    Some(at) => {
                        if self.episode_in_use(&row) {
                            return Err(PersistenceError::UniqueViolation);
                        }
                        let ghost put = row@;
                        self.listening.set(at, row);
                        assert(self.listening.deep_view() == before.listening.update(
                            at as int,
                            put,
                        ));
                        proof {
                            lemma_written_wf(before, w@);
                        }
                        Ok(())
                    },
                }
            },
            StateWrite::Nothing => Ok(()),
        }
    }

    /// Seeds the channels of a store that has none: two channels, with the
    /// ids 1 and 2. A store that has a channel stays as it is.
    pub fn init_data(&mut self)
        requires
            old(self).wf(),
        ensures
            final(self).wf(),
            old(self)@.channels.len() > 0 ==> final(self)@ == old(self)@,
            old(self)@.channels.len() == 0 ==> final(self)@ == (StoreView {
                channels: seed_channels(),
                ..old(self)@
            }),
    {
        if self.channels.len() > 0 {
            return ;
        }
        let first = channel::Model {
            id: 1,
            title: Some("Dasko i Mladja".to_owned()),
            link: Some("https://podcast.daskoimladja.com/feed.xml".to_owned()),
            description: Some("fake...".to_owned()),
        };
        let second = channel::Model {
            id: 2,
            title: Some("Agelast".to_owned()),
            link: Some("https://feeds.transistor.fm/agelast-podcast".to_owned()),
            description: Some("fake...".to_owned()),
        };
        proof {
            lemma_seed_links_differ();
        }
        let ghost a = first@;
        let ghost b = second@;
        self.channels.push(first);
        self.channels.push(second);
        assert(self.channels.deep_view() == seq![a, b]);
    }
}

} // verus!
