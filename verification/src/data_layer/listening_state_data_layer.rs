//! Listening state store: playback position and completion flag per
//! episode.

use vstd::prelude::*;
use crate::entity::listening_state::{Model, ModelView, Position};
use crate::error::PersistenceError;
use crate::store::{
    Store, StoreView, has_state, index_of_state, lemma_state_of, lemma_written_wf, state_of,
    well_formed, write_refusal, written,
};
use crate::ui_models::{ListeningState, progress_opt};

verus! {

/// A write to the listening-state relation.
#[derive(Debug)]
pub enum StateWrite {
    /// Insert an unfinished row for an episode that has none. The store
    /// hands out the surrogate key.
    Insert { channel_id: i32, enclosure: String, time: Position },
    /// Replace the row that has the same surrogate key.
    Update(Model),
    /// Write nothing.
    Nothing,
}

/// The mathematical value of a write.
pub enum StateWriteView {
    Insert { channel_id: i32, enclosure: Seq<char>, time: Position },
    Update(ModelView),
    Nothing,
}

impl View for StateWrite {
    type V = StateWriteView;

    open spec fn view(&self) -> StateWriteView {
        match self {
            StateWrite::Insert { channel_id, enclosure, time } => StateWriteView::Insert {
                channel_id: *channel_id,
                enclosure: enclosure@,
                time: *time,
            },
            StateWrite::Update(row) => StateWriteView::Update(row@),
            StateWrite::Nothing => StateWriteView::Nothing,
        }
    }
}

impl StateWrite {
    /// A write that keeps a finished episode at its start.
    pub open spec fn wf(&self) -> bool {
        self@ matches StateWriteView::Update(row) ==> (row.finished ==> row.time
            == Position::start())
    }
}

/// The write that records a position: where the episode has a state, that
/// row with the new position and not finished; where it has none, a new
/// unfinished row.
pub open spec fn position_write_of(
    existing: Option<ModelView>,
    enclosure: Seq<char>,
    channel_id: i32,
    time: Position,
) -> StateWriteView {
    match existing {
        Some(row) => StateWriteView::Update(ModelView { time, finished: false, ..row }),
        None => StateWriteView::Insert { channel_id, enclosure, time },
    }
}

/// The write that marks an episode as finished: where the episode has a
/// state, that row finished and back at its start; where it has none,
/// nothing.
pub open spec fn finished_write_of(existing: Option<ModelView>) -> StateWriteView {
    match existing {
        Some(row) => StateWriteView::Update(
            ModelView { time: Position::start(), finished: true, ..row },
        ),
        None => StateWriteView::Nothing,
    }
}

/// The store after a position is recorded for an episode.
pub open spec fn positioned(s: StoreView, enclosure: Seq<char>, channel_id: i32, time: Position)
    -> StoreView {
    written(
        s,
        position_write_of(state_of(s.listening, channel_id, enclosure), enclosure, channel_id, time),
    )
}

/// Whether a position cannot be recorded: the episode has no state yet, and
/// no surrogate key is left for a new one.
pub open spec fn position_refused(s: StoreView, enclosure: Seq<char>, channel_id: i32) -> bool {
    !has_state(s.listening, channel_id, enclosure) && s.next_id == i32::MAX
}

/// The store after an episode is marked as finished.
pub open spec fn marked(s: StoreView, enclosure: Seq<char>, channel_id: i32) -> StoreView {
    written(s, finished_write_of(state_of(s.listening, channel_id, enclosure)))
}

/// The store takes the update that is made from the stored state of an
/// episode, and afterwards that state is the update's row.
pub proof fn lemma_update_in_place(s: StoreView, channel_id: i32, enclosure: Seq<char>, row: ModelView)
    requires
        well_formed(s),
        has_state(s.listening, channel_id, enclosure),
        row.id == s.listening[index_of_state(s.listening, channel_id, enclosure)].id,
        row.channel_id == channel_id,
        row.channel_item_enclosure == enclosure,
        row.finished ==> row.time == Position::start(),
    ensures
        write_refusal(s, StateWriteView::Update(row)) is None,
        well_formed(written(s, StateWriteView::Update(row))),
        written(s, StateWriteView::Update(row)).listening == s.listening.update(
            index_of_state(s.listening, channel_id, enclosure),
            row,
        ),
        written(s, StateWriteView::Update(row)).next_id == s.next_id,
        state_of(written(s, StateWriteView::Update(row)).listening, channel_id, enclosure) == Some(
            row,
        ),
{
    let at = index_of_state(s.listening, channel_id, enclosure);
    lemma_state_of(s.listening, s.next_id, at);
    assert forall|i: int| 0 <= i < s.listening.len() implies !((#[trigger] s.listening[i]).id
        != row.id && s.listening[i].channel_id == row.channel_id
        && s.listening[i].channel_item_enclosure == row.channel_item_enclosure) by {
        if i != at {
            lemma_state_of(s.listening, s.next_id, i);
        }
    }
    let w = StateWriteView::Update(row);
    lemma_written_wf(s, w);
    let after = written(s, w);
    assert(after.listening[at] == row);
    lemma_state_of(after.listening, after.next_id, at);
}

/// A position that was recorded is the position that is read: after a
/// position is recorded for an episode, the episode's state holds that
/// position and is not finished, and the store meets its constraints.
pub proof fn law_position_then_get(s: StoreView, enclosure: Seq<char>, channel_id: i32, time: Position)
    requires
        well_formed(s),
        !position_refused(s, enclosure, channel_id),
    ensures
        well_formed(positioned(s, enclosure, channel_id, time)),
        progress_opt(state_of(positioned(s, enclosure, channel_id, time).listening, channel_id, enclosure))
            == Some(ListeningState { time, finished: false }),
{
    let after = positioned(s, enclosure, channel_id, time);
    if has_state(s.listening, channel_id, enclosure) {
        let at = index_of_state(s.listening, channel_id, enclosure);
        let row = ModelView { time, finished: false, ..s.listening[at] };
        lemma_update_in_place(s, channel_id, enclosure, row);
    } else {
        let w = StateWriteView::Insert { channel_id, enclosure, time };
        lemma_written_wf(s, w);
        let at = s.listening.len() as int;
        assert(after.listening[at].channel_id == channel_id);
        lemma_state_of(after.listening, after.next_id, at);
    }
}

/// A finished episode restarts: after an episode that has a state is marked
/// as finished, its state is finished and stands at the start.
pub proof fn law_finished_then_get(s: StoreView, enclosure: Seq<char>, channel_id: i32)
    requires
        well_formed(s),
        has_state(s.listening, channel_id, enclosure),
    ensures
        well_formed(marked(s, enclosure, channel_id)),
        progress_opt(state_of(marked(s, enclosure, channel_id).listening, channel_id, enclosure))
            == Some(ListeningState { time: Position::start(), finished: true }),
{
    let at = index_of_state(s.listening, channel_id, enclosure);
    let row = ModelView { time: Position::start(), finished: true, ..s.listening[at] };
    lemma_update_in_place(s, channel_id, enclosure, row);
}

/// Marking an episode that was never played changes nothing: no row is
/// made for it.
pub proof fn law_finished_without_state(s: StoreView, enclosure: Seq<char>, channel_id: i32)
    requires
        !has_state(s.listening, channel_id, enclosure),
    ensures
        marked(s, enclosure, channel_id) == s,
        !has_state(marked(s, enclosure, channel_id).listening, channel_id, enclosure),
{
}

/// Recording the same position twice is recording it once.
pub proof fn law_position_idempotent(s: StoreView, enclosure: Seq<char>, channel_id: i32, time: Position)
    requires
        well_formed(s),
        !position_refused(s, enclosure, channel_id),
    ensures
        !position_refused(positioned(s, enclosure, channel_id, time), enclosure, channel_id),
        positioned(positioned(s, enclosure, channel_id, time), enclosure, channel_id, time)
            == positioned(s, enclosure, channel_id, time),
{
    let once = positioned(s, enclosure, channel_id, time);
    law_position_then_get(s, enclosure, channel_id, time);
    let at = index_of_state(once.listening, channel_id, enclosure);
    let row = once.listening[at];
    lemma_update_in_place(once, channel_id, enclosure, row);
    assert(once.listening.update(at, row) == once.listening);
}

/// Marking an episode as finished twice is marking it once.
pub proof fn law_finished_idempotent(s: StoreView, enclosure: Seq<char>, channel_id: i32)
    requires
        well_formed(s),
    ensures
        marked(marked(s, enclosure, channel_id), enclosure, channel_id) == marked(
            s,
            enclosure,
            channel_id,
        ),
{
    if has_state(s.listening, channel_id, enclosure) {
        let once = marked(s, enclosure, channel_id);
        law_finished_then_get(s, enclosure, channel_id);
        let at = index_of_state(once.listening, channel_id, enclosure);
        let row = once.listening[at];
        lemma_update_in_place(once, channel_id, enclosure, row);
        assert(once.listening.update(at, row) == once.listening);
    }
}

/// The listening state store.
pub struct ListeningStateDataLayer {}

impl ListeningStateDataLayer {
    /// Decides the write that records `time` for an episode whose stored
    /// state is `existing`.
    pub fn position_write(existing: Option<Model>, enclosure_url: String, channel_id: i32, time: Position)
        -> (r: StateWrite)
        ensures
            r@ == position_write_of(existing.deep_view(), enclosure_url@, channel_id, time),
            r.wf(),
    {
        match existing {
            Some(row) => StateWrite::Update(
                Model {
                    id: row.id,
                    channel_id: row.channel_id,
                    channel_item_enclosure: row.channel_item_enclosure,
                    time,
                    finished: false,
                },
            ),
            None => StateWrite::Insert { channel_id, enclosure: enclosure_url, time },
        }
    }

    /// Decides the write that marks as finished an episode whose stored
    /// state is `existing`.
    pub fn finished_write(existing: Option<Model>) -> (r: StateWrite)
        ensures
            r@ == finished_write_of(existing.deep_view()),
            r.wf(),
    {
        match existing {
            Some(row) => StateWrite::Update(
                Model {
                    id: row.id,
                    channel_id: row.channel_id,
                    channel_item_enclosure: row.channel_item_enclosure,
                    time: Position::zero(),
                    finished: true,
                },
            ),
            None => StateWrite::Nothing,
        }
    }

    /// Reads the listening state of an episode. `None` means that the
    /// episode was never played.
    pub fn get(db: &Store, enclosure_url: &str, channel_id: i32) -> (r: Option<ListeningState>)
        requires
            db.wf(),
        ensures
            r == progress_opt(state_of(db@.listening, channel_id, enclosure_url@)),
    {
        match db.find_state(channel_id, enclosure_url) {
            Some(row) => Some(ListeningState { time: row.time, finished: row.finished }),
            None => None,
        }
    }

    /// Records the playback position of an episode.
    ///
    /// Where the episode has a state, the position is written to it and the
    /// episode is no longer finished; where it has none, an unfinished state
    /// is made for it. Fails, with `OutOfRange` and without a change, exactly
    /// when a state would have to be made and no surrogate key is left. After
    /// success the episode's state holds `time` and is not finished.
    pub fn update_current_time_for_item(
        db: &mut Store,
        enclosure_url: String,
        channel_id: i32,
        time: Position,
    ) -> (r: Result<(), PersistenceError>)
        requires
            old(db).wf(),
        ensures
            final(db).wf(),
            match r {
                Ok(_) => !position_refused(old(db)@, enclosure_url@, channel_id) && final(db)@
                    == positioned(old(db)@, enclosure_url@, channel_id, time) && progress_opt(
                    state_of(final(db)@.listening, channel_id, enclosure_url@),
                ) == Some(ListeningState { time, finished: false }),
                Err(e) => e == PersistenceError::OutOfRange && position_refused(
                    old(db)@,
                    enclosure_url@,
                    channel_id,
                ) && final(db)@ == old(db)@,
            },
    {
        let existing = db.find_state(channel_id, enclosure_url.as_str());
        proof {
            if has_state(db@.listening, channel_id, enclosure_url@) {
                let at = index_of_state(db@.listening, channel_id, enclosure_url@);
                lemma_update_in_place(
                    db@,
                    channel_id,
                    enclosure_url@,
                    ModelView { time, finished: false, ..db@.listening[at] },
                );
            } else if db@.next_id < i32::MAX {
                law_position_then_get(db@, enclosure_url@, channel_id, time);
            }
        }
        let w = Self::position_write(existing, enclosure_url, channel_id, time);
        db.write_state(w)
    }

    /// Marks an episode as finished.
    ///
    /// Always succeeds. Where the episode has a state, it becomes finished
    /// and goes back to its start; where it has none, nothing is written and
    /// no state is made.
    pub fn mark_item_as_finished(db: &mut Store, enclosure_url: String, channel_id: i32) -> (r:
        Result<(), PersistenceError>)
        requires
            old(db).wf(),
        ensures
            final(db).wf(),
            r is Ok,
            final(db)@ == marked(old(db)@, enclosure_url@, channel_id),
            has_state(old(db)@.listening, channel_id, enclosure_url@) ==> progress_opt(
                state_of(final(db)@.listening, channel_id, enclosure_url@),
            ) == Some(ListeningState { time: Position::start(), finished: true }),
            !has_state(old(db)@.listening, channel_id, enclosure_url@) ==> final(db)@ == old(db)@,
    {
        let existing = db.find_state(channel_id, enclosure_url.as_str());
        proof {
            if has_state(db@.listening, channel_id, enclosure_url@) {
                law_finished_then_get(db@, enclosure_url@, channel_id);
                let at = index_of_state(db@.listening, channel_id, enclosure_url@);
                lemma_update_in_place(
                    db@,
                    channel_id,
                    enclosure_url@,
                    ModelView { time: Position::start(), finished: true, ..db@.listening[at] },
                );
            }
        }
        let w = Self::finished_write(existing);
        db.write_state(w)
    }
}

} // verus!
