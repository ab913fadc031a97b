//! The listening-state relation: playback progress per episode identity.

use vstd::prelude::*;

verus! {

/// A playback position in seconds, held as the bit pattern of an IEEE 754
/// single-precision number, so that a position read back is the position
/// written, bit for bit.
#[derive(Debug, Clone, Copy, PartialEq, Eq, Structural)]
pub struct Position {
    pub bits: u32,
}

impl Position {
    /// The start of an episode: the pattern of `0.0`.
    pub open spec fn start() -> Position {
        Position { bits: 0 }
    }

    /// Returns the start of an episode.
    pub fn zero() -> (r: Position)
        ensures
            r == Position::start(),
    {
        Position { bits: 0 }
    }

    /// Wraps a bit pattern.
    pub fn from_bits(bits: u32) -> (r: Position)
        ensures
            r.bits == bits,
    {
        Position { bits }
    }

    /// The bit pattern.
    pub fn to_bits(&self) -> (r: u32)
        ensures
            r == self.bits,
    {
        self.bits
    }
}

/// A stored listening state. `id` is a surrogate key that the store hands
/// out; `(channel_id, channel_item_enclosure)` names the episode.
#[derive(Debug)]
pub struct Model {
    pub id: i32,
    pub channel_id: i32,
    pub channel_item_enclosure: String,
    pub time: Position,
    pub finished: bool,
}

/// The mathematical value of a listening-state row.
pub struct ModelView {
    pub id: i32,
    pub channel_id: i32,
    pub channel_item_enclosure: Seq<char>,
    pub time: Position,
    pub finished: bool,
}

impl View for Model {
    type V = ModelView;

    open spec fn view(&self) -> ModelView {
        ModelView {
            id: self.id,
            channel_id: self.channel_id,
            channel_item_enclosure: self.channel_item_enclosure@,
            time: self.time,
            finished: self.finished,
        }
    }
}

impl DeepView for Model {
    type V = ModelView;

    open spec fn deep_view(&self) -> ModelView {
        self@
    }
}

impl Clone for Model {
    fn clone(&self) -> (r: Self)
        ensures
            r@ == self@,
    {
        Model {
            id: self.id,
            channel_id: self.channel_id,
            channel_item_enclosure: self.channel_item_enclosure.clone(),
            time: self.time,
            finished: self.finished,
        }
    }
}

} // verus!
