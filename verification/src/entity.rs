//! Rows of the three persisted relations.

pub mod channel;
pub mod channel_item;
pub mod listening_state;
