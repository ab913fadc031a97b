//! The operations on persisted state: reconciling a fetched feed, listing
//! episodes and keeping listening progress.

pub mod data_provider;
pub mod episodes;
pub mod listening_state_data_layer;
pub mod listing;
pub mod plan;
