//! Podcast synchronisation and playback-state engine.
//!
//! The crate holds the rules of a podcast client: how a fetched feed becomes
//! the stored episode set of a channel, how per-episode listening progress is
//! kept, and how a refresh travels from a request to the message that the
//! foreground drains. Every rule is stated as a contract over a mathematical
//! model and proved.

pub mod command;
pub mod config;
pub mod coordinator;
pub mod data_layer;
pub mod date;
pub mod entity;
pub mod error;
pub mod event;
pub mod feed;
pub mod foreground;
pub mod list_state;
pub mod player_engine;
pub mod podcasts_model;
pub mod radio_model;
pub mod store;
pub mod text;
pub mod textbox;
pub mod ui_models;
pub mod widgets;
