//! Verified core of the TuneX music player: queue rows, transport decisions,
//! settings rules, notification and tray policy, and the text parsing the
//! desktop shell hands over.

pub mod text;
pub mod lists;
pub mod rows;
pub mod playback;
pub mod error;
pub mod notify;
pub mod tray;
pub mod tray_controller;
pub mod config;
pub mod queue_model;
pub mod queue_mpris;
pub mod queue_session;
pub mod queue_enqueue;
pub mod search;
pub mod library;
pub mod library_manager;
pub mod naming;
pub mod art;
pub mod browse;
pub mod playlists;
pub mod equalizer;
pub mod roles;
