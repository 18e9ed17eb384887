//! Core of a "now playing" feed service: per-subscriber credential handling
//! and the playback-polling state machine, with the decisions verified.
//!
//! The library is split along the service's seams:
//! - [`token`] holds the stored credential value type,
//! - [`store`] is the token store modelled as a map from identity to record,
//! - [`playback`] normalizes upstream playback snapshots into outward events
//!   and computes the adaptive poll delay,
//! - [`poller`] is the per-subscription refresh/poll/emit state machine,
//! - [`auth`] covers the authorization-code leg (URL building, exchange),
//! - [`clock`] reads the wall clock,
//! - [`config`] and [`error`] hold the service-wide configuration and errors.
//!
//! All I/O (HTTP, storage, channels, sleeping) stays outside: the poller tells
//! its driver what to do next and is handed the outcome, so every decision in
//! the loop is verified for every outcome the outside world can produce.

pub mod auth;
pub mod clock;
pub mod config;
pub mod error;
pub mod playback;
pub mod poller;
pub mod store;
pub mod token;
