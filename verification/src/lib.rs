//! A sans-I/O client engine for playlist-driven segmented media streaming.
//!
//! The engine decides what to fetch next, when to refetch a live playlist,
//! how to sequence arriving segments, and how to hand decoded media buffers
//! to the host. It performs no network I/O and arms no timers itself:
//! every effect is requested through an explicit [`action::Action`] queue
//! that the host drains, and every completion is reported back through a
//! callback carrying the action's identifier.

pub mod action;
pub mod boundary;
pub mod convert;
pub mod error;
pub mod guard;
pub mod json;
pub mod laws;
pub mod master_playlist_handler;
pub mod media_playlist_handler;
pub mod player;
pub mod playlist;
pub mod resolve;
pub mod text;

pub use action::{Action, ActionFactory, ActionId};
pub use error::{Error, ErrorKind};
pub use player::HlsPlayer;
