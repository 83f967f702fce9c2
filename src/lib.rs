//! A local-library music player's core: the transport engine that decides
//! what the audio sink plays, the media-control and keyboard commands that
//! drive it, track ordering, fuzzy search and the persisted settings.

pub mod config;
pub mod keys;
pub mod laws;
pub mod mpris;
pub mod player;
pub mod playlist;
pub mod search;
pub mod text;

pub use config::Config;
pub use mpris::MprisState;
pub use player::{Action, PlaybackStatus, Player, SinkReport, SinkState, Song, TransportError};
pub use playlist::{Column, Playlist, Sort, sort_songs};
pub use search::Search;
pub use text::format_timestamp;
