//! A read-only catalogue of users, playlists and songs, with verified
//! relationship queries over an in-memory snapshot.
pub mod model;
pub mod dataset;
pub mod service;
pub mod json;
pub mod load;
pub mod laws;

pub use dataset::Dataset;
pub use json::Json;
pub use load::{load, Fetched, LoadError};
pub use model::{Playlist, Song, User};
pub use service::MyMusicService;
