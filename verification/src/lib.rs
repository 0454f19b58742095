//! Credential resolution and refresh for a single Spotify API consumer.
//!
//! The library decides; it performs no file or network access itself. Every
//! operation that needs the outside world is described as a [`spotify_api::Request`]
//! that the caller carries out and answers with a [`spotify_api::Reply`].

pub mod local_store;
pub mod pkce;
pub mod spotify_api;
pub mod spotify_data;
pub mod store_model;
pub mod time;
