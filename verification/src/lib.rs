//! The decision-making core of a media-URL scraping service.
//!
//! Given a web URL, the service picks the provider that owns it, asks that
//! provider for data and returns one normalized record. Everything that
//! decides or computes lives here, stated over plain values and proved;
//! the network, the cache and the HTTP front-end live outside and feed this
//! crate the values they obtained.

pub mod camo;
pub mod codec;
pub mod config;
pub mod failure;
pub mod link;
pub mod pattern;
pub mod scraper;
pub mod text;
pub mod web;

pub use crate::config::{Configuration, State};
