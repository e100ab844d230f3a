//! Matching of streamed music tracks against a catalog of anime songs.
//!
//! The crate holds the text comparison engine, the catalog data model with
//! its merge and de-duplication rules, and the tiered resolver that turns a
//! playing track into ranked anime-song bindings.

pub mod strings;
pub mod anilist;
pub mod anisong;
pub mod catalog;
pub mod error;
pub mod feed;
pub mod grammar;
pub mod ids;
pub mod ingest;
pub mod names;
pub mod ordering;
pub mod pairing;
pub mod patterns;
pub mod resolver;
pub mod rules;
pub mod scoring;
pub mod season;
pub mod session;
pub mod songs;
pub mod spotify;
pub mod text;
