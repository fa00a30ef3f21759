//! Core of an Audiobookshelf desktop client. At its heart is the playback
//! session: the media engine's state machine, the buffering governor, and the
//! controller that owns the one active session with its progress sampler and
//! sync scheduler. Around it: the service's connection settings, the book
//! lists' ordering and search, the login callback parser, and display helpers.

pub mod catalog;
pub mod client;
pub mod credentials;
pub mod display;
pub mod engine;
pub mod error;
pub mod governor;
pub mod library;
pub mod models;
pub mod oauth;
pub mod session;
pub mod text;
