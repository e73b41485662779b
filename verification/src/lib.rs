//! Core logic of a tool that copies a music library (liked songs and
//! playlists) from one streaming-service account to another.
//!
//! This crate holds the verified heart of the tool: the token-store
//! document and its lookup rules, the OAuth callback parsing and the
//! linear login flow, the pagination and batching protocols of the
//! REST client, and the transfer state machine that replays a source
//! library onto a target account. All network and file I/O lives
//! outside the crate and feeds these functions plain values.

pub mod auth;
pub mod client;
pub mod errors;
pub mod models;
pub mod store;
pub mod transfer;
