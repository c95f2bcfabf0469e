//! A minimal client library for a remote to-do list's synchronization API.
//!
//! The library holds everything the client decides or computes: loading an
//! API key from a credentials document, deciding what a cached user profile
//! means, building the JSON command envelopes that the endpoint accepts, and
//! phrasing the lines the client prints.  Reading files, sending requests and
//! printing are left to the surrounding binary, which hands plain values in
//! and takes plain values back.

pub mod config;
pub mod errors;
pub mod sync;
pub mod text;
pub mod ui;
pub mod user;
