//! Best-effort capture of streamed payloads for later inspection.
//!
//! A capture is a copy of what went through a byte stream, stored with some
//! metadata in a file of its own once the stream has ended. Taking it never
//! changes what the stream's consumer sees, and nothing that goes wrong while
//! storing it reaches the consumer.
//!
//! The crate holds the decisions and leaves the waiting to its driver:
//!
//! - [`tee`] says what to do with each element of a stream and when to store
//!   the capture; [`transparency`] proves what a consumer can notice of it.
//! - [`writer`] walks through the steps of storing one document.
//! - [`payload`], [`filename`] and [`location`] say what is stored, under which
//!   name, and where.
//! - [`config`] holds the settings.
//! - [`chunk`], [`clock`], [`json`] and [`text`] are the seams to `bytes`,
//!   `chrono`, `serde_json` and the standard library's lossy decoder. What is
//!   taken on trust about them is written there; beyond that only
//!   [`location`] names an outside type, the path of the data directory, which
//!   it carries unread.

pub mod chunk;
pub mod clock;
pub mod config;
pub mod filename;
pub mod json;
pub mod location;
pub mod payload;
pub mod tee;
pub mod text;
pub mod transparency;
pub mod writer;
