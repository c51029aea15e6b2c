//! Log broadcast pipeline for a job-queue dashboard.
//!
//! The host process writes structured log records to a sink. Each record is
//! parsed into a [`entry::LogEntry`] and fanned out by a broadcaster to every
//! live subscriber over its own bounded queue; a stream endpoint turns what
//! a subscriber receives into server-sent events.
//!
//! - [`entry`]: the log entry and its parts.
//! - [`json`], [`wire`]: the wire format, read and written through a JSON
//!   tree.
//! - [`broadcaster`]: the registry of subscribers and the fan-out of entries.
//! - [`sse`]: the same fan-out for ready-made frames, with a sweep for
//!   abandoned subscribers.
//! - [`subscriber`]: the write sink that publishes what is logged.
//! - [`stream`]: feeds, frames and keep-alives of a stream endpoint.
//! - [`translate`], [`ui`], [`framework`]: names of statistics, headers of
//!   the frontend's files, and the builder of the API's routes.
pub mod entry;
pub mod text;
pub mod broadcaster;
pub mod json;
pub mod wire;
pub mod subscriber;
pub mod stream;
pub mod sse;
pub mod translate;
pub mod ui;
pub mod framework;
