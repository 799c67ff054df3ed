//! Event ingestion, persistence and single-worker upload orchestration for a
//! livestream recorder: webhook intake of "recording finished" events, a
//! durable event/job store, a bounded FIFO job queue, the append-or-create
//! archive decision, in-flight progress tracking, and the manual retry path.

pub mod config;
pub mod datetime;
pub mod db;
pub mod queue;
pub mod recorder;
pub mod textfmt;
pub mod upload;
pub mod webhook;
