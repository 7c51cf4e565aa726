//! Order-book delta batching and sequencing.
//!
//! A market-data consumer receives streams of incremental order-book
//! mutations ("deltas"), grouped into instrument-scoped batches that share a
//! venue-assigned sequence number.  This crate provides:
//!
//! * the immutable [`delta::Delta`] / [`batch::DeltaBatch`] data model with
//!   its construction-time validation,
//! * the per-instrument [`sequencer::Sequencer`] that classifies each
//!   incoming batch as in-order, duplicate or gapped,
//! * a reference [`book::Book`] applier that fixes the meaning of applying a
//!   batch to book state, and
//! * deterministic diagnostic renderings of batches and deltas.
//!
//! Transport, wire parsing and language bindings are deliberately outside
//! this crate: callers hand in fully parsed batches and receive
//! classifications and book state back.

pub mod batch;
pub mod book;
pub mod delta;
pub mod render;
pub mod sequencer;
