//! Verified core of a time-series ingestion service.
//!
//! Data points tagged with a series name arrive one at a time or in bounded
//! batches, get their timestamps normalized, and are persisted together with
//! a per-series derived view.  This crate holds the decision logic of that
//! pipeline — timestamp normalization, batch policy, view definition, error
//! classification, and the transactional insert semantics — each piece with a
//! proved contract.

pub mod api;
pub mod datagen;
pub mod dates;
pub mod errors;
pub mod ingest;
pub mod models;
pub mod policy;
pub mod series;
pub mod store;
