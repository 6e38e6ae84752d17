//! An event-sourced model store with a notification engine, and the domain
//! objects that are built on it.
//!
//! Decoded models are applied to a [`store::Store`]; every application yields
//! the notification keys it touched, and the [`executor::Executor`] wakes the
//! observers registered for those keys. An observer learns that something
//! changed, never what: it reads the store again.
//!
//! - [`keys`]: how notification keys are derived and deduplicated.
//! - [`store`]: the records of the models and aggregates, and the indices.
//! - [`models`]: what every model offers, the union of all kinds of model,
//!   and how a model is applied and redacted.
//! - [`read_receipts`], [`comments`], [`attachments`]: the aggregates that
//!   count the readers of a model, the comments on it and its attachments.
//! - [`registry`]: the channels, one per key, as far as they are trusted.
//! - [`executor`]: applying a model, subscribing, waiting, notifying.
//! - [`client`], [`spaces`]: what the features ask of the store.
//! - [`calendar`], [`news`], [`tasks`]: the kinds of model and their
//!   builders.
//! - [`content`], [`datetime`], [`identifiers`], [`media`], [`msg_draft`], [`stream`],
//!   [`verification`], [`media_cache`], [`test_model`]: the plain values
//!   around them.

pub mod attachments;
pub mod calendar;
pub mod client;
pub mod comments;
pub mod content;
pub mod datetime;
pub mod error;
pub mod executor;
pub mod identifiers;
pub mod keys;
pub mod media;
pub mod media_cache;
pub mod models;
pub mod msg_draft;
pub mod news;
pub mod read_receipts;
pub mod registry;
pub mod spaces;
pub mod store;
pub mod stream;
pub mod tasks;
pub mod test_model;
pub mod verification;
