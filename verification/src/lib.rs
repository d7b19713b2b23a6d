//! A plan service: the data model, the storage layer's documents and the
//! response envelopes of a CRUD service over a single `plans` collection.

pub mod api;
pub mod collection;
pub mod db;
pub mod document;
pub mod error;
pub mod json;
pub mod models;
