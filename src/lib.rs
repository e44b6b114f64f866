//! Runs client SQL in a private in-memory database and caches the tabular
//! result under content-derived fingerprints.

pub mod cache;
pub mod service;
pub mod sql;
