//! A read-only account listing library: domain model with canonical enum
//! strings, a row decoder for generic attribute maps, a filter-expression
//! builder, and a repository composed over a substitutable database client.
//!
//! The HTTP surface, cloud configuration and the real store adapter are
//! external collaborators; this crate holds the logic they delegate to.

pub mod account;
pub mod attribute;
pub mod decoder;
pub mod error;
pub mod filter;
pub mod model;
pub mod repository;
pub mod service;
pub mod text;
pub mod timestamp;
