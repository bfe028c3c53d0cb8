//! The verification core of a client for repositories of The Update
//! Framework: which metadata to fetch, whether what came back is to be
//! trusted, and how a target is to be read.
//!
//! Nothing here reads a file or opens a connection. A load is taken stage by
//! stage: each stage says what to fetch, and is carried on with what came
//! back. The datastore is a value that the caller reads from durable storage
//! before a load and writes back as the stages ask.

pub mod clock;
pub mod datastore;
pub mod der;
pub mod error;
pub mod fetch;
pub mod laws;
pub mod limits;
pub mod metadata;
pub mod named_map;
pub mod repository;
pub mod root;
pub mod schema;
pub mod time;
pub mod urls;
pub mod verify;

pub use crate::limits::Limits;
pub use crate::repository::{Repository, Settings, Target};
