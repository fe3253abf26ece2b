//! Text and image embeddings for a host database engine, with the logic that
//! decides what is asked of each provider and what comes back: client options,
//! the client registry, path-qualified response parsing, the bounded-concurrency
//! batch scheduler and the table-valued batch cursor.

pub mod batch;
pub mod clients;
pub mod concurrent;
pub mod error;
pub mod json;
pub mod legacy;
pub mod mock;
pub mod options;
pub mod pipeline;
pub mod registry;
pub mod response;
pub mod text;
