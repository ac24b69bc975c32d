//! What the request handlers decide.

pub mod posts;
