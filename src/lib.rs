//! The receiving side of a federated publishing server: an inbound activity
//! is given its kind once, its references are resolved to local users,
//! publications, posts, comments and likes, and only then is its one effect
//! applied.
pub mod envelope;
pub mod error;
pub mod inbox;
pub mod json;
pub mod laws;
pub mod model;
pub mod records;
pub mod text;
