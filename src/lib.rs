//! A small image host: identifiers for uploads, stored names derived from
//! them, and the decisions that turn uploads and retrievals into responses.
//! The HTTP server and the disk stay outside this library; they hand it plain
//! values and act on what it returns.

pub mod ids;
pub mod text;
pub mod response;
pub mod retrieval;
pub mod upload;
pub mod laws;
