//! Core logic of a small image-redirect service.
//!
//! Given a device category (a path segment) and a numeric identifier (a query
//! value), the service resolves an image URL through a remote metadata API,
//! caches the mapping from identifier to URL, and answers with a permanent
//! redirect. This crate holds the verified core: identifier parsing, the
//! resolver cache, and the per-request decision logic. The HTTP server,
//! session cookies and the network call live outside the crate and drive it
//! through the handler's decision functions.

pub mod cache;

pub mod handler;

pub mod parse;

pub mod upstream;
