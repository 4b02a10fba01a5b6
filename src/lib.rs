//! Resolving what a content host is playing into the bytes of a requested resource.
//!
//! Content is either a loose file addressed by its URL, or a bundle that owns its
//! own namespace of entries. The URL of a resource inside a bundle is turned into
//! the bundle's internal path by percent-decoding each path segment on its own.
pub mod locator;
pub mod content;
pub mod laws;
