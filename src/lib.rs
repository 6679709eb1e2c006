//! Resolution of a named CI/CD variable in a project or group scope.
//!
//! The library decides which lookups to make and what result to report; the
//! lookups themselves are made by the caller, which hands each outcome back.

pub mod request;
pub mod resolver;
pub mod laws;
