//! A small client library for a remote user directory.
//!
//! The library models the JSON documents the directory serves as a tree of
//! plain values, decodes and encodes user records structurally, and builds
//! the request URLs. Performing the HTTP exchange itself is left to the
//! caller; the library turns response bodies into typed records.

pub mod client;
pub mod codec;
pub mod json;
pub mod model;
