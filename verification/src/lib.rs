//! Core of a small image-storage service: a client pushes an encoded image, the
//! service decodes it, applies one transform drawn from a fixed registry, and
//! hands back the artifact to persist; later the artifact is returned by key.
//!
//! Everything here is pure with respect to the file system and the network: the
//! caller performs the reads and writes and reports their outcome.

pub mod client;
pub mod codec;
pub mod medium;
pub mod model;
pub mod naming;
pub mod registry;
pub mod storage;
