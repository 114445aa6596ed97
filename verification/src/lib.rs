//! Self-update pipeline for a client application: resolve the latest release
//! from a remote registry, decide whether it is newer than the running build,
//! download its first asset with bounded retries and exponential backoff, and
//! pick the replacement binary out of the downloaded archive.
//!
//! Every decision the pipeline makes (failure classification, backoff
//! scheduling, version comparison, metadata validation, archive-entry
//! selection) lives here, verified. The surrounding process (HTTP requests,
//! sleeping, file I/O, tar/gzip streaming) is driven by the embedding
//! application, which feeds plain values into these functions.

pub mod errors;
pub mod install;
pub mod release;
pub mod retry;
pub mod update;
pub mod version;
