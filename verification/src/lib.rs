//! A verified core for a write-once binary blob store.
//!
//! The library models the whole request-handling path of the service:
//! identifier generation and its canonical text form, size-bounded upload
//! admission, the store semantics, the three request handlers (upload,
//! retrieve, preflight), concurrency admission control, and the graceful
//! shutdown lifecycle. The surrounding process (HTTP transport, database
//! driver, signal handling) drives these verified steps from outside.

use vstd::prelude::*;

pub mod admission;
pub mod handlers;
pub mod id;
pub mod lifecycle;
pub mod response;
pub mod store;

verus! {

/// Largest accepted upload payload, in bytes (3 MiB).
pub const MAX_UPLOAD_BYTES: usize = 3 * 1024 * 1024;

} // verus!
