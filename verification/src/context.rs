//! The execution context manager: a place where the indefinitely long
//! subscription work can run without sharing, or ever blocking, the caller's
//! polling thread.

use vstd::prelude::*;

verus! {

/// The background multi-tasking runtime. Relied upon of `tokio`: tasks
/// spawned onto it run to completion independently of the caller's thread,
/// and dropping the runtime tears its spawned tasks down with it — which is
/// why the bridge owns it for exactly as long as itself.
#[verifier::external_type_specification]
#[verifier::external_body]
pub struct ExRuntime(tokio::runtime::Runtime);

/// The operating system's report when worker threads cannot be created.
/// Relied upon of `std::io::Error`: an opaque value, carried back to the
/// caller untouched.
#[verifier::external_type_specification]
#[verifier::external_body]
pub struct ExIoError(std::io::Error);

/// Relies on `tokio::runtime::Runtime::new`: a multi-threaded runtime with
/// its own worker threads, or the operating system's error when they cannot
/// be allocated — the one failure the bridge's constructor can meet.
#[verifier::external_body]
pub(crate) fn create_runtime() -> Result<tokio::runtime::Runtime, std::io::Error> {
    tokio::runtime::Runtime::new()
}

} // verus!
