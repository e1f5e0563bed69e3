//! Verified core of a launch-and-patch orchestrator.
//!
//! The library locates a third-party installation, mirrors it into a private
//! sandbox directory behind a version gate, temporarily prefixes a bootstrap
//! payload onto the mirrored launcher script, and drives a scan over the
//! child process's output lines to recover the port it announces.  All
//! decisions are made here over plain byte values; the thin shell around the
//! library performs the actual registry lookup, file transfers and process
//! supervision and feeds the results back in.

use vstd::prelude::*;

pub mod bytes;
pub mod guard;
pub mod launch;
pub mod locate;
pub mod mirror;
pub mod patch;
pub mod scan;

verus! {

/// Why a launch attempt failed.  Every failure is reported to the caller as a
/// tagged value; none is silently swallowed.
#[derive(Clone, Copy, Debug, PartialEq, Eq, Structural)]
pub enum LaunchError {
    /// The configuration store has no install record for the application.
    NotFound,
    /// The configuration-store lookup failed, or its record was malformed.
    ConfigStoreError,
    /// Rebuilding the sandbox mirror failed part-way.
    SyncFailed,
    /// The mirrored executable could not be spawned.
    SpawnFailed,
    /// The child's standard output could not be captured.
    StdoutUnavailable,
    /// Reading from the child's output, or the launcher script, failed.
    ReadFailed,
    /// Writing a script variant back to disk failed.
    WriteFailed,
    /// The text between the two port markers did not parse as a 16-bit port.
    PortParseFailed,
    /// The child's output ended before the port was announced.
    ChildExitedEarly,
}

} // verus!
