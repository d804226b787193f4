//! Core of a small FTP file manager: a connection-lifecycle state machine for
//! a single shared FTP session, a local filesystem cursor, a liveness monitor,
//! and the pure helpers (byte-size formatting, breadcrumb building, listing
//! classification) that the surrounding web layer renders.
use vstd::prelude::*;

pub mod breadcrumb;
pub mod entries;
pub mod local;
pub mod monitor;
pub mod session;
pub mod size;
pub mod templates;

verus! {

/// The error taxonomy of the manager: every failure of a remote or local
/// operation is reported as one of these and never escapes as a panic.
#[derive(Clone, Copy, Debug, PartialEq, Eq, Structural)]
pub enum OpError {
    /// Opening the control connection failed.
    Network,
    /// The server rejected the credentials.
    Auth,
    /// An operation needed a live session and none was present.
    NotConnected,
    /// The server rejected a command or answered unparseably.
    Protocol,
    /// A local filesystem operation failed.
    Io,
}

} // verus!
