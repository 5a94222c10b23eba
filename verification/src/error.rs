//! The ways in which a message can fail to be written or read.

use vstd::prelude::*;

verus! {

/// Why a message could not be written, or why what was received could not be
/// read.  Failures of the socket itself are not among these: they belong to
/// whoever owns the socket.
#[derive(Debug, Clone, Copy, PartialEq, Eq, Structural)]
pub enum ProtocolError {
    /// `serde_json` reported an error while writing a value as JSON text.
    Encode,
    /// The first datagram of a message is not eight bytes long.
    Prefix,
    /// The second datagram of a message is not as long as the first announced.
    Body,
    /// `serde_json` refused the text: it is not JSON, or not JSON of the kind
    /// that was asked for.
    Json,
    /// The JSON lacks a member that the protocol requires.
    Shape,
    /// The persisted table names a locale twice.
    Duplicate,
}

} // verus!
