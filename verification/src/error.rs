//! How outside work went, and what can go wrong while one connection is
//! handled.

use vstd::prelude::*;

verus! {

/// Why the handling of a connection ended without a relay.
///
/// Each of these is final for its connection and for nothing else: nobody
/// retries, and the driver closes the socket. A failed half-close is no error
/// at all and has no variant here.
#[derive(Clone, Copy, Debug, PartialEq, Eq, Structural)]
pub enum Socks4Error {
    /// The stream ended before the fixed fields of a request were complete.
    Framing,
    /// The destination refused the connection or could not be reached.
    Dial,
    /// The reply could not be written to the client.
    Write,
    /// A second handle to one of the two connections could not be had.
    Duplicate,
}

/// How an action went that the driver performed on the library's behalf.
#[derive(Clone, Copy, Debug, PartialEq, Eq, Structural)]
pub enum Outcome {
    /// The action was carried out.
    Succeeded,
    /// The action met an error.
    Failed,
}

} // verus!
