//! The synchronous command/response channel that carries the wire protocol.
//!
//! The transport is an external collaborator: device enumeration, endpoint
//! handling and transfer I/O live outside this crate.  The driver states
//! nothing about what a transport returns; every response is validated
//! after the fact.

use vstd::prelude::*;

verus! {

/// Timeout handed to the transport for every command, in milliseconds.
pub const TIMEOUT_MS: u64 = 1000;

/// A failure of the underlying channel itself, reported unchanged.
#[derive(Clone, Copy, Debug, PartialEq, Eq, Structural)]
pub enum TransportError {
    /// No response arrived within the timeout.
    Timeout,
    /// The channel failed to carry the transfer.
    Io,
}

/// A synchronous request/response channel with a hard-reset primitive.
///
/// One call of `write` sends one command (with optional extra payload
/// bytes) and blocks for one response of the requested length.  The
/// driver owns the transport exclusively; operations are totally ordered.
pub trait Transport {
    /// Sends `cmd` followed by `data`, then reads a response of up to
    /// `response_len` bytes, blocking at most `timeout_ms` milliseconds.
    fn write(&mut self, cmd: &[u8], data: &[u8], response_len: usize, timeout_ms: u64) -> (r:
        Result<Vec<u8>, TransportError>);

    /// Hard-resets the device behind the channel.
    fn reset(&mut self) -> (r: Result<(), TransportError>);
}

} // verus!
