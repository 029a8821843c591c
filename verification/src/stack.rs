//! The network stack abstraction the pairing is built over.
//!
//! A stack offers non-blocking connect/send/receive/status operations over an
//! opaque socket handle, plus the environment's block-on-would-block send
//! primitive. The trait carries a specification-level model: `sent` is the
//! sequence of bytes the stack has accepted for transmission on a socket,
//! oldest first. Every operation's contract is stated over that model, so
//! code written against the trait is verified against exactly the documented
//! behaviour of the abstraction, for every conforming stack.

use vstd::prelude::*;
use crate::nonblock::NbError;

verus! {

/// A remote address: host and port, in the address families a TCP stack accepts.
#[derive(Clone, Copy, Debug, PartialEq, Eq)]
pub enum SocketAddress {
    /// An IPv4 host and port.
    V4 { octets: [u8; 4], port: u16 },
    /// An IPv6 host and port.
    V6 { segments: [u16; 8], port: u16 },
}

/// A TCP client stack: the provider of non-blocking socket operations over an
/// opaque socket handle type, with an opaque error type.
///
/// The model function `sent` gives the bytes the stack has accepted for
/// transmission on a socket so far. The operation contracts pin down how each
/// call may change that sequence; everything else a concrete stack does is its
/// own business.
pub trait TcpClientStack: Sized {
    /// The stack's socket handle type.
    type TcpSocket;

    /// The stack's error type.
    type Error;

    /// The bytes this stack has accepted for transmission on `socket`,
    /// oldest first.
    spec fn sent(&self, socket: &Self::TcpSocket) -> Seq<u8>;

    /// Issue a connection attempt to the given remote host and port.
    ///
    /// Returns `Ok(())` once the attempt has been issued and confirmed,
    /// `Err(NbError::WouldBlock)` if it cannot be confirmed immediately (retry
    /// later), and `Err(NbError::Other(e))` on a genuine connection failure.
    /// Connecting transmits no payload bytes.
    fn connect(
        &mut self,
        socket: &mut Self::TcpSocket,
        remote: SocketAddress,
    ) -> (r: Result<(), NbError<Self::Error>>)
        ensures
            final(self).sent(final(socket)) == old(self).sent(old(socket)),
    ;

    /// Query whether the socket is connected. A pure query: it transmits
    /// nothing and leaves the socket untouched.
    fn is_connected(&mut self, socket: &Self::TcpSocket) -> (r: Result<bool, Self::Error>)
        ensures
            final(self).sent(socket) == old(self).sent(socket),
    ;

    /// A single non-blocking receive attempt. On `Ok(n)`, `n` received bytes
    /// have been placed in `buffer[0..n]` and the rest of the buffer is
    /// untouched; `Err(NbError::WouldBlock)` means no data is available right
    /// now. Receiving transmits nothing and never resizes the buffer.
    fn receive(
        &mut self,
        socket: &mut Self::TcpSocket,
        buffer: &mut Vec<u8>,
    ) -> (r: Result<usize, NbError<Self::Error>>)
        ensures
            final(self).sent(final(socket)) == old(self).sent(old(socket)),
            final(buffer)@.len() == old(buffer)@.len(),
            match r {
                Ok(n) => {
                    &&& n as int <= old(buffer)@.len()
                    &&& forall|i: int|
                        n as int <= i < old(buffer)@.len() ==> final(buffer)@[i] == old(buffer)@[i]
                },
                Err(_) => final(buffer)@ == old(buffer)@,
            },
    ;

    /// A single non-blocking send attempt. On `Ok(n)` the stack has accepted
    /// exactly the first `n` bytes of `buffer` for transmission, `n` at least
    /// one when the buffer is not empty (a stack that can accept no bytes
    /// signals would-block instead). On `Err` nothing was accepted.
    fn send(
        &mut self,
        socket: &mut Self::TcpSocket,
        buffer: &[u8],
    ) -> (r: Result<usize, NbError<Self::Error>>)
        ensures
            match r {
                Ok(n) => {
                    &&& n as int <= buffer@.len()
                    &&& buffer@.len() > 0 ==> 1 <= n
                    &&& final(self).sent(final(socket))
                        == old(self).sent(old(socket)) + buffer@.take(n as int)
                },
                Err(_) => final(self).sent(final(socket)) == old(self).sent(old(socket)),
            },
    ;

    /// The environment's block-on-would-block primitive applied to `send`: it
    /// re-attempts the send for as long as the stack signals would-block, and
    /// returns only once an attempt succeeds or fails with a genuine error.
    /// The success and failure cases promise exactly what a successful or
    /// failed single attempt does; the would-block signal never escapes.
    fn send_blocking(
        &mut self,
        socket: &mut Self::TcpSocket,
        buffer: &[u8],
    ) -> (r: Result<usize, Self::Error>)
        ensures
            match r {
                Ok(n) => {
                    &&& n as int <= buffer@.len()
                    &&& buffer@.len() > 0 ==> 1 <= n
                    &&& final(self).sent(final(socket))
                        == old(self).sent(old(socket)) + buffer@.take(n as int)
                },
                Err(_) => final(self).sent(final(socket)) == old(self).sent(old(socket)),
            },
    ;
}

} // verus!
