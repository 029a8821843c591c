//! The stack-socket pairing: a single-object view over a stack and one of
//! its sockets.
//!
//! The pairing is a pure aggregate: constructing one has no effect, it holds
//! no buffering state of its own, and each of its operations is a pass-through
//! whose contract restates the stack's own, over the pair's fields. The one
//! operation with sequencing of its own is `write_text`, which drives the
//! blocking send primitive until a whole message has been accepted for
//! transmission.

use vstd::prelude::*;
use vstd::slice::slice_subrange;
use vstd::string::StringSliceAdditionalSpecFns;
use crate::nonblock::NbError;
use crate::stack::{SocketAddress, TcpClientStack};

verus! {

/// A stack together with one of its sockets, combined into a single entity
/// that knows enough to read from or write to the socket. Intended as an
/// ephemeral construction around a sequence of operations, and in particular
/// as a writable text sink over a connected socket.
pub struct StackAndSocket<TCS: TcpClientStack> {
    /// The stack needed to perform operations on `socket`.
    pub tcp_stack: TCS,
    /// A socket usable with `tcp_stack` to perform I/O.
    pub socket: TCS::TcpSocket,
}

/// Attaches a convenience factory to every stack: `stack.with_socket(socket)`
/// builds the pairing directly from the stack itself.
pub trait TcpClientStackPlus: TcpClientStack {
    /// Combine this stack with one of its sockets into a [`StackAndSocket`].
    /// Pure aggregation: the pairing holds exactly the two values given.
    fn with_socket(self, socket: Self::TcpSocket) -> (r: StackAndSocket<Self>)
        ensures
            r.tcp_stack == self,
            r.socket == socket,
    ;
}

impl<TCS: TcpClientStack> TcpClientStackPlus for TCS {
    fn with_socket(self, socket: TCS::TcpSocket) -> (r: StackAndSocket<TCS>) {
        StackAndSocket::new(self, socket)
    }
}

/// Law: constructing a pairing is pure aggregation with no observable
/// effect. The pairing built from a stack and a socket holds exactly those
/// two values, and its transmitted-bytes model is exactly the underlying
/// stack's own model on that socket, so any operation on the pairing starts
/// from the very state a direct use of the stack would start from.
pub proof fn lemma_pairing_is_inert<TCS: TcpClientStack>(stack: TCS, socket: TCS::TcpSocket)
    ensures
        (StackAndSocket { tcp_stack: stack, socket: socket }).sent() == stack.sent(&socket),
{
}

impl<TCS: TcpClientStack> StackAndSocket<TCS> {
    /// The bytes the underlying stack has accepted for transmission on the
    /// held socket, oldest first.
    pub open spec fn sent(&self) -> Seq<u8> {
        self.tcp_stack.sent(&self.socket)
    }

    /// Create a new pairing from a stack and a socket. Pure aggregation with
    /// no side effect: the pairing holds exactly the two values given.
    pub fn new(tcp_stack: TCS, socket: TCS::TcpSocket) -> (r: Self)
        ensures
            r.tcp_stack == tcp_stack,
            r.socket == socket,
    {
        StackAndSocket { tcp_stack, socket }
    }

    /// Issue a connection attempt to the given remote host and port.
    ///
    /// A pass-through of the stack's `connect` on the held socket: `Ok(())`
    /// once the attempt has been issued and confirmed, the would-block signal
    /// if it cannot be confirmed immediately, and the stack's own error,
    /// unmodified, on a genuine failure. No bytes are transmitted.
    pub fn connect(&mut self, remote: SocketAddress) -> (r: Result<(), NbError<TCS::Error>>)
        ensures
            final(self).sent() == old(self).sent(),
    {
        self.tcp_stack.connect(&mut self.socket, remote)
    }

    /// Check if this socket is connected.
    ///
    /// A pass-through of the stack's `is_connected` on the held socket: a
    /// pure query with no side effect on the transmitted bytes or the socket.
    pub fn is_connected(&mut self) -> (r: Result<bool, TCS::Error>)
        ensures
            final(self).sent() == old(self).sent(),
            final(self).socket == old(self).socket,
    {
        self.tcp_stack.is_connected(&self.socket)
    }

    /// Receive data from the stream: a single non-blocking attempt, no
    /// internal retry.
    ///
    /// A pass-through of the stack's `receive` on the held socket: `Ok(n)`
    /// means `n` bytes have been received and placed in `buffer[0..n]`, the
    /// rest of the buffer untouched; the would-block signal means no data is
    /// available right now. Nothing is transmitted and the buffer keeps its
    /// length.
    pub fn receive(&mut self, buffer: &mut Vec<u8>) -> (r: Result<usize, NbError<TCS::Error>>)
        ensures
            final(self).sent() == old(self).sent(),
            final(buffer)@.len() == old(buffer)@.len(),
            match r {
                Ok(n) => {
                    &&& n as int <= old(buffer)@.len()
                    &&& forall|i: int|
                        n as int <= i < old(buffer)@.len() ==> final(buffer)@[i] == old(buffer)@[i]
                },
                Err(_) => final(buffer)@ == old(buffer)@,
            },
    {
        self.tcp_stack.receive(&mut self.socket, buffer)
    }

    /// Write to the stream: a single non-blocking attempt, no internal retry.
    ///
    /// A pass-through of the stack's `send` on the held socket: on `Ok(n)`
    /// exactly the first `n` bytes of `buffer` have been accepted for
    /// transmission (`n` may be less than the buffer's length; partial writes
    /// are normal), the would-block signal means the stack can accept no
    /// bytes right now, and on an error nothing was accepted.
    pub fn send(&mut self, buffer: &[u8]) -> (r: Result<usize, NbError<TCS::Error>>)
        ensures
            match r {
                Ok(n) => {
                    &&& n as int <= buffer@.len()
                    &&& buffer@.len() > 0 ==> 1 <= n
                    &&& final(self).sent() == old(self).sent() + buffer@.take(n as int)
                },
                Err(_) => final(self).sent() == old(self).sent(),
            },
    {
        self.tcp_stack.send(&mut self.socket, buffer)
    }

    /// Transmit a whole byte buffer, blocking on would-block.
    ///
    /// Keeps a cursor over `buffer` and repeatedly hands the unsent suffix to
    /// the stack's blocking send primitive, advancing the cursor by however
    /// many bytes each attempt accepted, until every byte is accounted for.
    /// On success exactly `buffer`, in order, with no duplication or loss,
    /// has been appended to the transmitted bytes. On a genuine stack error
    /// the error is returned unmodified at once, no further attempt is made,
    /// and what had been accepted by then is some strict prefix of `buffer`;
    /// how long a prefix is not reported.
    pub fn write_all(&mut self, buffer: &[u8]) -> (r: Result<(), TCS::Error>)
        ensures
            match r {
                Ok(()) => final(self).sent() == old(self).sent() + buffer@,
                Err(_) => exists|i: int|
                    0 <= i < buffer@.len() && final(self).sent() == old(self).sent() + buffer@.take(i),
            },
    {
        proof {
            assert(self.sent() + buffer@.take(0) =~= self.sent());
        }
        let mut cursor: usize = 0;
        while cursor < buffer.len()
            invariant
                cursor as int <= buffer@.len(),
                self.sent() == old(self).sent() + buffer@.take(cursor as int),
            decreases buffer@.len() - cursor as int,
        {
            let rest = slice_subrange(buffer, cursor, buffer.len());
            match self.tcp_stack.send_blocking(&mut self.socket, rest) {
                Ok(n) => {
                    proof {
                        assert(old(self).sent() + buffer@.take(cursor as int)
                            + buffer@.subrange(cursor as int, buffer@.len() as int).take(n as int)
                            =~= old(self).sent() + buffer@.take(cursor as int + n as int));
                    }
                    cursor = cursor + n;
                }
                Err(e) => {
                    proof {
                        assert((cursor as int) < buffer@.len()
                            && self.sent() == old(self).sent() + buffer@.take(cursor as int));
                    }
                    return Err(e);
                }
            }
        }
        proof {
            assert(buffer@.take(buffer@.len() as int) =~= buffer@);
        }
        Ok(())
    }

    /// Transmit a whole text message, blocking on would-block: the writable
    /// text sink capability of the pairing.
    ///
    /// Encodes the message to its byte representation and drives `write_all`
    /// over it. On success exactly the message's bytes, in order, have been
    /// appended to the transmitted bytes; on a genuine stack error the error
    /// is returned unmodified, and how much of the message had been accepted
    /// by then is not reported.
    pub fn write_text(&mut self, message: &str) -> (r: Result<(), TCS::Error>)
        ensures
            match r {
                Ok(()) => final(self).sent() == old(self).sent() + message.spec_bytes(),
                Err(_) => exists|i: int|
                    0 <= i < message.spec_bytes().len()
                        && final(self).sent() == old(self).sent() + message.spec_bytes().take(i),
            },
    {
        self.write_all(message.as_bytes())
    }
}

} // verus!
