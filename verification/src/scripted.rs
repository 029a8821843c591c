//! A scripted stack: a bounded, fully verified stand-in for a real TCP stack.
//!
//! Each operation consumes the next step of a per-operation script and
//! answers as that step says; past the end of its script an operation
//! succeeds. The stack records every byte it accepts for transmission and
//! counts every send attempt, so a caller can observe exactly what a sequence
//! of operations did: how many attempts were made, which bytes went out and
//! in what order, and which remote address a connection attempt named.

use vstd::prelude::*;
use vstd::slice::slice_index_get;
use crate::nonblock::NbError;
use crate::stack::{SocketAddress, TcpClientStack};

verus! {

/// What the next single send attempt does.
#[derive(Clone, Copy, Debug, PartialEq, Eq)]
pub enum SendStep {
    /// Accept up to `limit` bytes of the offered buffer; if that comes to no
    /// bytes at all while some were offered, signal would-block instead.
    Accept { limit: usize },
    /// Signal would-block: no bytes can be accepted right now.
    Block,
    /// Fail with the given error code; nothing is accepted.
    Fail { code: u32 },
}

/// What the next connection attempt answers.
#[derive(Clone, Copy, Debug, PartialEq, Eq)]
pub enum ConnectStep {
    /// The connection attempt completes.
    Done,
    /// The attempt cannot be confirmed right now: would-block.
    Block,
    /// The attempt fails with the given error code.
    Fail { code: u32 },
}

/// What the next connection-status query answers.
#[derive(Clone, Copy, Debug, PartialEq, Eq)]
pub enum QueryStep {
    /// Report the socket as connected.
    Connected,
    /// Report the socket as not connected.
    Disconnected,
    /// Fail with the given error code.
    Fail { code: u32 },
}

/// What the next receive attempt does.
#[derive(Clone, Debug, PartialEq, Eq)]
pub enum RecvStep {
    /// Deliver these bytes, as many of them as the caller's buffer can hold.
    Deliver { data: Vec<u8> },
    /// Signal would-block: no data is available right now.
    Block,
    /// Fail with the given error code; the buffer is untouched.
    Fail { code: u32 },
}

/// The socket handle of a [`ScriptedStack`]. All connection state lives in
/// the stack itself, as it would behind a real stack's opaque handle; the
/// handle only stands for the one scripted connection.
pub struct ScriptedSocket {}

/// A TCP client stack whose behaviour is given by finite scripts, one per
/// operation, and which records everything it was asked to do.
pub struct ScriptedStack {
    /// Every byte accepted for transmission so far, oldest first.
    pub transmitted: Vec<u8>,
    /// The scripted answers of coming single send attempts.
    pub send_script: Vec<SendStep>,
    /// How many send-script steps have been consumed.
    pub next_send: usize,
    /// How many single send attempts have been made, saturating at the
    /// counter's maximum.
    pub attempts: u64,
    /// The scripted answers of coming connection attempts.
    pub connect_script: Vec<ConnectStep>,
    /// How many connect-script steps have been consumed.
    pub next_connect: usize,
    /// The remote address of the most recent connection attempt.
    pub last_remote: Option<SocketAddress>,
    /// The scripted answers of coming connection-status queries.
    pub query_script: Vec<QueryStep>,
    /// How many query-script steps have been consumed.
    pub next_query: usize,
    /// The scripted answers of coming receive attempts.
    pub recv_script: Vec<RecvStep>,
    /// How many receive-script steps have been consumed.
    pub next_recv: usize,
}

/// Append the first `n` bytes of `src` to `dst`.
fn push_prefix(dst: &mut Vec<u8>, src: &[u8], n: usize)
    requires
        n as int <= src@.len(),
    ensures
        final(dst)@ == old(dst)@ + src@.take(n as int),
{
    proof {
        assert(dst@ + src@.take(0) =~= dst@);
    }
    let mut i: usize = 0;
    while i < n
        invariant
            i <= n,
            n as int <= src@.len(),
            dst@ == old(dst)@ + src@.take(i as int),
        decreases n - i,
    {
        let b: u8 = *slice_index_get(src, i);
        dst.push(b);
        proof {
            assert(old(dst)@ + src@.take(i as int) + seq![src@[i as int]]
                =~= old(dst)@ + src@.take(i as int + 1));
        }
        i = i + 1;
    }
}

impl ScriptedStack {
    /// A stack with the given send script and empty scripts for everything
    /// else: connection attempts and status queries succeed, receive attempts
    /// deliver nothing, sends past the script's end accept whatever is
    /// offered.
    pub fn new(send_script: Vec<SendStep>) -> (r: Self)
        ensures
            r.transmitted@ == Seq::<u8>::empty(),
            r.send_script == send_script,
            r.next_send == 0,
            r.attempts == 0,
    {
        ScriptedStack {
            transmitted: Vec::new(),
            send_script,
            next_send: 0,
            attempts: 0,
            connect_script: Vec::new(),
            next_connect: 0,
            last_remote: None,
            query_script: Vec::new(),
            next_query: 0,
            recv_script: Vec::new(),
            next_recv: 0,
        }
    }

    /// A socket handle for this stack.
    pub fn socket(&self) -> (r: ScriptedSocket)
    {
        ScriptedSocket {}
    }

    /// One single send attempt: count it, consume the next send-script step,
    /// and answer as that step says; past the script's end, accept the whole
    /// buffer.
    fn attempt_send(&mut self, buffer: &[u8]) -> (r: Result<usize, NbError<u32>>)
        ensures
            (old(self).next_send as int) < old(self).send_script@.len()
                ==> final(self).next_send as int == old(self).next_send as int + 1,
            (old(self).next_send as int) >= old(self).send_script@.len()
                ==> final(self).next_send == old(self).next_send,
            final(self).send_script == old(self).send_script,
            final(self).connect_script == old(self).connect_script,
            final(self).next_connect == old(self).next_connect,
            final(self).last_remote == old(self).last_remote,
            final(self).query_script == old(self).query_script,
            final(self).next_query == old(self).next_query,
            final(self).recv_script == old(self).recv_script,
            final(self).next_recv == old(self).next_recv,
            old(self).next_send as int >= old(self).send_script@.len() ==> r is Ok,
            match r {
                Ok(n) => {
                    &&& n as int <= buffer@.len()
                    &&& buffer@.len() > 0 ==> 1 <= n
                    &&& final(self).transmitted@ == old(self).transmitted@ + buffer@.take(n as int)
                },
                Err(_) => final(self).transmitted@ == old(self).transmitted@,
            },
    {
        if self.attempts < u64::MAX {
            self.attempts = self.attempts + 1;
        }
        proof {
            assert(self.transmitted@ + buffer@.take(0) =~= self.transmitted@);
        }
        if self.next_send < self.send_script.len() {
            let idx = self.next_send;
            self.next_send = self.next_send + 1;
            let step = self.send_script[idx];
            match step {
                SendStep::Accept { limit } => {
                    let n = if limit < buffer.len() { limit } else { buffer.len() };
                    if n == 0 && buffer.len() > 0 {
                        Err(NbError::WouldBlock)
                    } else {
                        push_prefix(&mut self.transmitted, buffer, n);
                        Ok(n)
                    }
                }
                SendStep::Block => Err(NbError::WouldBlock),
                SendStep::Fail { code } => Err(NbError::Other(code)),
            }
        } else {
            let n = buffer.len();
            push_prefix(&mut self.transmitted, buffer, n);
            proof {
                assert(buffer@.take(buffer@.len() as int) =~= buffer@);
            }
            Ok(n)
        }
    }
}

impl TcpClientStack for ScriptedStack {
    type TcpSocket = ScriptedSocket;

    type Error = u32;

    open spec fn sent(&self, socket: &ScriptedSocket) -> Seq<u8> {
        self.transmitted@
    }

    fn connect(
        &mut self,
        socket: &mut ScriptedSocket,
        remote: SocketAddress,
    ) -> (r: Result<(), NbError<u32>>) {
        self.last_remote = Some(remote);
        if self.next_connect < self.connect_script.len() {
            let idx = self.next_connect;
            self.next_connect = self.next_connect + 1;
            match self.connect_script[idx] {
                ConnectStep::Done => Ok(()),
                ConnectStep::Block => Err(NbError::WouldBlock),
                ConnectStep::Fail { code } => Err(NbError::Other(code)),
            }
        } else {
            Ok(())
        }
    }

    fn is_connected(&mut self, socket: &ScriptedSocket) -> (r: Result<bool, u32>) {
        if self.next_query < self.query_script.len() {
            let idx = self.next_query;
            self.next_query = self.next_query + 1;
            match self.query_script[idx] {
                QueryStep::Connected => Ok(true),
                QueryStep::Disconnected => Ok(false),
                QueryStep::Fail { code } => Err(code),
            }
        } else {
            Ok(true)
        }
    }

    fn receive(
        &mut self,
        socket: &mut ScriptedSocket,
        buffer: &mut Vec<u8>,
    ) -> (r: Result<usize, NbError<u32>>) {
        if self.next_recv < self.recv_script.len() {
            let idx = self.next_recv;
            self.next_recv = self.next_recv + 1;
            let step = self.recv_script[idx].clone();
            match step {
                RecvStep::Deliver { data } => {
                    let n = if data.len() < buffer.len() { data.len() } else { buffer.len() };
                    let mut i: usize = 0;
                    while i < n
                        invariant
                            i <= n,
                            n as int <= data@.len(),
                            n as int <= old(buffer)@.len(),
                            buffer@.len() == old(buffer)@.len(),
                            forall|j: int|
                                i as int <= j < buffer@.len() ==> buffer@[j] == old(buffer)@[j],
                        decreases n - i,
                    {
                        let b: u8 = data[i];
                        buffer[i] = b;
                        i = i + 1;
                    }
                    Ok(n)
                }
                RecvStep::Block => Err(NbError::WouldBlock),
                RecvStep::Fail { code } => Err(NbError::Other(code)),
            }
        } else {
            Ok(0)
        }
    }

    fn send(
        &mut self,
        socket: &mut ScriptedSocket,
        buffer: &[u8],
    ) -> (r: Result<usize, NbError<u32>>) {
        self.attempt_send(buffer)
    }

    /// Re-attempt the single send until it stops signalling would-block: the
    /// scripted counterpart of the environment's block-on-would-block
    /// primitive. Terminates because each blocked attempt consumes one of the
    /// finitely many script steps, and past the script's end every attempt
    /// succeeds.
    fn send_blocking(
        &mut self,
        socket: &mut ScriptedSocket,
        buffer: &[u8],
    ) -> (r: Result<usize, u32>) {
        loop
            invariant
                self.transmitted@ == old(self).transmitted@,
            decreases self.send_script@.len() - self.next_send as int,
        {
            match self.attempt_send(buffer) {
                Ok(n) => {
                    return Ok(n);
                }
                Err(NbError::WouldBlock) => {
                }
                Err(NbError::Other(code)) => {
                    return Err(code);
                }
            }
        }
    }
}

} // verus!
