//! Pair a TCP client stack with one of its sockets, so that the pair can be
//! passed around as a single entity, used to connect, send and receive, and
//! written to as a text sink that transmits whole messages over the socket.
//!
//! The stack abstraction is the trait [`stack::TcpClientStack`], whose
//! contracts model exactly the bytes a stack accepts for transmission; the
//! pairing [`pairing::StackAndSocket`] passes each operation through and adds
//! the one piece of sequencing of its own, the write-to-completion loop.
//! [`scripted::ScriptedStack`] is a bounded, fully specified stack for
//! exercising the pairing.

pub mod nonblock;
pub mod pairing;
pub mod scripted;
pub mod stack;
