//! The blocking write-to-completion operation, driven over scripted stacks.

use stack_and_socket::pairing::StackAndSocket;
use stack_and_socket::scripted::{ScriptedStack, SendStep};

#[test]
fn it_works() {
    let result = 2 + 2;
    assert_eq!(result, 4);
}

/// A stack that accepts up to 4 bytes per send call, message "hello":
/// two send calls, "hell" then "o", and overall success.
#[test]
fn write_text_hello_two_attempts() {
    let stack = ScriptedStack::new(vec![
        SendStep::Accept { limit: 4 },
        SendStep::Accept { limit: 4 },
    ]);
    let socket = stack.socket();
    let mut pair = StackAndSocket::new(stack, socket);

    let r = pair.write_text("hello");

    assert_eq!(r, Ok(()));
    assert_eq!(pair.tcp_stack.attempts, 2);
    assert_eq!(pair.tcp_stack.transmitted, b"hello".to_vec());
}

/// A message of 7 bytes against a cap of 2 bytes per attempt needs
/// ceil(7/2) = 4 attempts, and what arrives is exactly the message,
/// in order, with no duplication or loss.
#[test]
fn write_all_chunked_in_order_no_loss() {
    let stack = ScriptedStack::new(vec![
        SendStep::Accept { limit: 2 },
        SendStep::Accept { limit: 2 },
        SendStep::Accept { limit: 2 },
        SendStep::Accept { limit: 2 },
    ]);
    let socket = stack.socket();
    let mut pair = StackAndSocket::new(stack, socket);

    let r = pair.write_all(b"chunked");

    assert_eq!(r, Ok(()));
    assert_eq!(pair.tcp_stack.attempts, 4);
    assert_eq!(pair.tcp_stack.transmitted, b"chunked".to_vec());
}

/// A stack that signals would-block exactly 3 times and then accepts:
/// the write blocks through all 3 signals and succeeds on the 4th attempt.
#[test]
fn write_text_retries_through_would_block() {
    let stack = ScriptedStack::new(vec![
        SendStep::Block,
        SendStep::Block,
        SendStep::Block,
        SendStep::Accept { limit: 100 },
    ]);
    let socket = stack.socket();
    let mut pair = StackAndSocket::new(stack, socket);

    let r = pair.write_text("hi");

    assert_eq!(r, Ok(()));
    assert_eq!(pair.tcp_stack.attempts, 4);
    assert_eq!(pair.tcp_stack.transmitted, b"hi".to_vec());
}

/// A genuine error on the second attempt, after 4 of 5 bytes went out:
/// the write returns that same error, makes no further attempt, and the
/// partial progress is not reported.
#[test]
fn write_text_error_stops_attempts() {
    let stack = ScriptedStack::new(vec![
        SendStep::Accept { limit: 4 },
        SendStep::Fail { code: 7 },
        SendStep::Accept { limit: 100 },
    ]);
    let socket = stack.socket();
    let mut pair = StackAndSocket::new(stack, socket);

    let r = pair.write_text("hello");

    assert_eq!(r, Err(7));
    assert_eq!(pair.tcp_stack.attempts, 2);
    assert_eq!(pair.tcp_stack.next_send, 2);
    assert_eq!(pair.tcp_stack.transmitted, b"hell".to_vec());
}

/// An empty message needs no send attempt at all.
#[test]
fn write_text_empty_message_no_attempts() {
    let stack = ScriptedStack::new(vec![SendStep::Fail { code: 1 }]);
    let socket = stack.socket();
    let mut pair = StackAndSocket::new(stack, socket);

    let r = pair.write_text("");

    assert_eq!(r, Ok(()));
    assert_eq!(pair.tcp_stack.attempts, 0);
    assert_eq!(pair.tcp_stack.transmitted, Vec::new());
}

/// A step that can accept no bytes counts as would-block, and the write
/// carries on with the next attempt.
#[test]
fn write_text_zero_cap_counts_as_would_block() {
    let stack = ScriptedStack::new(vec![
        SendStep::Accept { limit: 0 },
        SendStep::Accept { limit: 10 },
    ]);
    let socket = stack.socket();
    let mut pair = StackAndSocket::new(stack, socket);

    let r = pair.write_text("ok");

    assert_eq!(r, Ok(()));
    assert_eq!(pair.tcp_stack.attempts, 2);
    assert_eq!(pair.tcp_stack.transmitted, b"ok".to_vec());
}

/// Past the end of its script a stack accepts whatever is offered in one go.
#[test]
fn write_text_past_script_accepts_all() {
    let stack = ScriptedStack::new(Vec::new());
    let socket = stack.socket();
    let mut pair = StackAndSocket::new(stack, socket);

    let r = pair.write_text("all at once");

    assert_eq!(r, Ok(()));
    assert_eq!(pair.tcp_stack.attempts, 1);
    assert_eq!(pair.tcp_stack.transmitted, b"all at once".to_vec());
}

/// A message outside ASCII is transmitted as its byte representation.
#[test]
fn write_text_encodes_non_ascii() {
    let stack = ScriptedStack::new(vec![SendStep::Accept { limit: 3 }]);
    let socket = stack.socket();
    let mut pair = StackAndSocket::new(stack, socket);

    let message = "héllo";
    let r = pair.write_text(message);

    assert_eq!(r, Ok(()));
    assert_eq!(pair.tcp_stack.attempts, 2);
    assert_eq!(pair.tcp_stack.transmitted, message.as_bytes().to_vec());
}
