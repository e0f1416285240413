//! The decisions of a counter served over channels: the server thread keeps
//! a count, and each message from the client changes it, asks for it, or
//! ends the service.
use vstd::prelude::*;

verus! {

/// A message from the client.
#[derive(Clone, Copy, Debug, PartialEq, Eq, Structural)]
pub enum ClientMessage {
    Incr,
    Get,
    Quit,
}

/// What the server does after a message.
#[derive(Clone, Copy, Debug, PartialEq, Eq, Structural)]
pub enum ServerAction {
    /// Wait for the next message.
    Continue,
    /// Send the count back, then wait for the next message.
    Reply(usize),
    /// Stop serving.
    Stop,
}

/// The count and the action after the server receives `msg` with count `n`.
pub fn serve(n: usize, msg: ClientMessage) -> (r: (usize, ServerAction))
    requires
        msg == ClientMessage::Incr ==> n < usize::MAX,
    ensures
        r == (match msg {
            ClientMessage::Incr => ((n + 1) as usize, ServerAction::Continue),
            ClientMessage::Get => (n, ServerAction::Reply(n)),
            ClientMessage::Quit => (n, ServerAction::Stop),
        }),
{
    match msg {
        ClientMessage::Incr => (n + 1, ServerAction::Continue),
        ClientMessage::Get => (n, ServerAction::Reply(n)),
        ClientMessage::Quit => (n, ServerAction::Stop),
    }
}

} // verus!
