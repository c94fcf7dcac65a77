//! Conversations with the foreign runtime.
//!
//! Every operation of the bridge is a conversation: the bridge names what it
//! wants from the runtime, the caller obtains it and hands the answer back,
//! and so on until a value is there. The bridge holds the script; the caller
//! carries the lines.

use vstd::prelude::*;
use crate::lifetime::Upkeep;
use crate::message::DispatchError;
use crate::message::Message;
use crate::message::MessageView;
use crate::message::Reply;

verus! {

/// What the bridge wants from the runtime next.
#[derive(Debug, PartialEq, Eq)]
pub enum Request {
    /// Send this message; the answer is the content of its return slot.
    Send(Message),
    /// Read `length` bytes at `address`; the answer is [`Reply::Bytes`].
    Read { address: usize, length: usize },
    /// Call the plain function of this name, which takes nothing and returns
    /// an object; the answer is [`Reply::Object`].
    Invoke { function: &'static str },
}

/// A request, with its text and lists as sequences.
pub enum RequestView {
    Send(MessageView),
    Read { address: usize, length: usize },
    Invoke { function: Seq<char> },
}

impl View for Request {
    type V = RequestView;

    open spec fn view(&self) -> RequestView {
        match *self {
            Request::Send(message) => RequestView::Send(message@),
            Request::Read { address, length } => RequestView::Read { address, length },
            Request::Invoke { function } => RequestView::Invoke { function: function@ },
        }
    }
}

/// Where a conversation stands after the bridge has spoken.
///
/// `upkeep` is due in either case before anything else is done.
pub enum Step<M, T> {
    /// The runtime is to answer `request`; the answer goes to `machine`.
    Ask { upkeep: Upkeep, request: Request, machine: M },
    /// The conversation is over and has produced `value`.
    Done { upkeep: Upkeep, value: T },
    /// The conversation is over and has produced nothing.
    Failed { error: DispatchError },
}

/// A step as a mathematical value: the request is a view, and `state` and
/// `value` are whatever views the conversation gives of its machine and of
/// what it produces.
pub enum Outline<S, V> {
    Ask { upkeep: Upkeep, request: RequestView, state: S },
    Done { upkeep: Upkeep, value: V },
    Failed { error: DispatchError },
}

/// What was asked, what fell due and what came of it in the course of a
/// conversation.
pub struct Record<V> {
    pub requests: Seq<RequestView>,
    pub upkeep: Seq<Upkeep>,
    /// What the conversation produced, if it came to its end.
    pub value: Option<V>,
}

/// A conversation that waits for the runtime's answer.
pub trait Conversation: Sized {
    /// What the conversation produces in the end.
    type Output;

    /// Takes the answer to the last request, or the reason why there is
    /// none, and says how the conversation goes on.
    fn resume(self, outcome: Result<Reply, DispatchError>) -> Step<Self, Self::Output>;
}

} // verus!
