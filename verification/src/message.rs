//! What crosses the boundary to the foreign runtime, as plain values.
//!
//! The bridge never calls the runtime itself. It writes down what is to be
//! sent, and reads what came back; carrying the two across is left to the
//! caller. A [`Message`] is one method call written down, a [`Reply`] is the
//! raw content of its return slot.

use vstd::prelude::*;
use crate::foundation::NSRange;
use crate::metal::MTLSize;
use crate::selector::arity;
use crate::selector::count_arguments;

verus! {

/// Why a message was not sent, or why its answer could not be used.
#[derive(Debug, PartialEq, Eq)]
pub enum DispatchError {
    /// The message was addressed to nil.
    NilReceiver,
    /// The selector does not take as many arguments as were supplied.
    WrongArity,
    /// The return slot did not hold the kind of value that was asked for.
    UnexpectedReply,
    /// Bytes that had to be UTF-8 were not.
    InvalidUtf8,
    /// The runtime could not complete the call; the text is its own account.
    Foreign(String),
}

/// The kinds of value that a return slot can hold.
#[derive(Clone, Copy, Debug, PartialEq, Eq, Structural)]
pub enum Kind {
    /// No value.
    Nothing,
    /// A truth value.
    Flag,
    /// An unsigned machine word.
    Word,
    /// An unsigned 64-bit integer.
    Long,
    /// An object, or nil.
    Object,
    /// An address that is not an object.
    Pointer,
    /// Three machine words: a width, a height and a depth.
    Size,
    /// The content of a stretch of memory.
    Bytes,
    /// An object together with the error slot that the call filled in.
    Attempt,
}

/// One argument of a message.
#[derive(Clone, Copy, Debug, PartialEq, Eq, Structural)]
pub enum Argument {
    /// An object, by its address; zero is nil.
    Object(usize),
    /// An unsigned machine word.
    Word(usize),
    /// A truth value.
    Flag(bool),
    /// An address that is not an object.
    Pointer(usize),
    /// A location and a length.
    Range(NSRange),
    /// The address of the bytes that the message carries along.
    Buffer,
    /// The address of an empty slot in which the callee may leave an error.
    ErrorSlot,
}

/// Whom a message is addressed to.
#[derive(Clone, Copy, Debug, PartialEq, Eq)]
pub enum Receiver {
    /// The object at this address.
    Object(usize),
    /// The class registered under this name.
    Class(&'static str),
}

/// A receiver, with text as a sequence of characters.
pub enum ReceiverView {
    Object(usize),
    Class(Seq<char>),
}

impl View for Receiver {
    type V = ReceiverView;

    open spec fn view(&self) -> ReceiverView {
        match *self {
            Receiver::Object(address) => ReceiverView::Object(address),
            Receiver::Class(name) => ReceiverView::Class(name@),
        }
    }
}

/// One method call, written down.
#[derive(Debug, PartialEq, Eq)]
pub struct Message {
    pub receiver: Receiver,
    pub selector: &'static str,
    pub arguments: Vec<Argument>,
    /// The bytes that an [`Argument::Buffer`] points to.
    pub buffer: Vec<u8>,
    /// The kind of value that the caller will read from the return slot.
    pub yields: Kind,
}

/// A message, with its text and lists as sequences.
pub struct MessageView {
    pub receiver: ReceiverView,
    pub selector: Seq<char>,
    pub arguments: Seq<Argument>,
    pub buffer: Seq<u8>,
    pub yields: Kind,
}

impl View for Message {
    type V = MessageView;

    open spec fn view(&self) -> MessageView {
        MessageView {
            receiver: self.receiver@,
            selector: self.selector@,
            arguments: self.arguments@,
            buffer: self.buffer@,
            yields: self.yields,
        }
    }
}

/// The raw content of a return slot.
#[derive(Debug, PartialEq, Eq)]
pub enum Reply {
    Nothing,
    Flag(bool),
    Word(usize),
    Long(u64),
    Object(usize),
    Pointer(usize),
    Size(MTLSize),
    Bytes(Vec<u8>),
    /// The object that the call returned, and the content of its error slot.
    Attempt { value: usize, error: usize },
}

impl Reply {
    /// The kind of value that this reply holds.
    pub open spec fn kind(self) -> Kind {
        match self {
            Reply::Nothing => Kind::Nothing,
            Reply::Flag(_) => Kind::Flag,
            Reply::Word(_) => Kind::Word,
            Reply::Long(_) => Kind::Long,
            Reply::Object(_) => Kind::Object,
            Reply::Pointer(_) => Kind::Pointer,
            Reply::Size(_) => Kind::Size,
            Reply::Bytes(_) => Kind::Bytes,
            Reply::Attempt { .. } => Kind::Attempt,
        }
    }
}

/// The message that `selector` with `arguments` makes for the object at
/// `receiver`, with `buffer` as the bytes that travel along.
pub open spec fn message_carrying(
    receiver: usize,
    selector: Seq<char>,
    arguments: Seq<Argument>,
    buffer: Seq<u8>,
    yields: Kind,
) -> MessageView {
    MessageView { receiver: ReceiverView::Object(receiver), selector, arguments, buffer, yields }
}

/// The message that `selector` with `arguments` makes for the object at
/// `receiver`, when nothing travels along with it.
pub open spec fn message_to(
    receiver: usize,
    selector: Seq<char>,
    arguments: Seq<Argument>,
    yields: Kind,
) -> MessageView {
    message_carrying(receiver, selector, arguments, Seq::empty(), yields)
}

/// The message that `selector` with `arguments` makes for the class called `class`.
pub open spec fn message_to_class(
    class: Seq<char>,
    selector: Seq<char>,
    arguments: Seq<Argument>,
    yields: Kind,
) -> MessageView {
    MessageView {
        receiver: ReceiverView::Class(class),
        selector,
        arguments,
        buffer: Seq::empty(),
        yields,
    }
}

/// Why `selector` with `count` arguments cannot be sent to the object at
/// `receiver`, if it cannot.
pub open spec fn refusal(receiver: usize, selector: Seq<char>, count: nat) -> Option<DispatchError> {
    if receiver == 0 {
        Some(DispatchError::NilReceiver)
    } else if arity(selector) != count {
        Some(DispatchError::WrongArity)
    } else {
        None
    }
}

/// Writes down a call of `selector` on the object at `receiver`, with
/// `buffer` as the bytes that travel along.
///
/// This is the one place where messages to objects are made. A message to
/// nil is refused, and so is one whose selector does not have one `:` for
/// each argument; the arguments themselves are not looked at.
pub fn dispatch_carrying(
    receiver: usize,
    selector: &'static str,
    arguments: Vec<Argument>,
    buffer: Vec<u8>,
    yields: Kind,
) -> (built: Result<Message, DispatchError>)
    ensures
        match refusal(receiver, selector@, arguments@.len()) {
            Some(error) => built == Err::<Message, DispatchError>(error),
            None => built is Ok && built->Ok_0@ == message_carrying(
                receiver,
                selector@,
                arguments@,
                buffer@,
                yields,
            ),
        },
{
    if receiver == 0 {
        return Err(DispatchError::NilReceiver);
    }
    if count_arguments(selector) != arguments.len() {
        return Err(DispatchError::WrongArity);
    }
    Ok(Message { receiver: Receiver::Object(receiver), selector, arguments, buffer, yields })
}

/// Writes down a call of `selector` on the object at `receiver`, with
/// nothing that travels along.
pub fn dispatch(
    receiver: usize,
    selector: &'static str,
    arguments: Vec<Argument>,
    yields: Kind,
) -> (built: Result<Message, DispatchError>)
    ensures
        match refusal(receiver, selector@, arguments@.len()) {
            Some(error) => built == Err::<Message, DispatchError>(error),
            None => built is Ok && built->Ok_0@ == message_to(
                receiver,
                selector@,
                arguments@,
                yields,
            ),
        },
{
    dispatch_carrying(receiver, selector, arguments, Vec::new(), yields)
}

/// Writes down a call of `selector` on the class called `class`.
///
/// A class is never nil, so only the number of arguments can be wrong.
pub fn dispatch_to_class(
    class: &'static str,
    selector: &'static str,
    arguments: Vec<Argument>,
    yields: Kind,
) -> (built: Result<Message, DispatchError>)
    ensures
        arity(selector@) != arguments@.len() ==> built == Err::<Message, DispatchError>(
            DispatchError::WrongArity,
        ),
        arity(selector@) == arguments@.len() ==> built is Ok && built->Ok_0@ == message_to_class(
            class@,
            selector@,
            arguments@,
            yields,
        ),
{
    if count_arguments(selector) != arguments.len() {
        return Err(DispatchError::WrongArity);
    }
    Ok(Message { receiver: Receiver::Class(class), selector, arguments, buffer: Vec::new(), yields })
}

} // verus!
