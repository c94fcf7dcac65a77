//! Making an object: `alloc`, then an initializer on what `alloc` returned.

use core::marker::PhantomData;
use vstd::prelude::*;
use crate::conversation::Conversation;
use crate::conversation::Request;
use crate::conversation::RequestView;
use crate::conversation::Step;
use crate::identity::ObjectiveC;
use crate::lifetime::Upkeep;
use crate::message::dispatch_carrying;
use crate::message::dispatch_to_class;
use crate::message::message_carrying;
use crate::message::message_to_class;
use crate::message::Argument;
use crate::message::DispatchError;
use crate::message::Kind;
use crate::message::MessageView;
use crate::message::refusal;
use crate::message::Reply;
use crate::selector::arity;
use crate::selector::count_arguments;
use crate::selector::markers;

verus! {

/// The making of a `T`, in its two stages.
pub enum Construct<T> {
    /// `alloc` has been sent; the initializer waits for the fresh instance.
    Allocating {
        selector: &'static str,
        arguments: Vec<Argument>,
        buffer: Vec<u8>,
        shape: PhantomData<T>,
    },
    /// The initializer has been sent; its result is the object.
    Initializing { shape: PhantomData<T> },
}

/// The initializer `selector` with `arguments` and `buffer`, addressed to the
/// fresh instance at `instance`.
pub open spec fn initializer(
    instance: usize,
    selector: Seq<char>,
    arguments: Seq<Argument>,
    buffer: Seq<u8>,
) -> MessageView {
    message_carrying(instance, selector, arguments, buffer, Kind::Object)
}

/// `step` sends `alloc` to the class called `class` and keeps the
/// initializer `selector` with `arguments` and `buffer` for the answer.
pub open spec fn constructs<T>(
    step: Step<Construct<T>, T>,
    class: Seq<char>,
    selector: Seq<char>,
    arguments: Seq<Argument>,
    buffer: Seq<u8>,
) -> bool {
    &&& step matches Step::Ask { upkeep, request, machine }
    &&& upkeep == Upkeep::Nothing
    &&& request@ == RequestView::Send(message_to_class(class, "alloc"@, seq![], Kind::Object))
    &&& machine matches Construct::Allocating {
        selector: kept_selector,
        arguments: kept_arguments,
        buffer: kept_buffer,
        ..
    }
    &&& kept_selector@ == selector
    &&& kept_arguments@ == arguments
    &&& kept_buffer@ == buffer
}

/// `step` is how the making of an instance of the class called `class`
/// opens: with `alloc`, unless `selector` does not take as many arguments as
/// are given.
pub open spec fn opens<T>(
    step: Step<Construct<T>, T>,
    class: Seq<char>,
    selector: Seq<char>,
    arguments: Seq<Argument>,
    buffer: Seq<u8>,
) -> bool {
    if arity(selector) != arguments.len() {
        step == Step::<Construct<T>, T>::Failed { error: DispatchError::WrongArity }
    } else {
        constructs(step, class, selector, arguments, buffer)
    }
}

/// `step` is how `machine` goes on after `outcome`.
///
/// The initializer goes to what `alloc` returned, and what the initializer
/// returned is the object. The initializer uses up the unit that `alloc`
/// gave and returns one with its result, so nothing is due. An `alloc` that
/// returned nil ends the conversation, since nothing is sent to nil.
pub open spec fn follows<T: ObjectiveC>(
    machine: Construct<T>,
    outcome: Result<Reply, DispatchError>,
    step: Step<Construct<T>, T>,
) -> bool {
    match outcome {
        Err(error) => step == Step::<Construct<T>, T>::Failed { error },
        Ok(Reply::Object(address)) => match machine {
            Construct::Allocating { selector, arguments, buffer, .. } => match refusal(
                address,
                selector@,
                arguments@.len(),
            ) {
                Some(error) => step == Step::<Construct<T>, T>::Failed { error },
                None => {
                    &&& step matches Step::Ask { upkeep, request, machine: next }
                    &&& upkeep == Upkeep::Nothing
                    &&& request@ == RequestView::Send(
                        initializer(address, selector@, arguments@, buffer@),
                    )
                    &&& next is Initializing
                },
            },
            Construct::Initializing { .. } => {
                &&& step matches Step::Done { upkeep, value }
                &&& upkeep == Upkeep::Nothing
                &&& value.address() == address
            },
        },
        Ok(_) => step == Step::<Construct<T>, T>::Failed { error: DispatchError::UnexpectedReply },
    }
}

impl<T: ObjectiveC> Construct<T> {
    /// Opens the making of an instance of the class called `class` with the
    /// initializer `selector`. Nothing is allocated for an initializer that
    /// does not take as many arguments as are given.
    pub fn begin(
        class: &'static str,
        selector: &'static str,
        arguments: Vec<Argument>,
        buffer: Vec<u8>,
    ) -> (step: Step<Construct<T>, T>)
        ensures
            opens(step, class@, selector@, arguments@, buffer@),
    {
        if count_arguments(selector) != arguments.len() {
            return Step::Failed { error: DispatchError::WrongArity };
        }
        proof {
            reveal_strlit("alloc");
            reveal_with_fuel(markers, 6);
        }
        match dispatch_to_class(class, "alloc", Vec::new(), Kind::Object) {
            Ok(message) => Step::Ask {
                upkeep: Upkeep::Nothing,
                request: Request::Send(message),
                machine: Construct::Allocating { selector, arguments, buffer, shape: PhantomData },
            },
            Err(error) => Step::Failed { error },
        }
    }
}

impl<T: ObjectiveC> Conversation for Construct<T> {
    type Output = T;

    /// Sends the initializer to what `alloc` returned, and takes what the
    /// initializer returned for the object.
    fn resume(self, outcome: Result<Reply, DispatchError>) -> (step: Step<Construct<T>, T>)
        ensures
            follows(self, outcome, step),
    {
        match outcome {
            Err(error) => Step::Failed { error },
            Ok(Reply::Object(address)) => match self {
                Construct::Allocating { selector, arguments, buffer, .. } => {
                    match dispatch_carrying(address, selector, arguments, buffer, Kind::Object) {
                        Ok(message) => Step::Ask {
                            upkeep: Upkeep::Nothing,
                            request: Request::Send(message),
                            machine: Construct::Initializing { shape: PhantomData },
                        },
                        Err(error) => Step::Failed { error },
                    }
                },
                Construct::Initializing { .. } => Step::Done {
                    upkeep: Upkeep::Nothing,
                    value: T::from_ptr(address),
                },
            },
            Ok(_) => Step::Failed { error: DispatchError::UnexpectedReply },
        }
    }
}

} // verus!
