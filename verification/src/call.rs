//! Single calls with a typed result.

use core::marker::PhantomData;
use vstd::prelude::*;
use crate::conversation::Conversation;
use crate::conversation::Request;
use crate::conversation::RequestView;
use crate::conversation::Step;
use crate::identity::ObjectiveC;
use crate::lifetime::retain;
use crate::lifetime::retaining;
use crate::lifetime::Upkeep;
use crate::message::dispatch;
use crate::message::dispatch_to_class;
use crate::message::message_to;
use crate::message::message_to_class;
use crate::message::refusal;
use crate::message::Argument;
use crate::message::DispatchError;
use crate::message::Kind;
use crate::message::Reply;
use crate::metal::MTLSize;
use crate::selector::arity;
use crate::selector::classify;
use crate::selector::lends;
use crate::selector::Family;

verus! {

/// A host type that a return slot can be read as.
pub trait Decode: Sized {
    /// The kind of return slot that holds a value of this type.
    spec fn kind() -> Kind;

    /// `value` is what `reply` holds.
    spec fn reads(reply: Reply, value: Self) -> bool;

    /// The address of the object that the value stands for; zero if it
    /// stands for none.
    spec fn unit(&self) -> usize;

    /// The kind of return slot that holds a value of this type.
    fn expects() -> (kind: Kind)
        ensures
            kind == Self::kind(),
    ;

    /// Reads `reply` as a value of this type, if it is of the right kind.
    fn decode(reply: Reply) -> (value: Option<Self>)
        ensures
            value is Some <==> reply.kind() == Self::kind(),
            value is Some ==> Self::reads(reply, value->0),
    ;

    /// The address of the object that the value stands for; zero if it
    /// stands for none.
    fn object(&self) -> (address: usize)
        ensures
            address == self.unit(),
    ;
}

/// An address that is not an object's.
#[derive(Clone, Copy, Debug, PartialEq, Eq, Structural)]
pub struct RawPointer {
    pub address: usize,
}

impl Decode for () {
    open spec fn kind() -> Kind {
        Kind::Nothing
    }

    open spec fn reads(reply: Reply, value: ()) -> bool {
        reply == Reply::Nothing
    }

    open spec fn unit(&self) -> usize {
        0
    }

    fn expects() -> (kind: Kind) {
        Kind::Nothing
    }

    fn decode(reply: Reply) -> (value: Option<()>) {
        match reply {
            Reply::Nothing => Some(()),
            _ => None,
        }
    }

    fn object(&self) -> (address: usize) {
        0
    }
}

impl Decode for bool {
    open spec fn kind() -> Kind {
        Kind::Flag
    }

    open spec fn reads(reply: Reply, value: bool) -> bool {
        reply == Reply::Flag(value)
    }

    open spec fn unit(&self) -> usize {
        0
    }

    fn expects() -> (kind: Kind) {
        Kind::Flag
    }

    fn decode(reply: Reply) -> (value: Option<bool>) {
        match reply {
            Reply::Flag(flag) => Some(flag),
            _ => None,
        }
    }

    fn object(&self) -> (address: usize) {
        0
    }
}

impl Decode for usize {
    open spec fn kind() -> Kind {
        Kind::Word
    }

    open spec fn reads(reply: Reply, value: usize) -> bool {
        reply == Reply::Word(value)
    }

    open spec fn unit(&self) -> usize {
        0
    }

    fn expects() -> (kind: Kind) {
        Kind::Word
    }

    fn decode(reply: Reply) -> (value: Option<usize>) {
        match reply {
            Reply::Word(word) => Some(word),
            _ => None,
        }
    }

    fn object(&self) -> (address: usize) {
        0
    }
}

impl Decode for u64 {
    open spec fn kind() -> Kind {
        Kind::Long
    }

    open spec fn reads(reply: Reply, value: u64) -> bool {
        reply == Reply::Long(value)
    }

    open spec fn unit(&self) -> usize {
        0
    }

    fn expects() -> (kind: Kind) {
        Kind::Long
    }

    fn decode(reply: Reply) -> (value: Option<u64>) {
        match reply {
            Reply::Long(long) => Some(long),
            _ => None,
        }
    }

    fn object(&self) -> (address: usize) {
        0
    }
}

impl Decode for RawPointer {
    open spec fn kind() -> Kind {
        Kind::Pointer
    }

    open spec fn reads(reply: Reply, value: RawPointer) -> bool {
        reply == Reply::Pointer(value.address)
    }

    open spec fn unit(&self) -> usize {
        0
    }

    fn expects() -> (kind: Kind) {
        Kind::Pointer
    }

    fn decode(reply: Reply) -> (value: Option<RawPointer>) {
        match reply {
            Reply::Pointer(address) => Some(RawPointer { address }),
            _ => None,
        }
    }

    fn object(&self) -> (address: usize) {
        0
    }
}

impl Decode for MTLSize {
    open spec fn kind() -> Kind {
        Kind::Size
    }

    open spec fn reads(reply: Reply, value: MTLSize) -> bool {
        reply == Reply::Size(value)
    }

    open spec fn unit(&self) -> usize {
        0
    }

    fn expects() -> (kind: Kind) {
        Kind::Size
    }

    fn decode(reply: Reply) -> (value: Option<MTLSize>) {
        match reply {
            Reply::Size(size) => Some(size),
            _ => None,
        }
    }

    fn object(&self) -> (address: usize) {
        0
    }
}

impl<T: ObjectiveC> Decode for T {
    open spec fn kind() -> Kind {
        Kind::Object
    }

    open spec fn reads(reply: Reply, value: T) -> bool {
        reply == Reply::Object(value.address())
    }

    open spec fn unit(&self) -> usize {
        self.address()
    }

    fn expects() -> (kind: Kind) {
        Kind::Object
    }

    fn decode(reply: Reply) -> (value: Option<T>) {
        match reply {
            Reply::Object(address) => Some(T::from_ptr(address)),
            _ => None,
        }
    }

    fn object(&self) -> (address: usize) {
        self.as_ptr()
    }
}

/// A message that has been handed out and whose answer is awaited as an `R`.
pub struct Call<R> {
    /// The answer is on loan: if it is an object, keeping it takes a retain.
    pub lends: bool,
    pub shape: PhantomData<R>,
}

/// What is due for `value` when it arrives as the answer to a call.
pub open spec fn due_on_arrival<R: Decode>(lends: bool, value: R) -> Upkeep {
    if lends {
        retaining(value.unit())
    } else {
        Upkeep::Nothing
    }
}

/// `step` asks for `selector` with `arguments` to be sent to the object at
/// `receiver` and the answer to be read as an `R`; to nil nothing is sent.
pub open spec fn asks<R: Decode>(
    step: Step<Call<R>, R>,
    receiver: usize,
    selector: Seq<char>,
    arguments: Seq<Argument>,
) -> bool {
    match refusal(receiver, selector, arguments.len()) {
        Some(error) => step == Step::<Call<R>, R>::Failed { error },
        None => step matches Step::Ask { upkeep, request, machine } && upkeep == Upkeep::Nothing
            && request@ == RequestView::Send(
            message_to(receiver, selector, arguments, R::kind()),
        ) && machine.lends == lends(selector),
    }
}

/// `step` asks for `selector` with `arguments` to be sent to the class
/// called `class` and the answer to be read as an `R`.
pub open spec fn asks_class<R: Decode>(
    step: Step<Call<R>, R>,
    class: Seq<char>,
    selector: Seq<char>,
    arguments: Seq<Argument>,
) -> bool {
    if arity(selector) != arguments.len() {
        step == Step::<Call<R>, R>::Failed { error: DispatchError::WrongArity }
    } else {
        step matches Step::Ask { upkeep, request, machine } && upkeep == Upkeep::Nothing
            && request@ == RequestView::Send(
            message_to_class(class, selector, arguments, R::kind()),
        ) && machine.lends == lends(selector)
    }
}

/// `step` is what a binding hands out for a method called `selector` that
/// takes `arguments`: to nil nothing is sent; to the object at `receiver`
/// the message is sent, and the answer is read as an `R`, on loan if `lends`.
pub open spec fn sends<R: Decode>(
    step: Step<Call<R>, R>,
    receiver: usize,
    selector: Seq<char>,
    arguments: Seq<Argument>,
    lends: bool,
) -> bool {
    if receiver == 0 {
        step == Step::<Call<R>, R>::Failed { error: DispatchError::NilReceiver }
    } else {
        step matches Step::Ask { upkeep, request, machine } && upkeep == Upkeep::Nothing
            && request@ == RequestView::Send(
            message_to(receiver, selector, arguments, R::kind()),
        ) && machine.lends == lends
    }
}

/// `step` is what a binding hands out for a class method called `selector`
/// that takes `arguments`: the message is sent to the class called `class`,
/// and the answer is read as an `R`, on loan if `lends`.
pub open spec fn sends_to_class<R: Decode>(
    step: Step<Call<R>, R>,
    class: Seq<char>,
    selector: Seq<char>,
    arguments: Seq<Argument>,
    lends: bool,
) -> bool {
    step matches Step::Ask { upkeep, request, machine } && upkeep == Upkeep::Nothing && request@
        == RequestView::Send(message_to_class(class, selector, arguments, R::kind()))
        && machine.lends == lends
}

/// `step` is what a binding hands out when its selector does not take as
/// many arguments as the binding has to give: nothing is ever sent.
pub open spec fn declines<R: Decode>(step: Step<Call<R>, R>, receiver: usize) -> bool {
    step == Step::<Call<R>, R>::Failed {
        error: if receiver == 0 {
            DispatchError::NilReceiver
        } else {
            DispatchError::WrongArity
        },
    }
}

/// `step` asks for the plain function called `function` to be called and its
/// result to be read as an `R`, on loan if `lends`.
pub open spec fn invokes<R: Decode>(step: Step<Call<R>, R>, function: Seq<char>, lends: bool) -> bool {
    step matches Step::Ask { upkeep, request, machine } && upkeep == Upkeep::Nothing && request@
        == (RequestView::Invoke { function }) && machine.lends == lends
}

/// `step` is how `call` ends after `outcome`: a failure of the runtime is
/// passed on as it is, an answer of another kind than `R` is a failure of
/// its own, and an answer of the right kind is the value; if it is an object
/// on loan, a retain is due for it.
pub open spec fn settles<R: Decode>(
    call: Call<R>,
    outcome: Result<Reply, DispatchError>,
    step: Step<Call<R>, R>,
) -> bool {
    match outcome {
        Err(error) => step == Step::<Call<R>, R>::Failed { error },
        Ok(reply) => if reply.kind() == R::kind() {
            step matches Step::Done { upkeep, value } && R::reads(reply, value) && upkeep
                == due_on_arrival(call.lends, value)
        } else {
            step == Step::<Call<R>, R>::Failed { error: DispatchError::UnexpectedReply }
        },
    }
}

impl<R: Decode> Call<R> {
    /// Opens a call of the plain function called `function`.
    pub fn invoke(function: &'static str, lends: bool) -> (step: Step<Call<R>, R>)
        ensures
            invokes(step, function@, lends),
    {
        Step::Ask {
            upkeep: Upkeep::Nothing,
            request: Request::Invoke { function },
            machine: Call { lends, shape: PhantomData },
        }
    }

    /// Opens a call of `selector` on the object at `receiver`.
    pub fn to(receiver: usize, selector: &'static str, arguments: Vec<Argument>) -> (step: Step<
        Call<R>,
        R,
    >)
        ensures
            asks(step, receiver, selector@, arguments@),
    {
        let family = classify(selector);
        match dispatch(receiver, selector, arguments, R::expects()) {
            Ok(message) => Step::Ask {
                upkeep: Upkeep::Nothing,
                request: Request::Send(message),
                machine: Call { lends: matches!(family, Family::Borrows), shape: PhantomData },
            },
            Err(error) => Step::Failed { error },
        }
    }

    /// Opens a call of `selector` on the class called `class`.
    pub fn to_class(class: &'static str, selector: &'static str, arguments: Vec<Argument>) -> (step:
        Step<Call<R>, R>)
        ensures
            asks_class(step, class@, selector@, arguments@),
    {
        let family = classify(selector);
        match dispatch_to_class(class, selector, arguments, R::expects()) {
            Ok(message) => Step::Ask {
                upkeep: Upkeep::Nothing,
                request: Request::Send(message),
                machine: Call { lends: matches!(family, Family::Borrows), shape: PhantomData },
            },
            Err(error) => Step::Failed { error },
        }
    }
}

impl<R: Decode> Conversation for Call<R> {
    type Output = R;

    /// Reads the answer as an `R`.
    fn resume(self, outcome: Result<Reply, DispatchError>) -> (step: Step<Call<R>, R>)
        ensures
            settles(self, outcome, step),
    {
        match outcome {
            Err(error) => Step::Failed { error },
            Ok(reply) => match R::decode(reply) {
                None => Step::Failed { error: DispatchError::UnexpectedReply },
                Some(value) => {
                    let upkeep = if self.lends {
                        retain(value.object())
                    } else {
                        Upkeep::Nothing
                    };
                    Step::Done { upkeep, value }
                },
            },
        }
    }
}

} // verus!
