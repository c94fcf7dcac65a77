//! Errors, and calls that report them in a slot.

use vstd::prelude::*;
use crate::call::Call;
use crate::call::Decode;
use crate::call::sends_to_class;
use crate::call::settles;
use crate::conversation::Step;
use crate::foundation::object::NSObject;
use crate::identity::ObjectiveC;
use crate::lifetime::releasing;
use crate::lifetime::retaining;
use crate::lifetime::Upkeep;
use crate::message::Kind;
use crate::message::Reply;
use crate::selector::family_is_in_the_initials;
use crate::selector::markers;

verus! {

/// An account of what went wrong. It is only ever passed along.
pub trait NSError: NSObject {
}

/// An error.
pub struct NSErrorID(usize);

impl NSErrorID {
    /// Stands for the object at `ptr` without taking a unit on it.
    pub fn from_ptr(ptr: usize) -> (id: Self)
        ensures
            id.address() == ptr,
    {
        NSErrorID(ptr)
    }

    /// Stands for no object.
    pub fn nil() -> (id: Self)
        ensures
            id.address() == 0,
    {
        NSErrorID(0)
    }

    /// Tells whether this stands for no object.
    pub fn is_nil(&self) -> (nil: bool)
        ensures
            nil == (self.address() == 0),
    {
        self.0 == 0
    }

    /// The name under which the runtime knows the class.
    pub fn class() -> (name: &'static str)
        ensures
            name@ == "NSError"@,
    {
        "NSError"
    }

    /// `alloc`: a fresh instance that no initializer has seen yet.
    pub fn allocate() -> (step: Step<Call<Self>, Self>)
        ensures
            sends_to_class(step, "NSError"@, "alloc"@, seq![], false),
    {
        proof {
            reveal_strlit("alloc");
            reveal_with_fuel(markers, 6);
            family_is_in_the_initials("alloc"@);
        }
        Call::to_class("NSError", "alloc", Vec::new())
    }

    /// A second owner of the same object, and the retain that is due for it.
    pub fn clone(&self) -> (copy: (Self, Upkeep))
        ensures
            copy.0.address() == self.address(),
            copy.1 == retaining(self.address()),
    {
        NSErrorID(self.0).retain()
    }

    /// Ends this owner: the release that is due for it.
    pub fn drop(self) -> (upkeep: Upkeep)
        ensures
            upkeep == releasing(self.address()),
    {
        self.release()
    }
}

impl ObjectiveC for NSErrorID {
    closed spec fn address(&self) -> usize {
        self.0
    }

    fn as_ptr(&self) -> (ptr: usize) {
        self.0
    }

    fn from_ptr(ptr: usize) -> (id: Self) {
        NSErrorID(ptr)
    }
}

impl NSObject for NSErrorID {

}

impl NSError for NSErrorID {

}

/// A call that leaves an error in a slot when it fails is read with the slot
/// alone deciding: an empty slot is success with the object that came back,
/// a filled slot is failure with the error, and the object is not looked at.
impl<T: ObjectiveC> Decode for Result<T, NSErrorID> {
    open spec fn kind() -> Kind {
        Kind::Attempt
    }

    open spec fn reads(reply: Reply, value: Result<T, NSErrorID>) -> bool {
        &&& reply matches Reply::Attempt { value: object, error }
        &&& if error == 0 {
            value matches Ok(id) && id.address() == object
        } else {
            value matches Err(failure) && failure.address() == error
        }
    }

    open spec fn unit(&self) -> usize {
        0
    }

    fn expects() -> (kind: Kind) {
        Kind::Attempt
    }

    fn decode(reply: Reply) -> (value: Option<Result<T, NSErrorID>>) {
        match reply {
            Reply::Attempt { value, error } => {
                if error == 0 {
                    Some(Ok(T::from_ptr(value)))
                } else {
                    Some(Err(NSErrorID::from_ptr(error)))
                }
            },
            _ => None,
        }
    }

    fn object(&self) -> (address: usize) {
        0
    }
}

/// A call that reports through the error slot comes out as the object or as
/// the error and never as both: with an empty slot it is the object that
/// came back, with a filled slot it is what the slot holds. Either way
/// nothing is due.
pub proof fn the_slot_alone_decides<T: ObjectiveC>(
    call: Call<Result<T, NSErrorID>>,
    object: usize,
    error: usize,
    step: Step<Call<Result<T, NSErrorID>>, Result<T, NSErrorID>>,
)
    requires
        settles(call, Ok(Reply::Attempt { value: object, error }), step),
    ensures
        step matches Step::Done { upkeep, value } && upkeep == Upkeep::Nothing && if error == 0 {
            value matches Ok(id) && id.address() == object
        } else {
            value matches Err(failure) && failure.address() == error
        },
{
}

} // verus!
