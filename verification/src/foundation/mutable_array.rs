//! Arrays that can change.

use vstd::prelude::*;
use crate::call::Call;
use crate::call::sends;
use crate::call::sends_to_class;
use crate::conversation::Step;
use crate::foundation::array::NSArray;
use crate::foundation::NSUInteger;
use crate::foundation::object::NSObject;
use crate::identity::ObjectiveC;
use crate::lifetime::releasing;
use crate::lifetime::retaining;
use crate::lifetime::Upkeep;
use crate::message::Argument;
use crate::selector::family_is_in_the_initials;
use crate::selector::markers;

verus! {

/// What an ordered collection that can change can be asked.
pub trait NSMutableArray: NSArray + NSObject {
    /// `insertObject:atIndex:`: puts `an_object` in at `index`. Neither is looked at here.
    fn insert_object_at_index<T0: ObjectiveC>(
        &self,
        an_object: &T0,
        index: NSUInteger,
    ) -> (step: Step<Call<()>, ()>)
        ensures
            sends(
                step,
                self.address(),
                "insertObject:atIndex:"@,
                seq![Argument::Object(an_object.address()), Argument::Word(index)],
                true,
            ),
    {
        proof {
            reveal_strlit("insertObject:atIndex:");
            reveal_with_fuel(markers, 22);
            family_is_in_the_initials("insertObject:atIndex:"@);
        }
        let arguments = vec![Argument::Object(an_object.as_ptr()), Argument::Word(index)];
        assert(arguments@ =~= seq![Argument::Object(an_object.address()), Argument::Word(index)]);
        Call::to(self.as_ptr(), "insertObject:atIndex:", arguments)
    }
}

/// An array that can change.
pub struct NSMutableArrayID(usize);

impl NSMutableArrayID {
    /// Stands for the object at `ptr` without taking a unit on it.
    pub fn from_ptr(ptr: usize) -> (id: Self)
        ensures
            id.address() == ptr,
    {
        NSMutableArrayID(ptr)
    }

    /// Stands for no object.
    pub fn nil() -> (id: Self)
        ensures
            id.address() == 0,
    {
        NSMutableArrayID(0)
    }

    /// Tells whether this stands for no object.
    pub fn is_nil(&self) -> (nil: bool)
        ensures
            nil == (self.address() == 0),
    {
        self.0 == 0
    }

    /// The name under which the runtime knows the class.
    pub fn class() -> (name: &'static str)
        ensures
            name@ == "NSMutableArray"@,
    {
        "NSMutableArray"
    }

    /// `alloc`: a fresh instance that no initializer has seen yet.
    pub fn allocate() -> (step: Step<Call<Self>, Self>)
        ensures
            sends_to_class(step, "NSMutableArray"@, "alloc"@, seq![], false),
    {
        proof {
            reveal_strlit("alloc");
            reveal_with_fuel(markers, 6);
            family_is_in_the_initials("alloc"@);
        }
        Call::to_class("NSMutableArray", "alloc", Vec::new())
    }

    /// A second owner of the same object, and the retain that is due for it.
    pub fn clone(&self) -> (copy: (Self, Upkeep))
        ensures
            copy.0.address() == self.address(),
            copy.1 == retaining(self.address()),
    {
        NSMutableArrayID(self.0).retain()
    }

    /// Ends this owner: the release that is due for it.
    pub fn drop(self) -> (upkeep: Upkeep)
        ensures
            upkeep == releasing(self.address()),
    {
        self.release()
    }
}

impl ObjectiveC for NSMutableArrayID {
    closed spec fn address(&self) -> usize {
        self.0
    }

    fn as_ptr(&self) -> (ptr: usize) {
        self.0
    }

    fn from_ptr(ptr: usize) -> (id: Self) {
        NSMutableArrayID(ptr)
    }
}

impl NSObject for NSMutableArrayID {

}

impl NSArray for NSMutableArrayID {

}

impl NSMutableArray for NSMutableArrayID {

}

} // verus!
