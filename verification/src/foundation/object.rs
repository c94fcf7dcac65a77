//! The root class.

use vstd::prelude::*;
use crate::call::Call;
use crate::call::sends;
use crate::call::sends_to_class;
use crate::conversation::Step;
use crate::foundation::NSUInteger;
use crate::foundation::string::NSStringID;
use crate::identity::ObjectiveC;
use crate::lifetime::releasing;
use crate::lifetime::retaining;
use crate::lifetime::Upkeep;
use crate::message::Argument;
use crate::selector::family_is_in_the_initials;
use crate::selector::markers;

verus! {

/// What every object can be asked.
pub trait NSObject: ObjectiveC {
    /// `isEqual:`: whether the object holds itself equal to `view`.
    fn is_equal<T0: ObjectiveC>(&self, view: &T0) -> (step: Step<Call<bool>, bool>)
        ensures
            sends(step, self.address(), "isEqual:"@, seq![Argument::Object(view.address())], true),
    {
        proof {
            reveal_strlit("isEqual:");
            reveal_with_fuel(markers, 9);
            family_is_in_the_initials("isEqual:"@);
        }
        let arguments = vec![Argument::Object(view.as_ptr())];
        assert(arguments@ =~= seq![Argument::Object(view.address())]);
        Call::to(self.as_ptr(), "isEqual:", arguments)
    }

    /// `hash`: a number that equal objects share.
    fn hash(&self) -> (step: Step<Call<NSUInteger>, NSUInteger>)
        ensures
            sends(step, self.address(), "hash"@, seq![], true),
    {
        proof {
            reveal_strlit("hash");
            reveal_with_fuel(markers, 5);
            family_is_in_the_initials("hash"@);
        }
        Call::to(self.as_ptr(), "hash", Vec::new())
    }

    /// `description`: the object in words.
    fn description(&self) -> (step: Step<Call<NSStringID>, NSStringID>)
        ensures
            sends(step, self.address(), "description"@, seq![], true),
    {
        proof {
            reveal_strlit("description");
            reveal_with_fuel(markers, 12);
            family_is_in_the_initials("description"@);
        }
        Call::to(self.as_ptr(), "description", Vec::new())
    }

    /// `debugDescription`: the object in words, for the eyes of a developer.
    fn debug_description(&self) -> (step: Step<Call<NSStringID>, NSStringID>)
        ensures
            sends(step, self.address(), "debugDescription"@, seq![], true),
    {
        proof {
            reveal_strlit("debugDescription");
            reveal_with_fuel(markers, 17);
            family_is_in_the_initials("debugDescription"@);
        }
        Call::to(self.as_ptr(), "debugDescription", Vec::new())
    }

    /// `isProxy`: whether the object stands in for another.
    fn is_proxy(&self) -> (step: Step<Call<bool>, bool>)
        ensures
            sends(step, self.address(), "isProxy"@, seq![], true),
    {
        proof {
            reveal_strlit("isProxy");
            reveal_with_fuel(markers, 8);
            family_is_in_the_initials("isProxy"@);
        }
        Call::to(self.as_ptr(), "isProxy", Vec::new())
    }
}

/// An object of which only the root class is known.
pub struct NSObjectID(usize);

impl NSObjectID {
    /// Stands for the object at `ptr` without taking a unit on it.
    pub fn from_ptr(ptr: usize) -> (id: Self)
        ensures
            id.address() == ptr,
    {
        NSObjectID(ptr)
    }

    /// Stands for no object.
    pub fn nil() -> (id: Self)
        ensures
            id.address() == 0,
    {
        NSObjectID(0)
    }

    /// Tells whether this stands for no object.
    pub fn is_nil(&self) -> (nil: bool)
        ensures
            nil == (self.address() == 0),
    {
        self.0 == 0
    }

    /// The name under which the runtime knows the class.
    pub fn class() -> (name: &'static str)
        ensures
            name@ == "NSObject"@,
    {
        "NSObject"
    }

    /// `alloc`: a fresh instance that no initializer has seen yet.
    pub fn allocate() -> (step: Step<Call<Self>, Self>)
        ensures
            sends_to_class(step, "NSObject"@, "alloc"@, seq![], false),
    {
        proof {
            reveal_strlit("alloc");
            reveal_with_fuel(markers, 6);
            family_is_in_the_initials("alloc"@);
        }
        Call::to_class("NSObject", "alloc", Vec::new())
    }

    /// A second owner of the same object, and the retain that is due for it.
    pub fn clone(&self) -> (copy: (Self, Upkeep))
        ensures
            copy.0.address() == self.address(),
            copy.1 == retaining(self.address()),
    {
        NSObjectID(self.0).retain()
    }

    /// Ends this owner: the release that is due for it.
    pub fn drop(self) -> (upkeep: Upkeep)
        ensures
            upkeep == releasing(self.address()),
    {
        self.release()
    }
}

impl ObjectiveC for NSObjectID {
    closed spec fn address(&self) -> usize {
        self.0
    }

    fn as_ptr(&self) -> (ptr: usize) {
        self.0
    }

    fn from_ptr(ptr: usize) -> (id: Self) {
        NSObjectID(ptr)
    }
}

impl NSObject for NSObjectID {

}

} // verus!
