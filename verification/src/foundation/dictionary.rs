//! Dictionaries.

use vstd::prelude::*;
use crate::call::Call;
use crate::call::sends;
use crate::call::sends_to_class;
use crate::construct::Construct;
use crate::construct::constructs;
use crate::conversation::Step;
use crate::foundation::object::NSObject;
use crate::identity::ObjectiveC;
use crate::lifetime::releasing;
use crate::lifetime::retaining;
use crate::lifetime::Upkeep;
use crate::selector::family_is_in_the_initials;
use crate::selector::markers;

verus! {

/// What a collection of keyed items can be asked.
pub trait NSDictionary: NSObject {
    /// `init`: makes a fresh instance an empty dictionary.
    fn init(self) -> (step: Step<Call<Self>, Self>)
        ensures
            sends(step, self.address(), "init"@, seq![], false),
    {
        proof {
            reveal_strlit("init");
            reveal_with_fuel(markers, 5);
            family_is_in_the_initials("init"@);
        }
        Call::to(self.as_ptr(), "init", Vec::new())
    }
}

/// A dictionary.
pub struct NSDictionaryID(usize);

impl NSDictionaryID {
    /// Stands for the object at `ptr` without taking a unit on it.
    pub fn from_ptr(ptr: usize) -> (id: Self)
        ensures
            id.address() == ptr,
    {
        NSDictionaryID(ptr)
    }

    /// Stands for no object.
    pub fn nil() -> (id: Self)
        ensures
            id.address() == 0,
    {
        NSDictionaryID(0)
    }

    /// Tells whether this stands for no object.
    pub fn is_nil(&self) -> (nil: bool)
        ensures
            nil == (self.address() == 0),
    {
        self.0 == 0
    }

    /// The name under which the runtime knows the class.
    pub fn class() -> (name: &'static str)
        ensures
            name@ == "NSDictionary"@,
    {
        "NSDictionary"
    }

    /// `alloc`: a fresh instance that no initializer has seen yet.
    pub fn allocate() -> (step: Step<Call<Self>, Self>)
        ensures
            sends_to_class(step, "NSDictionary"@, "alloc"@, seq![], false),
    {
        proof {
            reveal_strlit("alloc");
            reveal_with_fuel(markers, 6);
            family_is_in_the_initials("alloc"@);
        }
        Call::to_class("NSDictionary", "alloc", Vec::new())
    }

    /// An empty dictionary.
    pub fn new() -> (step: Step<Construct<Self>, Self>)
        ensures
            constructs(step, "NSDictionary"@, "init"@, seq![], Seq::empty()),
    {
        proof {
            reveal_strlit("init");
            reveal_with_fuel(markers, 5);
        }
        Construct::begin("NSDictionary", "init", Vec::new(), Vec::new())
    }

    /// A second owner of the same object, and the retain that is due for it.
    pub fn clone(&self) -> (copy: (Self, Upkeep))
        ensures
            copy.0.address() == self.address(),
            copy.1 == retaining(self.address()),
    {
        NSDictionaryID(self.0).retain()
    }

    /// Ends this owner: the release that is due for it.
    pub fn drop(self) -> (upkeep: Upkeep)
        ensures
            upkeep == releasing(self.address()),
    {
        self.release()
    }
}

impl ObjectiveC for NSDictionaryID {
    closed spec fn address(&self) -> usize {
        self.0
    }

    fn as_ptr(&self) -> (ptr: usize) {
        self.0
    }

    fn from_ptr(ptr: usize) -> (id: Self) {
        NSDictionaryID(ptr)
    }
}

impl NSObject for NSDictionaryID {

}

impl NSDictionary for NSDictionaryID {

}

} // verus!
