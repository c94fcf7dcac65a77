//! Locations.

use vstd::prelude::*;
use crate::call::Call;
use crate::call::sends;
use crate::call::sends_to_class;
use crate::construct::Construct;
use crate::construct::constructs;
use crate::conversation::Step;
use crate::foundation::object::NSObject;
use crate::foundation::string::NSString;
use crate::identity::ObjectiveC;
use crate::lifetime::releasing;
use crate::lifetime::retaining;
use crate::lifetime::Upkeep;
use crate::message::Argument;
use crate::selector::family_is_in_the_initials;
use crate::selector::markers;

verus! {

/// What a location can be asked.
pub trait NSURL: NSObject {
    /// `initWithString:`: makes a fresh instance the location that `url_string` spells.
    fn init_with_string<T0: NSString>(self, url_string: &T0) -> (step: Step<Call<Self>, Self>)
        ensures
            sends(
                step,
                self.address(),
                "initWithString:"@,
                seq![Argument::Object(url_string.address())],
                false,
            ),
    {
        proof {
            reveal_strlit("initWithString:");
            reveal_with_fuel(markers, 16);
            family_is_in_the_initials("initWithString:"@);
        }
        let arguments = vec![Argument::Object(url_string.as_ptr())];
        assert(arguments@ =~= seq![Argument::Object(url_string.address())]);
        Call::to(self.as_ptr(), "initWithString:", arguments)
    }
}

/// A location.
pub struct NSURLID(usize);

impl NSURLID {
    /// Stands for the object at `ptr` without taking a unit on it.
    pub fn from_ptr(ptr: usize) -> (id: Self)
        ensures
            id.address() == ptr,
    {
        NSURLID(ptr)
    }

    /// Stands for no object.
    pub fn nil() -> (id: Self)
        ensures
            id.address() == 0,
    {
        NSURLID(0)
    }

    /// Tells whether this stands for no object.
    pub fn is_nil(&self) -> (nil: bool)
        ensures
            nil == (self.address() == 0),
    {
        self.0 == 0
    }

    /// The name under which the runtime knows the class.
    pub fn class() -> (name: &'static str)
        ensures
            name@ == "NSURL"@,
    {
        "NSURL"
    }

    /// `alloc`: a fresh instance that no initializer has seen yet.
    pub fn allocate() -> (step: Step<Call<Self>, Self>)
        ensures
            sends_to_class(step, "NSURL"@, "alloc"@, seq![], false),
    {
        proof {
            reveal_strlit("alloc");
            reveal_with_fuel(markers, 6);
            family_is_in_the_initials("alloc"@);
        }
        Call::to_class("NSURL", "alloc", Vec::new())
    }

    /// The location that `url_string` spells.
    pub fn new_with_string<T0: NSString>(url_string: &T0) -> (step: Step<Construct<Self>, Self>)
        ensures
            constructs(
                step,
                "NSURL"@,
                "initWithString:"@,
                seq![Argument::Object(url_string.address())],
                Seq::empty(),
            ),
    {
        proof {
            reveal_strlit("initWithString:");
            reveal_with_fuel(markers, 16);
        }
        let arguments = vec![Argument::Object(url_string.as_ptr())];
        assert(arguments@ =~= seq![Argument::Object(url_string.address())]);
        Construct::begin("NSURL", "initWithString:", arguments, Vec::new())
    }

    /// A second owner of the same object, and the retain that is due for it.
    pub fn clone(&self) -> (copy: (Self, Upkeep))
        ensures
            copy.0.address() == self.address(),
            copy.1 == retaining(self.address()),
    {
        NSURLID(self.0).retain()
    }

    /// Ends this owner: the release that is due for it.
    pub fn drop(self) -> (upkeep: Upkeep)
        ensures
            upkeep == releasing(self.address()),
    {
        self.release()
    }
}

impl ObjectiveC for NSURLID {
    closed spec fn address(&self) -> usize {
        self.0
    }

    fn as_ptr(&self) -> (ptr: usize) {
        self.0
    }

    fn from_ptr(ptr: usize) -> (id: Self) {
        NSURLID(ptr)
    }
}

impl NSObject for NSURLID {

}

impl NSURL for NSURLID {

}

} // verus!
