//! Archivers.

use vstd::prelude::*;
use crate::foundation::object::NSObject;
use crate::identity::ObjectiveC;
use crate::lifetime::releasing;
use crate::lifetime::retaining;
use crate::lifetime::Upkeep;

verus! {

/// An archiver. It is only ever passed along.
pub trait NSCoder: NSObject {
}

/// An archiver.
pub struct NSCoderID(usize);

impl NSCoderID {
    /// Stands for the object at `ptr` without taking a unit on it.
    pub fn from_ptr(ptr: usize) -> (id: Self)
        ensures
            id.address() == ptr,
    {
        NSCoderID(ptr)
    }

    /// Stands for no object.
    pub fn nil() -> (id: Self)
        ensures
            id.address() == 0,
    {
        NSCoderID(0)
    }

    /// Tells whether this stands for no object.
    pub fn is_nil(&self) -> (nil: bool)
        ensures
            nil == (self.address() == 0),
    {
        self.0 == 0
    }

    /// A second owner of the same object, and the retain that is due for it.
    pub fn clone(&self) -> (copy: (Self, Upkeep))
        ensures
            copy.0.address() == self.address(),
            copy.1 == retaining(self.address()),
    {
        NSCoderID(self.0).retain()
    }

    /// Ends this owner: the release that is due for it.
    pub fn drop(self) -> (upkeep: Upkeep)
        ensures
            upkeep == releasing(self.address()),
    {
        self.release()
    }
}

impl ObjectiveC for NSCoderID {
    closed spec fn address(&self) -> usize {
        self.0
    }

    fn as_ptr(&self) -> (ptr: usize) {
        self.0
    }

    fn from_ptr(ptr: usize) -> (id: Self) {
        NSCoderID(ptr)
    }
}

impl NSObject for NSCoderID {

}

impl NSCoder for NSCoderID {

}

} // verus!
