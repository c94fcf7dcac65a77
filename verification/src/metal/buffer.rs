//! Memory that the device can reach.

use vstd::prelude::*;
use crate::call::Call;
use crate::call::RawPointer;
use crate::call::sends;
use crate::conversation::Step;
use crate::foundation::object::NSObject;
use crate::identity::ObjectiveC;
use crate::lifetime::releasing;
use crate::lifetime::retaining;
use crate::lifetime::Upkeep;
use crate::selector::family_is_in_the_initials;
use crate::selector::markers;

verus! {

/// What a stretch of memory that the device can reach can be asked.
pub trait MTLBuffer: NSObject {
    /// `contents`: where the memory lies.
    fn contents(&self) -> (step: Step<Call<RawPointer>, RawPointer>)
        ensures
            sends(step, self.address(), "contents"@, seq![], true),
    {
        proof {
            reveal_strlit("contents");
            reveal_with_fuel(markers, 9);
            family_is_in_the_initials("contents"@);
        }
        Call::to(self.as_ptr(), "contents", Vec::new())
    }
}

/// A stretch of memory that the device can reach.
pub struct MTLBufferID(usize);

impl MTLBufferID {
    /// Stands for the object at `ptr` without taking a unit on it.
    pub fn from_ptr(ptr: usize) -> (id: Self)
        ensures
            id.address() == ptr,
    {
        MTLBufferID(ptr)
    }

    /// Stands for no object.
    pub fn nil() -> (id: Self)
        ensures
            id.address() == 0,
    {
        MTLBufferID(0)
    }

    /// Tells whether this stands for no object.
    pub fn is_nil(&self) -> (nil: bool)
        ensures
            nil == (self.address() == 0),
    {
        self.0 == 0
    }

    /// A second owner of the same object, and the retain that is due for it.
    pub fn clone(&self) -> (copy: (Self, Upkeep))
        ensures
            copy.0.address() == self.address(),
            copy.1 == retaining(self.address()),
    {
        MTLBufferID(self.0).retain()
    }

    /// Ends this owner: the release that is due for it.
    pub fn drop(self) -> (upkeep: Upkeep)
        ensures
            upkeep == releasing(self.address()),
    {
        self.release()
    }
}

impl ObjectiveC for MTLBufferID {
    closed spec fn address(&self) -> usize {
        self.0
    }

    fn as_ptr(&self) -> (ptr: usize) {
        self.0
    }

    fn from_ptr(ptr: usize) -> (id: Self) {
        MTLBufferID(ptr)
    }
}

impl NSObject for MTLBufferID {

}

impl MTLBuffer for MTLBufferID {

}

} // verus!
