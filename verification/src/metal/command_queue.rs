//! Queues of batches.

use vstd::prelude::*;
use crate::call::Call;
use crate::call::sends;
use crate::conversation::Step;
use crate::foundation::object::NSObject;
use crate::identity::ObjectiveC;
use crate::lifetime::releasing;
use crate::lifetime::retaining;
use crate::lifetime::Upkeep;
use crate::metal::command_buffer::MTLCommandBufferID;
use crate::selector::family_is_in_the_initials;
use crate::selector::markers;

verus! {

/// What a queue of batches can be asked.
pub trait MTLCommandQueue: NSObject {
    /// `commandBuffer`: a new batch at the end of the queue.
    fn command_buffer(&self) -> (step: Step<Call<MTLCommandBufferID>, MTLCommandBufferID>)
        ensures
            sends(step, self.address(), "commandBuffer"@, seq![], true),
    {
        proof {
            reveal_strlit("commandBuffer");
            reveal_with_fuel(markers, 14);
            family_is_in_the_initials("commandBuffer"@);
        }
        Call::to(self.as_ptr(), "commandBuffer", Vec::new())
    }
}

/// A queue of batches.
pub struct MTLCommandQueueID(usize);

impl MTLCommandQueueID {
    /// Stands for the object at `ptr` without taking a unit on it.
    pub fn from_ptr(ptr: usize) -> (id: Self)
        ensures
            id.address() == ptr,
    {
        MTLCommandQueueID(ptr)
    }

    /// Stands for no object.
    pub fn nil() -> (id: Self)
        ensures
            id.address() == 0,
    {
        MTLCommandQueueID(0)
    }

    /// Tells whether this stands for no object.
    pub fn is_nil(&self) -> (nil: bool)
        ensures
            nil == (self.address() == 0),
    {
        self.0 == 0
    }

    /// A second owner of the same object, and the retain that is due for it.
    pub fn clone(&self) -> (copy: (Self, Upkeep))
        ensures
            copy.0.address() == self.address(),
            copy.1 == retaining(self.address()),
    {
        MTLCommandQueueID(self.0).retain()
    }

    /// Ends this owner: the release that is due for it.
    pub fn drop(self) -> (upkeep: Upkeep)
        ensures
            upkeep == releasing(self.address()),
    {
        self.release()
    }
}

impl ObjectiveC for MTLCommandQueueID {
    closed spec fn address(&self) -> usize {
        self.0
    }

    fn as_ptr(&self) -> (ptr: usize) {
        self.0
    }

    fn from_ptr(ptr: usize) -> (id: Self) {
        MTLCommandQueueID(ptr)
    }
}

impl NSObject for MTLCommandQueueID {

}

impl MTLCommandQueue for MTLCommandQueueID {

}

} // verus!
