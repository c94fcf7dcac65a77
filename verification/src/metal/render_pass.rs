//! Render passes.

use vstd::prelude::*;
use crate::call::Call;
use crate::call::sends_to_class;
use crate::conversation::Step;
use crate::foundation::object::NSObject;
use crate::identity::ObjectiveC;
use crate::lifetime::releasing;
use crate::lifetime::retaining;
use crate::lifetime::Upkeep;
use crate::selector::family_is_in_the_initials;
use crate::selector::markers;

verus! {

/// A plan for one render pass. It is only ever passed along.
pub trait MTLRenderPassDescriptor: NSObject {
}

/// A plan for one render pass.
pub struct MTLRenderPassDescriptorID(usize);

impl MTLRenderPassDescriptorID {
    /// Stands for the object at `ptr` without taking a unit on it.
    pub fn from_ptr(ptr: usize) -> (id: Self)
        ensures
            id.address() == ptr,
    {
        MTLRenderPassDescriptorID(ptr)
    }

    /// Stands for no object.
    pub fn nil() -> (id: Self)
        ensures
            id.address() == 0,
    {
        MTLRenderPassDescriptorID(0)
    }

    /// Tells whether this stands for no object.
    pub fn is_nil(&self) -> (nil: bool)
        ensures
            nil == (self.address() == 0),
    {
        self.0 == 0
    }

    /// The name under which the runtime knows the class.
    pub fn class() -> (name: &'static str)
        ensures
            name@ == "MTLRenderPassDescriptor"@,
    {
        "MTLRenderPassDescriptor"
    }

    /// `alloc`: a fresh instance that no initializer has seen yet.
    pub fn allocate() -> (step: Step<Call<Self>, Self>)
        ensures
            sends_to_class(step, "MTLRenderPassDescriptor"@, "alloc"@, seq![], false),
    {
        proof {
            reveal_strlit("alloc");
            reveal_with_fuel(markers, 6);
            family_is_in_the_initials("alloc"@);
        }
        Call::to_class("MTLRenderPassDescriptor", "alloc", Vec::new())
    }

    /// A second owner of the same object, and the retain that is due for it.
    pub fn clone(&self) -> (copy: (Self, Upkeep))
        ensures
            copy.0.address() == self.address(),
            copy.1 == retaining(self.address()),
    {
        MTLRenderPassDescriptorID(self.0).retain()
    }

    /// Ends this owner: the release that is due for it.
    pub fn drop(self) -> (upkeep: Upkeep)
        ensures
            upkeep == releasing(self.address()),
    {
        self.release()
    }
}

impl ObjectiveC for MTLRenderPassDescriptorID {
    closed spec fn address(&self) -> usize {
        self.0
    }

    fn as_ptr(&self) -> (ptr: usize) {
        self.0
    }

    fn from_ptr(ptr: usize) -> (id: Self) {
        MTLRenderPassDescriptorID(ptr)
    }
}

impl NSObject for MTLRenderPassDescriptorID {

}

impl MTLRenderPassDescriptor for MTLRenderPassDescriptorID {

}

} // verus!
