//! The depth test.

use vstd::prelude::*;
use crate::call::Call;
use crate::call::sends;
use crate::call::sends_to_class;
use crate::conversation::Step;
use crate::foundation::object::NSObject;
use crate::identity::ObjectiveC;
use crate::lifetime::releasing;
use crate::lifetime::retaining;
use crate::lifetime::Upkeep;
use crate::message::Argument;
use crate::metal::MTLCompareFunction;
use crate::selector::family_is_in_the_initials;
use crate::selector::markers;

verus! {

/// What a plan for the depth test can be asked.
pub trait MTLDepthStencilDescriptor: NSObject {
    /// `init`: makes a fresh instance a plan with the usual settings.
    fn init(self) -> (step: Step<Call<Self>, Self>)
        ensures
            sends(step, self.address(), "init"@, seq![], false),
    {
        proof {
            reveal_strlit("init");
            reveal_with_fuel(markers, 5);
            family_is_in_the_initials("init"@);
        }
        Call::to(self.as_ptr(), "init", Vec::new())
    }

    /// `setDepthCompareFunction:`: how a new depth is held against the stored one.
    fn set_depth_compare_function(
        &self,
        compare_function: MTLCompareFunction,
    ) -> (step: Step<Call<()>, ()>)
        ensures
            sends(
                step,
                self.address(),
                "setDepthCompareFunction:"@,
                seq![Argument::Word(compare_function.code())],
                true,
            ),
    {
        proof {
            reveal_strlit("setDepthCompareFunction:");
            reveal_with_fuel(markers, 25);
            family_is_in_the_initials("setDepthCompareFunction:"@);
        }
        let arguments = vec![Argument::Word(compare_function.value())];
        assert(arguments@ =~= seq![Argument::Word(compare_function.code())]);
        Call::to(self.as_ptr(), "setDepthCompareFunction:", arguments)
    }

    /// `setDepthWriteEnabled:`: whether a depth that passes is stored.
    fn set_depth_write_enabled(&self, enabled: bool) -> (step: Step<Call<()>, ()>)
        ensures
            sends(
                step,
                self.address(),
                "setDepthWriteEnabled:"@,
                seq![Argument::Flag(enabled)],
                true,
            ),
    {
        proof {
            reveal_strlit("setDepthWriteEnabled:");
            reveal_with_fuel(markers, 22);
            family_is_in_the_initials("setDepthWriteEnabled:"@);
        }
        let arguments = vec![Argument::Flag(enabled)];
        assert(arguments@ =~= seq![Argument::Flag(enabled)]);
        Call::to(self.as_ptr(), "setDepthWriteEnabled:", arguments)
    }
}

/// A plan for the depth test.
pub struct MTLDepthStencilDescriptorID(usize);

impl MTLDepthStencilDescriptorID {
    /// Stands for the object at `ptr` without taking a unit on it.
    pub fn from_ptr(ptr: usize) -> (id: Self)
        ensures
            id.address() == ptr,
    {
        MTLDepthStencilDescriptorID(ptr)
    }

    /// Stands for no object.
    pub fn nil() -> (id: Self)
        ensures
            id.address() == 0,
    {
        MTLDepthStencilDescriptorID(0)
    }

    /// Tells whether this stands for no object.
    pub fn is_nil(&self) -> (nil: bool)
        ensures
            nil == (self.address() == 0),
    {
        self.0 == 0
    }

    /// The name under which the runtime knows the class.
    pub fn class() -> (name: &'static str)
        ensures
            name@ == "MTLDepthStencilDescriptor"@,
    {
        "MTLDepthStencilDescriptor"
    }

    /// `alloc`: a fresh instance that no initializer has seen yet.
    pub fn allocate() -> (step: Step<Call<Self>, Self>)
        ensures
            sends_to_class(step, "MTLDepthStencilDescriptor"@, "alloc"@, seq![], false),
    {
        proof {
            reveal_strlit("alloc");
            reveal_with_fuel(markers, 6);
            family_is_in_the_initials("alloc"@);
        }
        Call::to_class("MTLDepthStencilDescriptor", "alloc", Vec::new())
    }

    /// A second owner of the same object, and the retain that is due for it.
    pub fn clone(&self) -> (copy: (Self, Upkeep))
        ensures
            copy.0.address() == self.address(),
            copy.1 == retaining(self.address()),
    {
        MTLDepthStencilDescriptorID(self.0).retain()
    }

    /// Ends this owner: the release that is due for it.
    pub fn drop(self) -> (upkeep: Upkeep)
        ensures
            upkeep == releasing(self.address()),
    {
        self.release()
    }
}

impl ObjectiveC for MTLDepthStencilDescriptorID {
    closed spec fn address(&self) -> usize {
        self.0
    }

    fn as_ptr(&self) -> (ptr: usize) {
        self.0
    }

    fn from_ptr(ptr: usize) -> (id: Self) {
        MTLDepthStencilDescriptorID(ptr)
    }
}

impl NSObject for MTLDepthStencilDescriptorID {

}

impl MTLDepthStencilDescriptor for MTLDepthStencilDescriptorID {

}

/// A depth test that the device has made ready. It is only ever passed along.
pub trait MTLDepthStencilState: NSObject {
}

/// A depth test that the device has made ready.
pub struct MTLDepthStencilStateID(usize);

impl MTLDepthStencilStateID {
    /// Stands for the object at `ptr` without taking a unit on it.
    pub fn from_ptr(ptr: usize) -> (id: Self)
        ensures
            id.address() == ptr,
    {
        MTLDepthStencilStateID(ptr)
    }

    /// Stands for no object.
    pub fn nil() -> (id: Self)
        ensures
            id.address() == 0,
    {
        MTLDepthStencilStateID(0)
    }

    /// Tells whether this stands for no object.
    pub fn is_nil(&self) -> (nil: bool)
        ensures
            nil == (self.address() == 0),
    {
        self.0 == 0
    }

    /// A second owner of the same object, and the retain that is due for it.
    pub fn clone(&self) -> (copy: (Self, Upkeep))
        ensures
            copy.0.address() == self.address(),
            copy.1 == retaining(self.address()),
    {
        MTLDepthStencilStateID(self.0).retain()
    }

    /// Ends this owner: the release that is due for it.
    pub fn drop(self) -> (upkeep: Upkeep)
        ensures
            upkeep == releasing(self.address()),
    {
        self.release()
    }
}

impl ObjectiveC for MTLDepthStencilStateID {
    closed spec fn address(&self) -> usize {
        self.0
    }

    fn as_ptr(&self) -> (ptr: usize) {
        self.0
    }

    fn from_ptr(ptr: usize) -> (id: Self) {
        MTLDepthStencilStateID(ptr)
    }
}

impl NSObject for MTLDepthStencilStateID {

}

impl MTLDepthStencilState for MTLDepthStencilStateID {

}

} // verus!
