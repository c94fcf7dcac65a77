//! Shaders and their collections.

use vstd::prelude::*;
use crate::call::Call;
use crate::call::sends;
use crate::conversation::Step;
use crate::foundation::object::NSObject;
use crate::foundation::string::NSString;
use crate::identity::ObjectiveC;
use crate::lifetime::releasing;
use crate::lifetime::retaining;
use crate::lifetime::Upkeep;
use crate::message::Argument;
use crate::selector::family_is_in_the_initials;
use crate::selector::markers;

verus! {

/// A shader. It is only ever passed along.
pub trait MTLFunction: NSObject {
}

/// A shader.
pub struct MTLFunctionID(usize);

impl MTLFunctionID {
    /// Stands for the object at `ptr` without taking a unit on it.
    pub fn from_ptr(ptr: usize) -> (id: Self)
        ensures
            id.address() == ptr,
    {
        MTLFunctionID(ptr)
    }

    /// Stands for no object.
    pub fn nil() -> (id: Self)
        ensures
            id.address() == 0,
    {
        MTLFunctionID(0)
    }

    /// Tells whether this stands for no object.
    pub fn is_nil(&self) -> (nil: bool)
        ensures
            nil == (self.address() == 0),
    {
        self.0 == 0
    }

    /// A second owner of the same object, and the retain that is due for it.
    pub fn clone(&self) -> (copy: (Self, Upkeep))
        ensures
            copy.0.address() == self.address(),
            copy.1 == retaining(self.address()),
    {
        MTLFunctionID(self.0).retain()
    }

    /// Ends this owner: the release that is due for it.
    pub fn drop(self) -> (upkeep: Upkeep)
        ensures
            upkeep == releasing(self.address()),
    {
        self.release()
    }
}

impl ObjectiveC for MTLFunctionID {
    closed spec fn address(&self) -> usize {
        self.0
    }

    fn as_ptr(&self) -> (ptr: usize) {
        self.0
    }

    fn from_ptr(ptr: usize) -> (id: Self) {
        MTLFunctionID(ptr)
    }
}

impl NSObject for MTLFunctionID {

}

impl MTLFunction for MTLFunctionID {

}

/// What a collection of shaders can be asked.
pub trait MTLLibrary: NSObject {
    /// `newFunctionWithName:`: the shader called `name`.
    fn new_function_with_name<T: NSString>(
        &self,
        name: T,
    ) -> (step: Step<Call<MTLFunctionID>, MTLFunctionID>)
        ensures
            sends(
                step,
                self.address(),
                "newFunctionWithName:"@,
                seq![Argument::Object(name.address())],
                false,
            ),
    {
        proof {
            reveal_strlit("newFunctionWithName:");
            reveal_with_fuel(markers, 21);
            family_is_in_the_initials("newFunctionWithName:"@);
        }
        let arguments = vec![Argument::Object(name.as_ptr())];
        assert(arguments@ =~= seq![Argument::Object(name.address())]);
        Call::to(self.as_ptr(), "newFunctionWithName:", arguments)
    }
}

/// A collection of shaders.
pub struct MTLLibraryID(usize);

impl MTLLibraryID {
    /// Stands for the object at `ptr` without taking a unit on it.
    pub fn from_ptr(ptr: usize) -> (id: Self)
        ensures
            id.address() == ptr,
    {
        MTLLibraryID(ptr)
    }

    /// Stands for no object.
    pub fn nil() -> (id: Self)
        ensures
            id.address() == 0,
    {
        MTLLibraryID(0)
    }

    /// Tells whether this stands for no object.
    pub fn is_nil(&self) -> (nil: bool)
        ensures
            nil == (self.address() == 0),
    {
        self.0 == 0
    }

    /// A second owner of the same object, and the retain that is due for it.
    pub fn clone(&self) -> (copy: (Self, Upkeep))
        ensures
            copy.0.address() == self.address(),
            copy.1 == retaining(self.address()),
    {
        MTLLibraryID(self.0).retain()
    }

    /// Ends this owner: the release that is due for it.
    pub fn drop(self) -> (upkeep: Upkeep)
        ensures
            upkeep == releasing(self.address()),
    {
        self.release()
    }
}

impl ObjectiveC for MTLLibraryID {
    closed spec fn address(&self) -> usize {
        self.0
    }

    fn as_ptr(&self) -> (ptr: usize) {
        self.0
    }

    fn from_ptr(ptr: usize) -> (id: Self) {
        MTLLibraryID(ptr)
    }
}

impl NSObject for MTLLibraryID {

}

impl MTLLibrary for MTLLibraryID {

}

} // verus!
