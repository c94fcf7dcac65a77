//! What every identity type has in common.

use vstd::prelude::*;
use crate::lifetime::release;
use crate::lifetime::releasing;
use crate::lifetime::retain;
use crate::lifetime::retaining;
use crate::lifetime::Upkeep;

verus! {

/// A value that stands for one foreign object, or for nil.
///
/// An identity type holds the object's address and nothing else. Holding
/// the value means holding one unit of the object's reference count, unless
/// the value was made from a bare address and never retained.
pub trait ObjectiveC: Sized {
    /// The address of the object; zero for nil.
    spec fn address(&self) -> usize;

    /// The address of the object, to hand to the runtime.
    fn as_ptr(&self) -> (ptr: usize)
        ensures
            ptr == self.address(),
    ;

    /// Stands for the object at `ptr` without taking a unit on it.
    fn from_ptr(ptr: usize) -> (id: Self)
        ensures
            id.address() == ptr,
    ;

    /// Takes a unit on the object and hands the value back, so that a
    /// borrowed result can be kept in one expression.
    fn retain(self) -> (kept: (Self, Upkeep))
        ensures
            kept.0.address() == self.address(),
            kept.1 == retaining(self.address()),
    {
        let upkeep = retain(self.as_ptr());
        (self, upkeep)
    }

    /// Gives up one unit on the object.
    fn release(&self) -> (upkeep: Upkeep)
        ensures
            upkeep == releasing(self.address()),
    {
        release(self.as_ptr())
    }

    /// The type code under which the runtime marshals a value of this type.
    fn encode() -> (code: &'static str)
        ensures
            code@ == "@"@,
    {
        "@"
    }
}

} // verus!
