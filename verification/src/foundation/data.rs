//! Runs of bytes.

use vstd::prelude::*;
use crate::call::Call;
use crate::call::sends;
use crate::call::sends_to_class;
use crate::construct::Construct;
use crate::construct::constructs;
use crate::conversation::Step;
use crate::foundation::NSRange;
use crate::foundation::NSUInteger;
use crate::foundation::object::NSObject;
use crate::identity::ObjectiveC;
use crate::lifetime::releasing;
use crate::lifetime::retaining;
use crate::lifetime::Upkeep;
use crate::message::Argument;
use crate::selector::family_is_in_the_initials;
use crate::selector::markers;

verus! {

/// What a run of bytes can be asked.
pub trait NSData: NSObject {
    /// `initWithBytes:length:`: fills a fresh instance with the `length` bytes at `bytes`.
    fn init_with_bytes_length(
        self,
        bytes: usize,
        length: NSUInteger,
    ) -> (step: Step<Call<Self>, Self>)
        ensures
            sends(
                step,
                self.address(),
                "initWithBytes:length:"@,
                seq![Argument::Pointer(bytes), Argument::Word(length)],
                false,
            ),
    {
        proof {
            reveal_strlit("initWithBytes:length:");
            reveal_with_fuel(markers, 22);
            family_is_in_the_initials("initWithBytes:length:"@);
        }
        let arguments = vec![Argument::Pointer(bytes), Argument::Word(length)];
        assert(arguments@ =~= seq![Argument::Pointer(bytes), Argument::Word(length)]);
        Call::to(self.as_ptr(), "initWithBytes:length:", arguments)
    }

    /// `subdataWithRange:`: the bytes within `range`. The range goes to the runtime as it is.
    fn subdata_with_range(&self, range: NSRange) -> (step: Step<Call<NSDataID>, NSDataID>)
        ensures
            sends(step, self.address(), "subdataWithRange:"@, seq![Argument::Range(range)], true),
    {
        proof {
            reveal_strlit("subdataWithRange:");
            reveal_with_fuel(markers, 18);
            family_is_in_the_initials("subdataWithRange:"@);
        }
        let arguments = vec![Argument::Range(range)];
        assert(arguments@ =~= seq![Argument::Range(range)]);
        Call::to(self.as_ptr(), "subdataWithRange:", arguments)
    }
}

/// A run of bytes.
pub struct NSDataID(usize);

impl NSDataID {
    /// Stands for the object at `ptr` without taking a unit on it.
    pub fn from_ptr(ptr: usize) -> (id: Self)
        ensures
            id.address() == ptr,
    {
        NSDataID(ptr)
    }

    /// Stands for no object.
    pub fn nil() -> (id: Self)
        ensures
            id.address() == 0,
    {
        NSDataID(0)
    }

    /// Tells whether this stands for no object.
    pub fn is_nil(&self) -> (nil: bool)
        ensures
            nil == (self.address() == 0),
    {
        self.0 == 0
    }

    /// The name under which the runtime knows the class.
    pub fn class() -> (name: &'static str)
        ensures
            name@ == "NSData"@,
    {
        "NSData"
    }

    /// `alloc`: a fresh instance that no initializer has seen yet.
    pub fn allocate() -> (step: Step<Call<Self>, Self>)
        ensures
            sends_to_class(step, "NSData"@, "alloc"@, seq![], false),
    {
        proof {
            reveal_strlit("alloc");
            reveal_with_fuel(markers, 6);
            family_is_in_the_initials("alloc"@);
        }
        Call::to_class("NSData", "alloc", Vec::new())
    }

    /// A copy of the `length` bytes at `bytes`.
    pub fn new_with_bytes_length(
        bytes: usize,
        length: NSUInteger,
    ) -> (step: Step<Construct<Self>, Self>)
        ensures
            constructs(
                step,
                "NSData"@,
                "initWithBytes:length:"@,
                seq![Argument::Pointer(bytes), Argument::Word(length)],
                Seq::empty(),
            ),
    {
        proof {
            reveal_strlit("initWithBytes:length:");
            reveal_with_fuel(markers, 22);
        }
        let arguments = vec![Argument::Pointer(bytes), Argument::Word(length)];
        assert(arguments@ =~= seq![Argument::Pointer(bytes), Argument::Word(length)]);
        Construct::begin("NSData", "initWithBytes:length:", arguments, Vec::new())
    }

    /// A second owner of the same object, and the retain that is due for it.
    pub fn clone(&self) -> (copy: (Self, Upkeep))
        ensures
            copy.0.address() == self.address(),
            copy.1 == retaining(self.address()),
    {
        NSDataID(self.0).retain()
    }

    /// Ends this owner: the release that is due for it.
    pub fn drop(self) -> (upkeep: Upkeep)
        ensures
            upkeep == releasing(self.address()),
    {
        self.release()
    }
}

impl ObjectiveC for NSDataID {
    closed spec fn address(&self) -> usize {
        self.0
    }

    fn as_ptr(&self) -> (ptr: usize) {
        self.0
    }

    fn from_ptr(ptr: usize) -> (id: Self) {
        NSDataID(ptr)
    }
}

impl NSObject for NSDataID {

}

impl NSData for NSDataID {

}

} // verus!
