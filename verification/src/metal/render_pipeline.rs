//! Pipelines and their plans.

use vstd::prelude::*;
use crate::call::Call;
use crate::call::sends;
use crate::call::sends_to_class;
use crate::conversation::Step;
use crate::foundation::object::NSObject;
use crate::identity::ObjectiveC;
use crate::lifetime::releasing;
use crate::lifetime::retaining;
use crate::lifetime::Upkeep;
use crate::message::Argument;
use crate::metal::library::MTLFunction;
use crate::selector::family_is_in_the_initials;
use crate::selector::markers;

verus! {

/// What the plan for one colour target of a pipeline can be asked.
pub trait MTLRenderPipelineColorAttachmentDescriptor: NSObject {
    /// `setPixelFormat:`: how the pixels of the target are laid out.
    fn set_pixel_format(&self, format: usize) -> (step: Step<Call<()>, ()>)
        ensures
            sends(step, self.address(), "setPixelFormat:"@, seq![Argument::Word(format)], true),
    {
        proof {
            reveal_strlit("setPixelFormat:");
            reveal_with_fuel(markers, 16);
            family_is_in_the_initials("setPixelFormat:"@);
        }
        let arguments = vec![Argument::Word(format)];
        assert(arguments@ =~= seq![Argument::Word(format)]);
        Call::to(self.as_ptr(), "setPixelFormat:", arguments)
    }
}

/// The plan for one colour target of a pipeline.
pub struct MTLRenderPipelineColorAttachmentDescriptorID(usize);

impl MTLRenderPipelineColorAttachmentDescriptorID {
    /// Stands for the object at `ptr` without taking a unit on it.
    pub fn from_ptr(ptr: usize) -> (id: Self)
        ensures
            id.address() == ptr,
    {
        MTLRenderPipelineColorAttachmentDescriptorID(ptr)
    }

    /// Stands for no object.
    pub fn nil() -> (id: Self)
        ensures
            id.address() == 0,
    {
        MTLRenderPipelineColorAttachmentDescriptorID(0)
    }

    /// Tells whether this stands for no object.
    pub fn is_nil(&self) -> (nil: bool)
        ensures
            nil == (self.address() == 0),
    {
        self.0 == 0
    }

    /// The name under which the runtime knows the class.
    pub fn class() -> (name: &'static str)
        ensures
            name@ == "MTLRenderPipelineColorAttachmentDescriptor"@,
    {
        "MTLRenderPipelineColorAttachmentDescriptor"
    }

    /// `alloc`: a fresh instance that no initializer has seen yet.
    pub fn allocate() -> (step: Step<Call<Self>, Self>)
        ensures
            sends_to_class(step, "MTLRenderPipelineColorAttachmentDescriptor"@, "alloc"@, seq![], false),
    {
        proof {
            reveal_strlit("alloc");
            reveal_with_fuel(markers, 6);
            family_is_in_the_initials("alloc"@);
        }
        Call::to_class("MTLRenderPipelineColorAttachmentDescriptor", "alloc", Vec::new())
    }

    /// A second owner of the same object, and the retain that is due for it.
    pub fn clone(&self) -> (copy: (Self, Upkeep))
        ensures
            copy.0.address() == self.address(),
            copy.1 == retaining(self.address()),
    {
        MTLRenderPipelineColorAttachmentDescriptorID(self.0).retain()
    }

    /// Ends this owner: the release that is due for it.
    pub fn drop(self) -> (upkeep: Upkeep)
        ensures
            upkeep == releasing(self.address()),
    {
        self.release()
    }
}

impl ObjectiveC for MTLRenderPipelineColorAttachmentDescriptorID {
    closed spec fn address(&self) -> usize {
        self.0
    }

    fn as_ptr(&self) -> (ptr: usize) {
        self.0
    }

    fn from_ptr(ptr: usize) -> (id: Self) {
        MTLRenderPipelineColorAttachmentDescriptorID(ptr)
    }
}

impl NSObject for MTLRenderPipelineColorAttachmentDescriptorID {

}

impl MTLRenderPipelineColorAttachmentDescriptor for MTLRenderPipelineColorAttachmentDescriptorID {

}

/// What the colour targets of a pipeline can be asked.
pub trait MTLRenderPipelineColorAttachmentDescriptorArray: NSObject {
    /// `objectAtIndexedSubscript:`: the plan for the target `i`. The index goes to the runtime as it is.
    fn object_at_indexed_subscript(
        &self,
        i: usize,
    ) -> (step: Step<Call<MTLRenderPipelineColorAttachmentDescriptorID>, MTLRenderPipelineColorAttachmentDescriptorID>)
        ensures
            sends(
                step,
                self.address(),
                "objectAtIndexedSubscript:"@,
                seq![Argument::Word(i)],
                true,
            ),
    {
        proof {
            reveal_strlit("objectAtIndexedSubscript:");
            reveal_with_fuel(markers, 26);
            family_is_in_the_initials("objectAtIndexedSubscript:"@);
        }
        let arguments = vec![Argument::Word(i)];
        assert(arguments@ =~= seq![Argument::Word(i)]);
        Call::to(self.as_ptr(), "objectAtIndexedSubscript:", arguments)
    }
}

/// The colour targets of a pipeline.
pub struct MTLRenderPipelineColorAttachmentDescriptorArrayID(usize);

impl MTLRenderPipelineColorAttachmentDescriptorArrayID {
    /// Stands for the object at `ptr` without taking a unit on it.
    pub fn from_ptr(ptr: usize) -> (id: Self)
        ensures
            id.address() == ptr,
    {
        MTLRenderPipelineColorAttachmentDescriptorArrayID(ptr)
    }

    /// Stands for no object.
    pub fn nil() -> (id: Self)
        ensures
            id.address() == 0,
    {
        MTLRenderPipelineColorAttachmentDescriptorArrayID(0)
    }

    /// Tells whether this stands for no object.
    pub fn is_nil(&self) -> (nil: bool)
        ensures
            nil == (self.address() == 0),
    {
        self.0 == 0
    }

    /// The name under which the runtime knows the class.
    pub fn class() -> (name: &'static str)
        ensures
            name@ == "MTLRenderPipelineColorAttachmentDescriptorArray"@,
    {
        "MTLRenderPipelineColorAttachmentDescriptorArray"
    }

    /// `alloc`: a fresh instance that no initializer has seen yet.
    pub fn allocate() -> (step: Step<Call<Self>, Self>)
        ensures
            sends_to_class(step, "MTLRenderPipelineColorAttachmentDescriptorArray"@, "alloc"@, seq![], false),
    {
        proof {
            reveal_strlit("alloc");
            reveal_with_fuel(markers, 6);
            family_is_in_the_initials("alloc"@);
        }
        Call::to_class("MTLRenderPipelineColorAttachmentDescriptorArray", "alloc", Vec::new())
    }

    /// A second owner of the same object, and the retain that is due for it.
    pub fn clone(&self) -> (copy: (Self, Upkeep))
        ensures
            copy.0.address() == self.address(),
            copy.1 == retaining(self.address()),
    {
        MTLRenderPipelineColorAttachmentDescriptorArrayID(self.0).retain()
    }

    /// Ends this owner: the release that is due for it.
    pub fn drop(self) -> (upkeep: Upkeep)
        ensures
            upkeep == releasing(self.address()),
    {
        self.release()
    }
}

impl ObjectiveC for MTLRenderPipelineColorAttachmentDescriptorArrayID {
    closed spec fn address(&self) -> usize {
        self.0
    }

    fn as_ptr(&self) -> (ptr: usize) {
        self.0
    }

    fn from_ptr(ptr: usize) -> (id: Self) {
        MTLRenderPipelineColorAttachmentDescriptorArrayID(ptr)
    }
}

impl NSObject for MTLRenderPipelineColorAttachmentDescriptorArrayID {

}

impl MTLRenderPipelineColorAttachmentDescriptorArray for MTLRenderPipelineColorAttachmentDescriptorArrayID {

}

/// What a plan for a pipeline can be asked.
pub trait MTLRenderPipelineDescriptor: NSObject {
    /// `init`: makes a fresh instance a plan with the usual settings.
    fn init(self) -> (step: Step<Call<Self>, Self>)
        ensures
            sends(step, self.address(), "init"@, seq![], false),
    {
        proof {
            reveal_strlit("init");
            reveal_with_fuel(markers, 5);
            family_is_in_the_initials("init"@);
        }
        Call::to(self.as_ptr(), "init", Vec::new())
    }

    /// `colorAttachments`: the colour targets of the pipeline.
    fn color_attachments(
        &self,
    ) -> (step: Step<Call<MTLRenderPipelineColorAttachmentDescriptorArrayID>, MTLRenderPipelineColorAttachmentDescriptorArrayID>)
        ensures
            sends(step, self.address(), "colorAttachments"@, seq![], true),
    {
        proof {
            reveal_strlit("colorAttachments");
            reveal_with_fuel(markers, 17);
            family_is_in_the_initials("colorAttachments"@);
        }
        Call::to(self.as_ptr(), "colorAttachments", Vec::new())
    }

    /// `setFragmentFunction:`: the shader that colours the pixels.
    fn set_fragment_function<T: MTLFunction>(&self, function: T) -> (step: Step<Call<()>, ()>)
        ensures
            sends(
                step,
                self.address(),
                "setFragmentFunction:"@,
                seq![Argument::Object(function.address())],
                true,
            ),
    {
        proof {
            reveal_strlit("setFragmentFunction:");
            reveal_with_fuel(markers, 21);
            family_is_in_the_initials("setFragmentFunction:"@);
        }
        let arguments = vec![Argument::Object(function.as_ptr())];
        assert(arguments@ =~= seq![Argument::Object(function.address())]);
        Call::to(self.as_ptr(), "setFragmentFunction:", arguments)
    }

    /// `setVertexFunction:`: the shader that places the vertices.
    fn set_vertex_function<T: MTLFunction>(&self, function: T) -> (step: Step<Call<()>, ()>)
        ensures
            sends(
                step,
                self.address(),
                "setVertexFunction:"@,
                seq![Argument::Object(function.address())],
                true,
            ),
    {
        proof {
            reveal_strlit("setVertexFunction:");
            reveal_with_fuel(markers, 19);
            family_is_in_the_initials("setVertexFunction:"@);
        }
        let arguments = vec![Argument::Object(function.as_ptr())];
        assert(arguments@ =~= seq![Argument::Object(function.address())]);
        Call::to(self.as_ptr(), "setVertexFunction:", arguments)
    }
}

/// A plan for a pipeline.
pub struct MTLRenderPipelineDescriptorID(usize);

impl MTLRenderPipelineDescriptorID {
    /// Stands for the object at `ptr` without taking a unit on it.
    pub fn from_ptr(ptr: usize) -> (id: Self)
        ensures
            id.address() == ptr,
    {
        MTLRenderPipelineDescriptorID(ptr)
    }

    /// Stands for no object.
    pub fn nil() -> (id: Self)
        ensures
            id.address() == 0,
    {
        MTLRenderPipelineDescriptorID(0)
    }

    /// Tells whether this stands for no object.
    pub fn is_nil(&self) -> (nil: bool)
        ensures
            nil == (self.address() == 0),
    {
        self.0 == 0
    }

    /// The name under which the runtime knows the class.
    pub fn class() -> (name: &'static str)
        ensures
            name@ == "MTLRenderPipelineDescriptor"@,
    {
        "MTLRenderPipelineDescriptor"
    }

    /// `alloc`: a fresh instance that no initializer has seen yet.
    pub fn allocate() -> (step: Step<Call<Self>, Self>)
        ensures
            sends_to_class(step, "MTLRenderPipelineDescriptor"@, "alloc"@, seq![], false),
    {
        proof {
            reveal_strlit("alloc");
            reveal_with_fuel(markers, 6);
            family_is_in_the_initials("alloc"@);
        }
        Call::to_class("MTLRenderPipelineDescriptor", "alloc", Vec::new())
    }

    /// A second owner of the same object, and the retain that is due for it.
    pub fn clone(&self) -> (copy: (Self, Upkeep))
        ensures
            copy.0.address() == self.address(),
            copy.1 == retaining(self.address()),
    {
        MTLRenderPipelineDescriptorID(self.0).retain()
    }

    /// Ends this owner: the release that is due for it.
    pub fn drop(self) -> (upkeep: Upkeep)
        ensures
            upkeep == releasing(self.address()),
    {
        self.release()
    }
}

impl ObjectiveC for MTLRenderPipelineDescriptorID {
    closed spec fn address(&self) -> usize {
        self.0
    }

    fn as_ptr(&self) -> (ptr: usize) {
        self.0
    }

    fn from_ptr(ptr: usize) -> (id: Self) {
        MTLRenderPipelineDescriptorID(ptr)
    }
}

impl NSObject for MTLRenderPipelineDescriptorID {

}

impl MTLRenderPipelineDescriptor for MTLRenderPipelineDescriptorID {

}

/// A pipeline that the device has made ready. It is only ever passed along.
pub trait MTLRenderPipelineState: NSObject {
}

/// A pipeline that the device has made ready.
pub struct MTLRenderPipelineStateID(usize);

impl MTLRenderPipelineStateID {
    /// Stands for the object at `ptr` without taking a unit on it.
    pub fn from_ptr(ptr: usize) -> (id: Self)
        ensures
            id.address() == ptr,
    {
        MTLRenderPipelineStateID(ptr)
    }

    /// Stands for no object.
    pub fn nil() -> (id: Self)
        ensures
            id.address() == 0,
    {
        MTLRenderPipelineStateID(0)
    }

    /// Tells whether this stands for no object.
    pub fn is_nil(&self) -> (nil: bool)
        ensures
            nil == (self.address() == 0),
    {
        self.0 == 0
    }

    /// A second owner of the same object, and the retain that is due for it.
    pub fn clone(&self) -> (copy: (Self, Upkeep))
        ensures
            copy.0.address() == self.address(),
            copy.1 == retaining(self.address()),
    {
        MTLRenderPipelineStateID(self.0).retain()
    }

    /// Ends this owner: the release that is due for it.
    pub fn drop(self) -> (upkeep: Upkeep)
        ensures
            upkeep == releasing(self.address()),
    {
        self.release()
    }
}

impl ObjectiveC for MTLRenderPipelineStateID {
    closed spec fn address(&self) -> usize {
        self.0
    }

    fn as_ptr(&self) -> (ptr: usize) {
        self.0
    }

    fn from_ptr(ptr: usize) -> (id: Self) {
        MTLRenderPipelineStateID(ptr)
    }
}

impl NSObject for MTLRenderPipelineStateID {

}

impl MTLRenderPipelineState for MTLRenderPipelineStateID {

}

} // verus!
