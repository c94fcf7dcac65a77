//! Batches of work.

use vstd::prelude::*;
use crate::call::Call;
use crate::call::sends;
use crate::conversation::Step;
use crate::foundation::object::NSObject;
use crate::identity::ObjectiveC;
use crate::lifetime::releasing;
use crate::lifetime::retaining;
use crate::lifetime::Upkeep;
use crate::message::Argument;
use crate::metal::command_encoder::MTLCommandEncoderID;
use crate::metal::drawable::CAMetalDrawable;
use crate::metal::render_pass::MTLRenderPassDescriptor;
use crate::selector::family_is_in_the_initials;
use crate::selector::markers;

verus! {

/// What a batch of work for the device can be asked.
pub trait MTLCommandBuffer: NSObject {
    /// `commit`: hands the batch to the device.
    fn commit(&self) -> (step: Step<Call<()>, ()>)
        ensures
            sends(step, self.address(), "commit"@, seq![], true),
    {
        proof {
            reveal_strlit("commit");
            reveal_with_fuel(markers, 7);
            family_is_in_the_initials("commit"@);
        }
        Call::to(self.as_ptr(), "commit", Vec::new())
    }

    /// `presentDrawable:`: shows the result on `drawable` once the batch is through.
    fn present_drawable<T: CAMetalDrawable>(&self, drawable: T) -> (step: Step<Call<()>, ()>)
        ensures
            sends(
                step,
                self.address(),
                "presentDrawable:"@,
                seq![Argument::Object(drawable.address())],
                true,
            ),
    {
        proof {
            reveal_strlit("presentDrawable:");
            reveal_with_fuel(markers, 17);
            family_is_in_the_initials("presentDrawable:"@);
        }
        let arguments = vec![Argument::Object(drawable.as_ptr())];
        assert(arguments@ =~= seq![Argument::Object(drawable.address())]);
        Call::to(self.as_ptr(), "presentDrawable:", arguments)
    }

    /// `renderCommandEncoderWithDescriptor:`: a writer for one render pass.
    fn render_command_encoder_with_descriptor<T: MTLRenderPassDescriptor>(
        &self,
        render_pass_descriptor: T,
    ) -> (step: Step<Call<MTLCommandEncoderID>, MTLCommandEncoderID>)
        ensures
            sends(
                step,
                self.address(),
                "renderCommandEncoderWithDescriptor:"@,
                seq![Argument::Object(render_pass_descriptor.address())],
                true,
            ),
    {
        proof {
            reveal_strlit("renderCommandEncoderWithDescriptor:");
            reveal_with_fuel(markers, 36);
            family_is_in_the_initials("renderCommandEncoderWithDescriptor:"@);
        }
        let arguments = vec![Argument::Object(render_pass_descriptor.as_ptr())];
        assert(arguments@ =~= seq![Argument::Object(render_pass_descriptor.address())]);
        Call::to(self.as_ptr(), "renderCommandEncoderWithDescriptor:", arguments)
    }
}

/// A batch of work for the device.
pub struct MTLCommandBufferID(usize);

impl MTLCommandBufferID {
    /// Stands for the object at `ptr` without taking a unit on it.
    pub fn from_ptr(ptr: usize) -> (id: Self)
        ensures
            id.address() == ptr,
    {
        MTLCommandBufferID(ptr)
    }

    /// Stands for no object.
    pub fn nil() -> (id: Self)
        ensures
            id.address() == 0,
    {
        MTLCommandBufferID(0)
    }

    /// Tells whether this stands for no object.
    pub fn is_nil(&self) -> (nil: bool)
        ensures
            nil == (self.address() == 0),
    {
        self.0 == 0
    }

    /// A second owner of the same object, and the retain that is due for it.
    pub fn clone(&self) -> (copy: (Self, Upkeep))
        ensures
            copy.0.address() == self.address(),
            copy.1 == retaining(self.address()),
    {
        MTLCommandBufferID(self.0).retain()
    }

    /// Ends this owner: the release that is due for it.
    pub fn drop(self) -> (upkeep: Upkeep)
        ensures
            upkeep == releasing(self.address()),
    {
        self.release()
    }
}

impl ObjectiveC for MTLCommandBufferID {
    closed spec fn address(&self) -> usize {
        self.0
    }

    fn as_ptr(&self) -> (ptr: usize) {
        self.0
    }

    fn from_ptr(ptr: usize) -> (id: Self) {
        MTLCommandBufferID(ptr)
    }
}

impl NSObject for MTLCommandBufferID {

}

impl MTLCommandBuffer for MTLCommandBufferID {

}

} // verus!
