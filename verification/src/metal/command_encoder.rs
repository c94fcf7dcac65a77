//! Writers of render passes.

use vstd::prelude::*;
use crate::call::Call;
use crate::call::sends;
use crate::conversation::Step;
use crate::foundation::object::NSObject;
use crate::identity::ObjectiveC;
use crate::lifetime::releasing;
use crate::lifetime::retaining;
use crate::lifetime::Upkeep;
use crate::message::Argument;
use crate::metal::buffer::MTLBuffer;
use crate::metal::depth_stencil::MTLDepthStencilState;
use crate::metal::MTLCullMode;
use crate::metal::MTLIndexType;
use crate::metal::MTLPrimitiveType;
use crate::metal::MTLWinding;
use crate::metal::render_pipeline::MTLRenderPipelineState;
use crate::selector::family_is_in_the_initials;
use crate::selector::markers;

verus! {

/// What the writer of one render pass can be asked.
///
/// A writer takes settings and drawings until it is told that the pass is
/// over. Whether a call comes at the right moment is for the runtime to say:
/// nothing is held back here.
pub trait MTLCommandEncoder: NSObject {
    /// `drawPrimitives:vertexStart:vertexCount:`: draws `count` vertices from `start` on.
    fn draw_primitives_vertex_start_vertex_count(
        &self,
        primitive_type: MTLPrimitiveType,
        start: usize,
        count: usize,
    ) -> (step: Step<Call<()>, ()>)
        ensures
            sends(
                step,
                self.address(),
                "drawPrimitives:vertexStart:vertexCount:"@,
                seq![Argument::Word(primitive_type.code()), Argument::Word(start), Argument::Word(count)],
                true,
            ),
    {
        proof {
            reveal_strlit("drawPrimitives:vertexStart:vertexCount:");
            reveal_with_fuel(markers, 40);
            family_is_in_the_initials("drawPrimitives:vertexStart:vertexCount:"@);
        }
        let arguments = vec![
            Argument::Word(primitive_type.value()),
            Argument::Word(start),
            Argument::Word(count),
        ];
        assert(arguments@ =~= seq![
            Argument::Word(primitive_type.code()),
            Argument::Word(start),
            Argument::Word(count),
        ]);
        Call::to(self.as_ptr(), "drawPrimitives:vertexStart:vertexCount:", arguments)
    }

    /// `drawIndexedPrimitives:indexCount:indexType:indexBuffer:indexBufferOffset:`:
    /// draws the vertices that `count` indices in `index_buffer` name, from `offset` on.
    fn draw_indexed_primitives_index_count_index_type_index_buffer_index_buffer_offset<T: MTLBuffer>(
        &self,
        primitive_type: MTLPrimitiveType,
        count: usize,
        index_type: MTLIndexType,
        index_buffer: T,
        offset: usize,
    ) -> (step: Step<Call<()>, ()>)
        ensures
            sends(
                step,
                self.address(),
                "drawIndexedPrimitives:indexCount:indexType:indexBuffer:indexBufferOffset:"@,
                seq![Argument::Word(primitive_type.code()), Argument::Word(count), Argument::Word(index_type.code()), Argument::Object(index_buffer.address()), Argument::Word(offset)],
                true,
            ),
    {
        proof {
            reveal_strlit("drawIndexedPrimitives:indexCount:indexType:indexBuffer:indexBufferOffset:");
            reveal_with_fuel(markers, 74);
            family_is_in_the_initials("drawIndexedPrimitives:indexCount:indexType:indexBuffer:indexBufferOffset:"@);
        }
        let arguments = vec![
            Argument::Word(primitive_type.value()),
            Argument::Word(count),
            Argument::Word(index_type.value()),
            Argument::Object(index_buffer.as_ptr()),
            Argument::Word(offset),
        ];
        assert(arguments@ =~= seq![
            Argument::Word(primitive_type.code()),
            Argument::Word(count),
            Argument::Word(index_type.code()),
            Argument::Object(index_buffer.address()),
            Argument::Word(offset),
        ]);
        Call::to(self.as_ptr(), "drawIndexedPrimitives:indexCount:indexType:indexBuffer:indexBufferOffset:", arguments)
    }

    /// `endEncoding`: the pass is over.
    fn end_encoding(&self) -> (step: Step<Call<()>, ()>)
        ensures
            sends(step, self.address(), "endEncoding"@, seq![], true),
    {
        proof {
            reveal_strlit("endEncoding");
            reveal_with_fuel(markers, 12);
            family_is_in_the_initials("endEncoding"@);
        }
        Call::to(self.as_ptr(), "endEncoding", Vec::new())
    }

    /// `setCullMode:`: which faces to leave out.
    fn set_cull_mode(&self, mode: MTLCullMode) -> (step: Step<Call<()>, ()>)
        ensures
            sends(step, self.address(), "setCullMode:"@, seq![Argument::Word(mode.code())], true),
    {
        proof {
            reveal_strlit("setCullMode:");
            reveal_with_fuel(markers, 13);
            family_is_in_the_initials("setCullMode:"@);
        }
        let arguments = vec![Argument::Word(mode.value())];
        assert(arguments@ =~= seq![Argument::Word(mode.code())]);
        Call::to(self.as_ptr(), "setCullMode:", arguments)
    }

    /// `setDepthStencilState:`: how depth is tested.
    fn set_depth_stencil_state<T: MTLDepthStencilState>(
        &self,
        state: T,
    ) -> (step: Step<Call<()>, ()>)
        ensures
            sends(
                step,
                self.address(),
                "setDepthStencilState:"@,
                seq![Argument::Object(state.address())],
                true,
            ),
    {
        proof {
            reveal_strlit("setDepthStencilState:");
            reveal_with_fuel(markers, 22);
            family_is_in_the_initials("setDepthStencilState:"@);
        }
        let arguments = vec![Argument::Object(state.as_ptr())];
        assert(arguments@ =~= seq![Argument::Object(state.address())]);
        Call::to(self.as_ptr(), "setDepthStencilState:", arguments)
    }

    /// `setFrontFacingWinding:`: in which sense front faces run.
    fn set_front_facing_winding(&self, winding: MTLWinding) -> (step: Step<Call<()>, ()>)
        ensures
            sends(
                step,
                self.address(),
                "setFrontFacingWinding:"@,
                seq![Argument::Word(winding.code())],
                true,
            ),
    {
        proof {
            reveal_strlit("setFrontFacingWinding:");
            reveal_with_fuel(markers, 23);
            family_is_in_the_initials("setFrontFacingWinding:"@);
        }
        let arguments = vec![Argument::Word(winding.value())];
        assert(arguments@ =~= seq![Argument::Word(winding.code())]);
        Call::to(self.as_ptr(), "setFrontFacingWinding:", arguments)
    }

    /// `setRenderPipelineState:`: which pipeline draws.
    fn set_render_pipeline_state<T: MTLRenderPipelineState>(
        &self,
        pipeline_state: T,
    ) -> (step: Step<Call<()>, ()>)
        ensures
            sends(
                step,
                self.address(),
                "setRenderPipelineState:"@,
                seq![Argument::Object(pipeline_state.address())],
                true,
            ),
    {
        proof {
            reveal_strlit("setRenderPipelineState:");
            reveal_with_fuel(markers, 24);
            family_is_in_the_initials("setRenderPipelineState:"@);
        }
        let arguments = vec![Argument::Object(pipeline_state.as_ptr())];
        assert(arguments@ =~= seq![Argument::Object(pipeline_state.address())]);
        Call::to(self.as_ptr(), "setRenderPipelineState:", arguments)
    }

    /// `setVertexBuffer:offset:atIndex:`: binds `buffer` from `offset` on to the slot `index`.
    fn set_vertex_buffer_offset_at_index<T: MTLBuffer>(
        &self,
        buffer: T,
        offset: usize,
        index: usize,
    ) -> (step: Step<Call<()>, ()>)
        ensures
            sends(
                step,
                self.address(),
                "setVertexBuffer:offset:atIndex:"@,
                seq![Argument::Object(buffer.address()), Argument::Word(offset), Argument::Word(index)],
                true,
            ),
    {
        proof {
            reveal_strlit("setVertexBuffer:offset:atIndex:");
            reveal_with_fuel(markers, 32);
            family_is_in_the_initials("setVertexBuffer:offset:atIndex:"@);
        }
        let arguments = vec![
            Argument::Object(buffer.as_ptr()),
            Argument::Word(offset),
            Argument::Word(index),
        ];
        assert(arguments@ =~= seq![
            Argument::Object(buffer.address()),
            Argument::Word(offset),
            Argument::Word(index),
        ]);
        Call::to(self.as_ptr(), "setVertexBuffer:offset:atIndex:", arguments)
    }
}

/// The writer of one render pass.
pub struct MTLCommandEncoderID(usize);

impl MTLCommandEncoderID {
    /// Stands for the object at `ptr` without taking a unit on it.
    pub fn from_ptr(ptr: usize) -> (id: Self)
        ensures
            id.address() == ptr,
    {
        MTLCommandEncoderID(ptr)
    }

    /// Stands for no object.
    pub fn nil() -> (id: Self)
        ensures
            id.address() == 0,
    {
        MTLCommandEncoderID(0)
    }

    /// Tells whether this stands for no object.
    pub fn is_nil(&self) -> (nil: bool)
        ensures
            nil == (self.address() == 0),
    {
        self.0 == 0
    }

    /// A second owner of the same object, and the retain that is due for it.
    pub fn clone(&self) -> (copy: (Self, Upkeep))
        ensures
            copy.0.address() == self.address(),
            copy.1 == retaining(self.address()),
    {
        MTLCommandEncoderID(self.0).retain()
    }

    /// Ends this owner: the release that is due for it.
    pub fn drop(self) -> (upkeep: Upkeep)
        ensures
            upkeep == releasing(self.address()),
    {
        self.release()
    }
}

impl ObjectiveC for MTLCommandEncoderID {
    closed spec fn address(&self) -> usize {
        self.0
    }

    fn as_ptr(&self) -> (ptr: usize) {
        self.0
    }

    fn from_ptr(ptr: usize) -> (id: Self) {
        MTLCommandEncoderID(ptr)
    }
}

impl NSObject for MTLCommandEncoderID {

}

impl MTLCommandEncoder for MTLCommandEncoderID {

}

} // verus!
