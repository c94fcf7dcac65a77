//! Metal: devices, command queues and what they make.
//!
//! Where a method takes an object by value, the value is used up: its
//! address goes into the message, and no release falls due for it.

use vstd::prelude::*;

pub mod buffer;
pub mod command_buffer;
pub mod command_encoder;
pub mod command_queue;
pub mod depth_stencil;
pub mod device;
pub mod drawable;
pub mod library;
pub mod render_pass;
pub mod render_pipeline;

pub use self::buffer::MTLBuffer;
pub use self::buffer::MTLBufferID;
pub use self::command_buffer::MTLCommandBuffer;
pub use self::command_buffer::MTLCommandBufferID;
pub use self::command_encoder::MTLCommandEncoder;
pub use self::command_encoder::MTLCommandEncoderID;
pub use self::command_queue::MTLCommandQueue;
pub use self::command_queue::MTLCommandQueueID;
pub use self::depth_stencil::MTLDepthStencilDescriptor;
pub use self::depth_stencil::MTLDepthStencilDescriptorID;
pub use self::depth_stencil::MTLDepthStencilState;
pub use self::depth_stencil::MTLDepthStencilStateID;
pub use self::device::all_devices;
pub use self::device::system_default_device;
pub use self::device::MTLDevice;
pub use self::device::MTLDeviceID;
pub use self::device::SampleCounts;
pub use self::drawable::CAMetalDrawable;
pub use self::drawable::CAMetalDrawableID;
pub use self::library::MTLFunction;
pub use self::library::MTLFunctionID;
pub use self::library::MTLLibrary;
pub use self::library::MTLLibraryID;
pub use self::render_pass::MTLRenderPassDescriptor;
pub use self::render_pass::MTLRenderPassDescriptorID;
pub use self::render_pipeline::MTLRenderPipelineColorAttachmentDescriptor;
pub use self::render_pipeline::MTLRenderPipelineColorAttachmentDescriptorID;
pub use self::render_pipeline::MTLRenderPipelineColorAttachmentDescriptorArray;
pub use self::render_pipeline::MTLRenderPipelineColorAttachmentDescriptorArrayID;
pub use self::render_pipeline::MTLRenderPipelineDescriptor;
pub use self::render_pipeline::MTLRenderPipelineDescriptorID;
pub use self::render_pipeline::MTLRenderPipelineState;
pub use self::render_pipeline::MTLRenderPipelineStateID;

verus! {

/// The extent of a grid or region along three axes.
#[derive(Clone, Copy, Debug, PartialEq, Eq, Structural)]
pub struct MTLSize {
    pub width: usize,
    pub height: usize,
    pub depth: usize,
}

/// How a new value is held against the one that is stored.
#[derive(Clone, Copy, Debug, PartialEq, Eq, Structural)]
pub enum MTLCompareFunction {
    MTLCompareFunctionNever,
    MTLCompareFunctionLess,
    MTLCompareFunctionEqual,
    MTLCompareFunctionLessEqual,
    MTLCompareFunctionGreater,
    MTLCompareFunctionNotEqual,
    MTLCompareFunctionGreaterEqual,
    MTLCompareFunctionAlways,
}

impl MTLCompareFunction {
    /// The number by which the runtime knows this value.
    pub open spec fn code(self) -> usize {
        match self {
            MTLCompareFunction::MTLCompareFunctionNever => 0,
            MTLCompareFunction::MTLCompareFunctionLess => 1,
            MTLCompareFunction::MTLCompareFunctionEqual => 2,
            MTLCompareFunction::MTLCompareFunctionLessEqual => 3,
            MTLCompareFunction::MTLCompareFunctionGreater => 4,
            MTLCompareFunction::MTLCompareFunctionNotEqual => 5,
            MTLCompareFunction::MTLCompareFunctionGreaterEqual => 6,
            MTLCompareFunction::MTLCompareFunctionAlways => 7,
        }
    }

    /// The number by which the runtime knows this value.
    pub fn value(&self) -> (number: usize)
        ensures
            number == self.code(),
    {
        match self {
            MTLCompareFunction::MTLCompareFunctionNever => 0,
            MTLCompareFunction::MTLCompareFunctionLess => 1,
            MTLCompareFunction::MTLCompareFunctionEqual => 2,
            MTLCompareFunction::MTLCompareFunctionLessEqual => 3,
            MTLCompareFunction::MTLCompareFunctionGreater => 4,
            MTLCompareFunction::MTLCompareFunctionNotEqual => 5,
            MTLCompareFunction::MTLCompareFunctionGreaterEqual => 6,
            MTLCompareFunction::MTLCompareFunctionAlways => 7,
        }
    }
}

/// How the processor caches a resource.
#[derive(Clone, Copy, Debug, PartialEq, Eq, Structural)]
pub enum MTLCPUCacheMode {
    MTLCPUCacheModeDefaultCache,
    MTLCPUCacheModeWriteCombined,
}

impl MTLCPUCacheMode {
    /// The number by which the runtime knows this value.
    pub open spec fn code(self) -> usize {
        match self {
            MTLCPUCacheMode::MTLCPUCacheModeDefaultCache => 0,
            MTLCPUCacheMode::MTLCPUCacheModeWriteCombined => 1,
        }
    }

    /// The number by which the runtime knows this value.
    pub fn value(&self) -> (number: usize)
        ensures
            number == self.code(),
    {
        match self {
            MTLCPUCacheMode::MTLCPUCacheModeDefaultCache => 0,
            MTLCPUCacheMode::MTLCPUCacheModeWriteCombined => 1,
        }
    }
}

/// Which faces are left out of a drawing.
#[derive(Clone, Copy, Debug, PartialEq, Eq, Structural)]
pub enum MTLCullMode {
    MTLCullModeNone,
    MTLCullModeFront,
    MTLCullModeBack,
}

impl MTLCullMode {
    /// The number by which the runtime knows this value.
    pub open spec fn code(self) -> usize {
        match self {
            MTLCullMode::MTLCullModeNone => 0,
            MTLCullMode::MTLCullModeFront => 1,
            MTLCullMode::MTLCullModeBack => 2,
        }
    }

    /// The number by which the runtime knows this value.
    pub fn value(&self) -> (number: usize)
        ensures
            number == self.code(),
    {
        match self {
            MTLCullMode::MTLCullModeNone => 0,
            MTLCullMode::MTLCullModeFront => 1,
            MTLCullMode::MTLCullModeBack => 2,
        }
    }
}

/// A set of abilities that a device may have.
#[allow(non_camel_case_types)]
#[derive(Clone, Copy, Debug, PartialEq, Eq, Structural)]
pub enum MTLFeatureSet {
    iOS_GPUFamily1_v1,
    iOS_GPUFamily1_v2,
    iOS_GPUFamily1_v3,
    iOS_GPUFamily2_v1,
    iOS_GPUFamily2_v2,
    iOS_GPUFamily2_v3,
    iOS_GPUFamily3_v1,
    iOS_GPUFamily3_v2,
    OSX_GPUFamily1_v1,
    OSX_GPUFamily1_v2,
    OSX_ReadWriteTextureTier2,
    tvOS_GPUFamily1_v1,
    tvOS_GPUFamily1_v2,
}

impl MTLFeatureSet {
    /// The number by which the runtime knows this value.
    pub open spec fn code(self) -> usize {
        match self {
            MTLFeatureSet::iOS_GPUFamily1_v1 => 0,
            MTLFeatureSet::iOS_GPUFamily1_v2 => 2,
            MTLFeatureSet::iOS_GPUFamily1_v3 => 5,
            MTLFeatureSet::iOS_GPUFamily2_v1 => 1,
            MTLFeatureSet::iOS_GPUFamily2_v2 => 3,
            MTLFeatureSet::iOS_GPUFamily2_v3 => 6,
            MTLFeatureSet::iOS_GPUFamily3_v1 => 4,
            MTLFeatureSet::iOS_GPUFamily3_v2 => 7,
            MTLFeatureSet::OSX_GPUFamily1_v1 => 10000,
            MTLFeatureSet::OSX_GPUFamily1_v2 => 10001,
            MTLFeatureSet::OSX_ReadWriteTextureTier2 => 10002,
            MTLFeatureSet::tvOS_GPUFamily1_v1 => 30000,
            MTLFeatureSet::tvOS_GPUFamily1_v2 => 30001,
        }
    }

    /// The number by which the runtime knows this value.
    pub fn value(&self) -> (number: usize)
        ensures
            number == self.code(),
    {
        match self {
            MTLFeatureSet::iOS_GPUFamily1_v1 => 0,
            MTLFeatureSet::iOS_GPUFamily1_v2 => 2,
            MTLFeatureSet::iOS_GPUFamily1_v3 => 5,
            MTLFeatureSet::iOS_GPUFamily2_v1 => 1,
            MTLFeatureSet::iOS_GPUFamily2_v2 => 3,
            MTLFeatureSet::iOS_GPUFamily2_v3 => 6,
            MTLFeatureSet::iOS_GPUFamily3_v1 => 4,
            MTLFeatureSet::iOS_GPUFamily3_v2 => 7,
            MTLFeatureSet::OSX_GPUFamily1_v1 => 10000,
            MTLFeatureSet::OSX_GPUFamily1_v2 => 10001,
            MTLFeatureSet::OSX_ReadWriteTextureTier2 => 10002,
            MTLFeatureSet::tvOS_GPUFamily1_v1 => 30000,
            MTLFeatureSet::tvOS_GPUFamily1_v2 => 30001,
        }
    }
}

/// How wide an index into the vertices is.
#[derive(Clone, Copy, Debug, PartialEq, Eq, Structural)]
pub enum MTLIndexType {
    MTLIndexTypeUInt16,
    MTLIndexTypeUInt32,
}

impl MTLIndexType {
    /// The number by which the runtime knows this value.
    pub open spec fn code(self) -> usize {
        match self {
            MTLIndexType::MTLIndexTypeUInt16 => 0,
            MTLIndexType::MTLIndexTypeUInt32 => 1,
        }
    }

    /// The number by which the runtime knows this value.
    pub fn value(&self) -> (number: usize)
        ensures
            number == self.code(),
    {
        match self {
            MTLIndexType::MTLIndexTypeUInt16 => 0,
            MTLIndexType::MTLIndexTypeUInt32 => 1,
        }
    }
}

/// What shape the vertices of a drawing make.
#[derive(Clone, Copy, Debug, PartialEq, Eq, Structural)]
pub enum MTLPrimitiveType {
    MTLPrimitiveTypePoint,
    MTLPrimitiveTypeLine,
    MTLPrimitiveTypeLineStrip,
    MTLPrimitiveTypeTriangle,
    MTLPrimitiveTypeTriangleStrip,
}

impl MTLPrimitiveType {
    /// The number by which the runtime knows this value.
    pub open spec fn code(self) -> usize {
        match self {
            MTLPrimitiveType::MTLPrimitiveTypePoint => 0,
            MTLPrimitiveType::MTLPrimitiveTypeLine => 1,
            MTLPrimitiveType::MTLPrimitiveTypeLineStrip => 2,
            MTLPrimitiveType::MTLPrimitiveTypeTriangle => 3,
            MTLPrimitiveType::MTLPrimitiveTypeTriangleStrip => 4,
        }
    }

    /// The number by which the runtime knows this value.
    pub fn value(&self) -> (number: usize)
        ensures
            number == self.code(),
    {
        match self {
            MTLPrimitiveType::MTLPrimitiveTypePoint => 0,
            MTLPrimitiveType::MTLPrimitiveTypeLine => 1,
            MTLPrimitiveType::MTLPrimitiveTypeLineStrip => 2,
            MTLPrimitiveType::MTLPrimitiveTypeTriangle => 3,
            MTLPrimitiveType::MTLPrimitiveTypeTriangleStrip => 4,
        }
    }
}

/// Where a resource is kept and who can reach it.
#[derive(Clone, Copy, Debug, PartialEq, Eq, Structural)]
pub enum MTLStorageMode {
    MTLStorageModeShared,
    MTLStorageModeManaged,
    MTLStorageModePrivate,
}

impl MTLStorageMode {
    /// The number by which the runtime knows this value.
    pub open spec fn code(self) -> usize {
        match self {
            MTLStorageMode::MTLStorageModeShared => 0,
            MTLStorageMode::MTLStorageModeManaged => 1,
            MTLStorageMode::MTLStorageModePrivate => 2,
        }
    }

    /// The number by which the runtime knows this value.
    pub fn value(&self) -> (number: usize)
        ensures
            number == self.code(),
    {
        match self {
            MTLStorageMode::MTLStorageModeShared => 0,
            MTLStorageMode::MTLStorageModeManaged => 1,
            MTLStorageMode::MTLStorageModePrivate => 2,
        }
    }
}

/// In which sense the vertices of a front face run.
#[derive(Clone, Copy, Debug, PartialEq, Eq, Structural)]
pub enum MTLWinding {
    MTLWindingClockwise,
    MTLWindingCounterClockwise,
}

impl MTLWinding {
    /// The number by which the runtime knows this value.
    pub open spec fn code(self) -> usize {
        match self {
            MTLWinding::MTLWindingClockwise => 0,
            MTLWinding::MTLWindingCounterClockwise => 1,
        }
    }

    /// The number by which the runtime knows this value.
    pub fn value(&self) -> (number: usize)
        ensures
            number == self.code(),
    {
        match self {
            MTLWinding::MTLWindingClockwise => 0,
            MTLWinding::MTLWindingCounterClockwise => 1,
        }
    }
}

} // verus!
