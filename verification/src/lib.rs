//! A builder/validator layer that assembles immutable pipeline-state
//! descriptors for a graphics device.
//!
//! A user populates a graphics or compute builder, the builder composes its
//! sub-descriptors (stream output, blend, rasterizer, depth-stencil, input
//! layout) into one flat descriptor with strict field ordering and
//! default-filling, and hands the descriptor to the device's creation
//! capability. Success yields an immutable pipeline-state handle, which can
//! later be queried for its serializable cache blob; that blob can seed a
//! future builder's cache hint.
//!
//! The device itself is an external collaborator behind the [`device::Device`]
//! trait; descriptor assembly, default-filling, optional-field elision and the
//! cache round-trip are this layer's own, verified logic.

use vstd::prelude::*;

pub mod error;
pub mod format;
pub mod blend;
pub mod ds;
pub mod ia;
pub mod rasterizer;
pub mod so;
pub mod rootsig;
pub mod shader;
pub mod device;
pub mod graphics;
pub mod compute;

pub use compute::ComputePipelineStateBuilder;
pub use compute::ComputePipelineStateDesc;
pub use graphics::GraphicsPipelineStateBuilder;
pub use graphics::GraphicsPipelineStateDesc;

verus! {

/// A multisampling description, copied verbatim into the flat descriptor.
#[derive(Clone, Copy, Debug, PartialEq, Eq, Structural)]
pub struct SampleDesc {
    /// Number of samples per pixel.
    pub count: u32,
    /// Device-specific quality level.
    pub quality: u32,
}

impl Default for SampleDesc {
    /// One sample per pixel at quality level zero.
    fn default() -> (r: Self)
        ensures
            r.count == 1,
            r.quality == 0,
    {
        SampleDesc { count: 1, quality: 0 }
    }
}

/// Pipeline-state creation flags: a bit set of {none, tool debug}.
#[allow(non_camel_case_types)]
#[derive(Clone, Copy, Debug, PartialEq, Eq, Structural)]
pub enum PipelineStateFlags {
    /// No flag set.
    NONE,
    /// Mark the pipeline state for debugging tools.
    TOOL_DEBUG,
}

impl PipelineStateFlags {
    /// The native bit pattern of the flag set.
    pub open spec fn spec_bits(self) -> u32 {
        match self {
            PipelineStateFlags::NONE => 0,
            PipelineStateFlags::TOOL_DEBUG => 1,
        }
    }

    /// The native bit pattern of the flag set, as the flat descriptor holds it.
    pub fn bits(&self) -> (r: u32)
        ensures
            r == self.spec_bits(),
    {
        match self {
            PipelineStateFlags::NONE => 0,
            PipelineStateFlags::TOOL_DEBUG => 1,
        }
    }
}

impl Default for PipelineStateFlags {
    /// No flag set.
    fn default() -> (r: Self)
        ensures
            r == PipelineStateFlags::NONE,
    {
        PipelineStateFlags::NONE
    }
}

/// Comparison options, specifying under which circumstance a depth-stencil or
/// sampler comparison passes. A closed enumeration.
#[allow(non_camel_case_types)]
#[derive(Clone, Copy, Debug, PartialEq, Eq, Structural)]
pub enum ComparisonFunc {
    /// The comparison never passes.
    NEVER,
    /// Passes when the source is less than the destination.
    LESS,
    /// Passes when the source equals the destination.
    EQUAL,
    /// Passes when the source is less than or equal to the destination.
    LESS_EQUAL,
    /// Passes when the source is greater than the destination.
    GREATER,
    /// Passes when the source differs from the destination.
    NOT_EQUAL,
    /// Passes when the source is greater than or equal to the destination.
    GREATER_EQUAL,
    /// The comparison always passes.
    ALWAYS,
}

impl ComparisonFunc {
    /// The native integer code of the comparison option.
    pub open spec fn spec_u32(self) -> u32 {
        match self {
            ComparisonFunc::NEVER => 1,
            ComparisonFunc::LESS => 2,
            ComparisonFunc::EQUAL => 3,
            ComparisonFunc::LESS_EQUAL => 4,
            ComparisonFunc::GREATER => 5,
            ComparisonFunc::NOT_EQUAL => 6,
            ComparisonFunc::GREATER_EQUAL => 7,
            ComparisonFunc::ALWAYS => 8,
        }
    }

    /// The native integer code, as the flat descriptor holds it.
    pub fn as_u32(&self) -> (r: u32)
        ensures
            r == self.spec_u32(),
    {
        match self {
            ComparisonFunc::NEVER => 1,
            ComparisonFunc::LESS => 2,
            ComparisonFunc::EQUAL => 3,
            ComparisonFunc::LESS_EQUAL => 4,
            ComparisonFunc::GREATER => 5,
            ComparisonFunc::NOT_EQUAL => 6,
            ComparisonFunc::GREATER_EQUAL => 7,
            ComparisonFunc::ALWAYS => 8,
        }
    }
}

/// The cached-pipeline-state fragment of a flat descriptor: the cache blob's
/// bytes, verbatim. An empty fragment means "no cache hint".
#[derive(Clone, Debug)]
pub struct CachedPipelineState {
    /// The blob's bytes; the native layout's size field is their count.
    pub data: Vec<u8>,
}

/// A pipeline-state object: an immutable, device-resident resource created
/// from one flat descriptor.
pub trait PipelineState {
    /// The underlying device resource reference.
    fn as_raw_ptr(&self) -> &device::PipelineHandle;
}

/// A graphics pipeline-state object. Immutable once created; only re-building
/// produces a new one.
#[derive(Clone, Debug)]
pub struct GraphicsPipelineState {
    /// The device resource the state wraps.
    pub handle: device::PipelineHandle,
}

impl PipelineState for GraphicsPipelineState {
    fn as_raw_ptr(&self) -> &device::PipelineHandle {
        &self.handle
    }
}

/// A graphics pipeline state's cached blob.
#[derive(Clone, Debug)]
pub struct GraphicsPipelineStateCache {
    /// The blob's opaque bytes, exactly as the device handed them out.
    pub blob: Vec<u8>,
}

/// A compute pipeline-state object. Immutable once created; only re-building
/// produces a new one.
#[derive(Clone, Debug)]
pub struct ComputePipelineState {
    /// The device resource the state wraps.
    pub handle: device::PipelineHandle,
}

impl PipelineState for ComputePipelineState {
    fn as_raw_ptr(&self) -> &device::PipelineHandle {
        &self.handle
    }
}

/// A compute pipeline state's cached blob.
#[derive(Clone, Debug)]
pub struct ComputePipelineStateCache {
    /// The blob's opaque bytes, exactly as the device handed them out.
    pub blob: Vec<u8>,
}

impl GraphicsPipelineStateCache {
    /// Wraps an externally supplied or previously extracted blob.
    pub fn from_bytes(blob: Vec<u8>) -> (r: Self)
        ensures
            r.blob@ == blob@,
    {
        GraphicsPipelineStateCache { blob }
    }

    /// The blob's contribution to a flat descriptor: its bytes, verbatim,
    /// with no reinterpretation or modification.
    pub fn to_ffi_cache(&self) -> (r: CachedPipelineState)
        ensures
            r.data@ == self.blob@,
    {
        CachedPipelineState { data: shader::copy_bytes(&self.blob) }
    }
}

impl ComputePipelineStateCache {
    /// Wraps an externally supplied or previously extracted blob.
    pub fn from_bytes(blob: Vec<u8>) -> (r: Self)
        ensures
            r.blob@ == blob@,
    {
        ComputePipelineStateCache { blob }
    }

    /// The blob's contribution to a flat descriptor: its bytes, verbatim,
    /// with no reinterpretation or modification.
    pub fn to_ffi_cache(&self) -> (r: CachedPipelineState)
        ensures
            r.data@ == self.blob@,
    {
        CachedPipelineState { data: shader::copy_bytes(&self.blob) }
    }
}

impl GraphicsPipelineState {
    /// Queries the resource for its cached blob.
    ///
    /// Succeeds exactly when the resource reports success, and then returns
    /// the resource's blob bytes unmodified — the returned blob's length
    /// always agrees with the bytes the resource handed out. On failure the
    /// device's status code is surfaced as [`error::WinError::CacheRetrievalFailed`],
    /// a non-fatal outcome the caller may ignore.
    pub fn cached(&self) -> (r: Result<GraphicsPipelineStateCache, error::WinError>)
        ensures
            error::succeeded(self.handle.cache_status) ==> (r matches Ok(c) && c.blob@
                == self.handle.cache_bytes@),
            !error::succeeded(self.handle.cache_status) ==> (r matches Err(e) && e
                == error::WinError::CacheRetrievalFailed(self.handle.cache_status)),
    {
        match self.handle.get_cached_blob() {
            Ok(blob) => Ok(GraphicsPipelineStateCache { blob }),
            Err(e) => Err(e),
        }
    }
}

impl ComputePipelineState {
    /// Queries the resource for its cached blob.
    ///
    /// Succeeds exactly when the resource reports success, and then returns
    /// the resource's blob bytes unmodified — the returned blob's length
    /// always agrees with the bytes the resource handed out. On failure the
    /// device's status code is surfaced as [`error::WinError::CacheRetrievalFailed`],
    /// a non-fatal outcome the caller may ignore.
    pub fn cached(&self) -> (r: Result<ComputePipelineStateCache, error::WinError>)
        ensures
            error::succeeded(self.handle.cache_status) ==> (r matches Ok(c) && c.blob@
                == self.handle.cache_bytes@),
            !error::succeeded(self.handle.cache_status) ==> (r matches Err(e) && e
                == error::WinError::CacheRetrievalFailed(self.handle.cache_status)),
    {
        match self.handle.get_cached_blob() {
            Ok(blob) => Ok(ComputePipelineStateCache { blob }),
            Err(e) => Err(e),
        }
    }
}

} // verus!
