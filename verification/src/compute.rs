//! The compute pipeline-state builder and its flat descriptor.
//!
//! The compute surface is the graphics builder's reduced counterpart: a root
//! signature, a single compute-shader slot, a node mask, an optional cache
//! hint and flags. Assembly and error mapping follow the same contract shape.

use vstd::prelude::*;
use crate::CachedPipelineState;
use crate::ComputePipelineState;
use crate::ComputePipelineStateCache;
use crate::PipelineStateFlags;
use crate::device::Device;
use crate::device::PipelineHandle;
use crate::error::StatusCode;
use crate::error::WinError;
use crate::rootsig::RootSig;
use crate::shader::CsShaderBytecode;

verus! {

/// The compute pipeline-state configuration. All fields are public and may be
/// set directly; `new` fills in the documented defaults.
#[derive(Clone, Debug)]
pub struct ComputePipelineStateBuilder<'a> {
    /// The root signature the state is compiled against; externally owned and
    /// borrowed for the builder's whole lifetime.
    pub rootsig: &'a RootSig,
    /// Compute-shader stage; absent contributes an empty bytecode field, which
    /// the device rejects as a missing required stage.
    pub cs: Option<CsShaderBytecode>,
    /// Node mask selecting the device node the state is built for.
    pub node_mask: u32,
    /// Optional cache hint from a previous build; absent contributes an empty
    /// cached-state fragment.
    pub cache: Option<ComputePipelineStateCache>,
    /// Creation flags.
    pub flags: PipelineStateFlags,
}

/// The flat compute pipeline-state descriptor, in native field order. The
/// pointer-and-length pairs of the native layout are carried as the sequences
/// they point at.
#[derive(Clone, Debug)]
pub struct ComputePipelineStateDesc {
    /// The root-signature handle value, verbatim.
    pub root_signature: u64,
    /// Compute-shader bytecode; empty when the stage is absent.
    pub cs: Vec<u8>,
    /// Node mask.
    pub node_mask: u32,
    /// Cached-state fragment; empty when no hint was given.
    pub cached_pso: CachedPipelineState,
    /// Native bit pattern of the creation flags.
    pub flags: u32,
}

/// Holds exactly when `d` is the flat descriptor assembled from the
/// configuration `b`: every field of `d` is pinned to the corresponding
/// configuration field.
pub open spec fn compute_desc_matches(
    b: ComputePipelineStateBuilder,
    d: ComputePipelineStateDesc,
) -> bool {
    &&& d.root_signature == b.rootsig.handle
    &&& (match b.cs {
        Some(s) => d.cs@ == s.bytes@,
        None => d.cs@ == Seq::<u8>::empty(),
    })
    &&& d.node_mask == b.node_mask
    &&& (match b.cache {
        Some(c) => d.cached_pso.data@ == c.blob@,
        None => d.cached_pso.data@ == Seq::<u8>::empty(),
    })
    &&& d.flags == b.flags.spec_bits()
}

/// Maps the device's creation outcome to the typed result: a returned
/// resource is wrapped unchanged, a status code becomes
/// [`WinError::CreationFailed`] carrying that code — if and only if the
/// device failed.
pub fn compute_creation_result(outcome: Result<PipelineHandle, StatusCode>) -> (r: Result<
    ComputePipelineState,
    WinError,
>)
    ensures
        outcome matches Ok(h) ==> (r matches Ok(ps) && ps.handle == h),
        outcome matches Err(s) ==> (r matches Err(e) && e == WinError::CreationFailed(s)),
{
    match outcome {
        Ok(h) => Ok(ComputePipelineState { handle: h }),
        Err(s) => Err(WinError::CreationFailed(s)),
    }
}

impl<'a> ComputePipelineStateBuilder<'a> {
    /// A fresh configuration with the documented defaults: no compute shader,
    /// node zero, no cache hint and no flags.
    pub fn new(root_signature: &'a RootSig) -> (r: Self)
        ensures
            r.rootsig == root_signature,
            r.cs is None,
            r.node_mask == 0,
            r.cache is None,
            r.flags == PipelineStateFlags::NONE,
    {
        ComputePipelineStateBuilder {
            rootsig: root_signature,
            cs: None,
            node_mask: 0,
            cache: None,
            flags: PipelineStateFlags::NONE,
        }
    }

    /// Assembles the flat descriptor from the current configuration. A
    /// present compute shader contributes its bytes, an absent one an empty
    /// field; the cache hint, when present, contributes its bytes verbatim.
    pub fn descriptor(&self) -> (r: ComputePipelineStateDesc)
        ensures
            compute_desc_matches(*self, r),
    {
        ComputePipelineStateDesc {
            root_signature: self.rootsig.handle,
            cs: match &self.cs {
                Some(s) => s.to_shader_bytecode(),
                None => Vec::new(),
            },
            node_mask: self.node_mask,
            cached_pso: match &self.cache {
                Some(c) => c.to_ffi_cache(),
                None => CachedPipelineState { data: Vec::new() },
            },
            flags: self.flags.bits(),
        }
    }

    /// Assembles the flat descriptor and invokes the device's creation
    /// capability on it.
    ///
    /// Success wraps the resource the device returned; every failure is the
    /// device's status code mapped to [`WinError::CreationFailed`]. No retry,
    /// no recovery, no cleanup of a half-constructed resource.
    pub fn build<D: Device>(&self, device: &mut D) -> (r: Result<ComputePipelineState, WinError>)
        ensures
            r matches Err(e) ==> e is CreationFailed,
    {
        let desc = self.descriptor();
        compute_creation_result(device.create_compute_pipeline_state(&desc))
    }
}

/// Absent-stage law, compute form: a descriptor assembled from a
/// configuration without a compute shader carries an empty bytecode field —
/// never a stale value.
pub proof fn lemma_absent_compute_stage_empty(
    b: ComputePipelineStateBuilder,
    d: ComputePipelineStateDesc,
)
    requires
        compute_desc_matches(b, d),
    ensures
        b.cs is None ==> d.cs@ == Seq::<u8>::empty(),
{
}

/// Cache round-trip law, compute form: when a second configuration is
/// identical to a first one except that its cache hint is the blob `c`, the
/// descriptor assembled from it carries the blob's bytes verbatim in the
/// cached-state fragment and agrees with the first descriptor on every other
/// field. Whether the device then reuses the cache or falls back to full
/// compilation is its own policy.
pub proof fn lemma_cache_round_trip(
    b1: ComputePipelineStateBuilder,
    b2: ComputePipelineStateBuilder,
    d1: ComputePipelineStateDesc,
    d2: ComputePipelineStateDesc,
    c: ComputePipelineStateCache,
)
    requires
        compute_desc_matches(b1, d1),
        compute_desc_matches(b2, d2),
        b2.cache matches Some(cc) && cc.blob@ == c.blob@,
        b2.rootsig == b1.rootsig,
        b2.cs == b1.cs,
        b2.node_mask == b1.node_mask,
        b2.flags == b1.flags,
    ensures
        d2.cached_pso.data@ == c.blob@,
        d1.root_signature == d2.root_signature,
        d1.cs@ == d2.cs@,
        d1.node_mask == d2.node_mask,
        d1.flags == d2.flags,
{
}

} // verus!
