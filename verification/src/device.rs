//! The device-creation capability, an external collaborator.
//!
//! The device consumes a fully assembled flat descriptor and either creates a
//! pipeline-state resource or reports a status code. Its validation policy is
//! entirely its own: this layer performs no semantic pre-validation and maps
//! every rejection to a typed error. Implementations supply the transport to
//! the real object-creation machinery.

use vstd::prelude::*;
use crate::error::StatusCode;
use crate::graphics::GraphicsPipelineStateDesc;
use crate::compute::ComputePipelineStateDesc;

verus! {

/// The device-owned pipeline-state resource reference.
///
/// The resource itself is opaque; the only thing this layer ever reads from
/// it is its answer to the cached-blob query, so the handle carries that
/// answer as plain values. The handle owns exactly one reference to the
/// external resource, which cloning shares and dropping the last owner
/// releases.
#[derive(Clone, Debug)]
pub struct PipelineHandle {
    /// Status code the resource reports when asked for its cached blob;
    /// non-negative means the blob is available.
    pub cache_status: StatusCode,
    /// The cached binary blob the resource hands out on success.
    pub cache_bytes: Vec<u8>,
}

impl PipelineHandle {
    /// The cache-query capability of a created resource, shared by the
    /// graphics and compute pipeline states.
    ///
    /// Succeeds with the resource's blob bytes, unmodified, exactly when the
    /// resource reports success; otherwise surfaces the resource's status
    /// code as [`crate::error::WinError::CacheRetrievalFailed`].
    pub fn get_cached_blob(&self) -> (r: Result<Vec<u8>, crate::error::WinError>)
        ensures
            crate::error::succeeded(self.cache_status) ==> (r matches Ok(b) && b@
                == self.cache_bytes@),
            !crate::error::succeeded(self.cache_status) ==> (r matches Err(e) && e
                == crate::error::WinError::CacheRetrievalFailed(self.cache_status)),
    {
        if self.cache_status >= 0 {
            Ok(crate::shader::copy_bytes(&self.cache_bytes))
        } else {
            Err(crate::error::WinError::CacheRetrievalFailed(self.cache_status))
        }
    }
}

/// The opaque pipeline-state creation capability of a graphics device.
///
/// `Ok` carries a valid resource reference whose ownership passes to the
/// caller; `Err` carries the device's status code and no resource was
/// created. Nothing is assumed about which descriptors a device accepts:
/// callers state what holds whatever comes back.
pub trait Device {
    /// Creates a graphics pipeline state from an assembled flat descriptor.
    fn create_graphics_pipeline_state(&mut self, desc: &GraphicsPipelineStateDesc) -> Result<
        PipelineHandle,
        StatusCode,
    >;

    /// Creates a compute pipeline state from an assembled flat descriptor.
    fn create_compute_pipeline_state(&mut self, desc: &ComputePipelineStateDesc) -> Result<
        PipelineHandle,
        StatusCode,
    >;
}

} // verus!
