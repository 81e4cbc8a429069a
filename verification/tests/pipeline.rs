//! End-to-end scenarios: builders, descriptor assembly, device interaction,
//! error mapping and the cache round-trip, driven through a scripted device.

use pipeline_state::ComputePipelineStateBuilder;
use pipeline_state::ComputePipelineStateDesc;
use pipeline_state::GraphicsPipelineStateBuilder;
use pipeline_state::GraphicsPipelineStateDesc;
use pipeline_state::PipelineState;
use pipeline_state::PipelineStateFlags;
use pipeline_state::device::Device;
use pipeline_state::device::PipelineHandle;
use pipeline_state::error::WinError;
use pipeline_state::format::DXGI_FORMAT_D24_UNORM_S8_UINT;
use pipeline_state::format::DXGI_FORMAT_R8G8B8A8_UNORM;
use pipeline_state::format::DXGI_FORMAT_UNKNOWN;
use pipeline_state::ia::PrimitiveTopologyType;
use pipeline_state::ia::StripCutValue;
use pipeline_state::rootsig::RootSig;
use pipeline_state::shader::CsShaderBytecode;
use pipeline_state::shader::GsShaderBytecode;
use pipeline_state::shader::PsShaderBytecode;
use pipeline_state::shader::VsShaderBytecode;

/// A status code in the failure range, as a driver-level rejection reports it.
const E_INVALIDARG: i32 = -2147024809;

/// A scripted device: creation succeeds unless told otherwise, every created
/// resource answers the cached-blob query with the scripted status and bytes,
/// and the device records what the last creation call received.
struct StubDevice {
    cache_status: i32,
    cache_bytes: Vec<u8>,
    reject_graphics: Option<i32>,
    reject_empty_cs: bool,
    seen_graphics: Option<GraphicsPipelineStateDesc>,
    seen_compute: Option<ComputePipelineStateDesc>,
}

impl StubDevice {
    fn new(cache_status: i32, cache_bytes: Vec<u8>) -> Self {
        StubDevice {
            cache_status,
            cache_bytes,
            reject_graphics: None,
            reject_empty_cs: false,
            seen_graphics: None,
            seen_compute: None,
        }
    }

    fn handle(&self) -> PipelineHandle {
        PipelineHandle { cache_status: self.cache_status, cache_bytes: self.cache_bytes.clone() }
    }
}

impl Device for StubDevice {
    fn create_graphics_pipeline_state(
        &mut self,
        desc: &GraphicsPipelineStateDesc,
    ) -> Result<PipelineHandle, i32> {
        self.seen_graphics = Some(desc.clone());
        match self.reject_graphics {
            Some(status) => Err(status),
            None => Ok(self.handle()),
        }
    }

    fn create_compute_pipeline_state(
        &mut self,
        desc: &ComputePipelineStateDesc,
    ) -> Result<PipelineHandle, i32> {
        self.seen_compute = Some(desc.clone());
        if self.reject_empty_cs && desc.cs.is_empty() {
            return Err(E_INVALIDARG);
        }
        Ok(self.handle())
    }
}

#[test]
fn default_graphics_builder_fields() {
    let rs = RootSig::new(41);
    let b = GraphicsPipelineStateBuilder::new(&rs);
    assert_eq!(b.rootsig.handle, 41);
    assert!(b.vs.is_none());
    assert!(b.ps.is_none());
    assert!(b.ds.is_none());
    assert!(b.hs.is_none());
    assert!(b.gs.is_none());
    assert_eq!(b.sample_mask, u32::MAX);
    assert_eq!(b.strip_cut_value, StripCutValue::DISABLED);
    assert_eq!(b.primitive_topology_type, PrimitiveTopologyType::TRIANGLE);
    assert_eq!(b.num_render_targets, 1);
    assert_eq!(b.rtv_formats, [DXGI_FORMAT_UNKNOWN; 8]);
    assert_eq!(b.dsv_format, DXGI_FORMAT_D24_UNORM_S8_UINT);
    assert_eq!(b.sample_desc.count, 1);
    assert_eq!(b.sample_desc.quality, 0);
    assert_eq!(b.node_mask, 0);
    assert!(b.cache.is_none());
    assert_eq!(b.flags, PipelineStateFlags::NONE);
    assert!(b.input_layout.elements.is_empty());
    assert!(b.stream_output.so_declarations.is_empty());
    assert!(b.stream_output.buffer_strides.is_empty());
    assert_eq!(b.stream_output.rasterized_stream, 0);
}

#[test]
fn default_build_attempts_creation_with_documented_values() {
    let rs = RootSig::new(1);
    let mut b = GraphicsPipelineStateBuilder::new(&rs);
    b.vs = Some(VsShaderBytecode::new(vec![1u8, 2, 3]));
    b.ps = Some(PsShaderBytecode::new(vec![4u8, 5]));
    let mut dev = StubDevice::new(0, Vec::new());
    let built = b.build(&mut dev);
    assert!(built.is_ok());
    let seen = dev.seen_graphics.expect("the device saw a creation call");
    assert_eq!(seen.num_render_targets, 1);
    assert_eq!(seen.sample_mask, u32::MAX);
    assert_eq!(seen.primitive_topology_type, 3);
    assert_eq!(seen.flags, 0);
    assert_eq!(seen.vs, vec![1u8, 2, 3]);
    assert_eq!(seen.ps, vec![4u8, 5]);
    assert_eq!(seen.root_signature, 1);
}

#[test]
fn render_target_boundary_accepts_eight() {
    let rs = RootSig::new(2);
    let mut b = GraphicsPipelineStateBuilder::new(&rs);
    b.num_render_targets = 8;
    b.rtv_formats = [DXGI_FORMAT_R8G8B8A8_UNORM; 8];
    let d = b.descriptor();
    assert_eq!(d.num_render_targets, 8);
    assert_eq!(d.rtv_formats, [DXGI_FORMAT_R8G8B8A8_UNORM; 8]);
    assert_eq!(d.rtv_formats.len(), 8);
}

#[test]
fn absent_stages_contribute_empty_fields() {
    let rs = RootSig::new(3);
    let b = GraphicsPipelineStateBuilder::new(&rs);
    let d = b.descriptor();
    assert!(d.vs.is_empty());
    assert!(d.ps.is_empty());
    assert!(d.ds.is_empty());
    assert!(d.hs.is_empty());
    assert!(d.gs.is_empty());

    let mut b2 = GraphicsPipelineStateBuilder::new(&rs);
    b2.vs = Some(VsShaderBytecode::new(vec![9u8]));
    b2.gs = Some(GsShaderBytecode::new(vec![8u8, 7]));
    let d2 = b2.descriptor();
    assert_eq!(d2.vs, vec![9u8]);
    assert_eq!(d2.gs, vec![8u8, 7]);
    assert!(d2.ps.is_empty());
    assert!(d2.ds.is_empty());
    assert!(d2.hs.is_empty());
}

#[test]
fn unset_stage_leaves_no_stale_bytes() {
    let rs = RootSig::new(4);
    let mut b = GraphicsPipelineStateBuilder::new(&rs);
    b.vs = Some(VsShaderBytecode::new(vec![1u8, 1, 1]));
    let first = b.descriptor();
    assert_eq!(first.vs, vec![1u8, 1, 1]);
    b.vs = None;
    let second = b.descriptor();
    assert!(second.vs.is_empty());
}

#[test]
fn vertex_pixel_scenario_yields_graphics_state() {
    let rs = RootSig::new(5);
    let mut b = GraphicsPipelineStateBuilder::new(&rs);
    b.vs = Some(VsShaderBytecode::new(vec![0u8, 1, 2, 3]));
    b.ps = Some(PsShaderBytecode::new(vec![4u8, 5, 6]));
    b.num_render_targets = 1;
    b.rtv_formats[0] = DXGI_FORMAT_R8G8B8A8_UNORM;

    // Before any device-side compilation caching, the resource reports that
    // no cached blob is available.
    let mut dev = StubDevice::new(E_INVALIDARG, Vec::new());
    let state = b.build(&mut dev).expect("creation succeeds");
    assert_eq!(state.as_raw_ptr().cache_status, E_INVALIDARG);
    match state.cached() {
        Err(WinError::CacheRetrievalFailed(status)) => assert_eq!(status, E_INVALIDARG),
        other => panic!("expected a cache-retrieval failure, got {:?}", other),
    }

    // A device that answers the query with an empty blob yields a
    // zero-length blob, not a failure.
    let mut dev2 = StubDevice::new(0, Vec::new());
    let state2 = b.build(&mut dev2).expect("creation succeeds");
    let blob = state2.cached().expect("an empty blob is a success");
    assert!(blob.blob.is_empty());
}

#[test]
fn cached_blob_length_is_consistent() {
    let rs = RootSig::new(6);
    let mut b = GraphicsPipelineStateBuilder::new(&rs);
    b.vs = Some(VsShaderBytecode::new(vec![1u8]));
    let mut dev = StubDevice::new(0, vec![5u8, 6, 7]);
    let state = b.build(&mut dev).expect("creation succeeds");
    let blob = state.cached().expect("a blob is available");
    assert_eq!(blob.blob, vec![5u8, 6, 7]);
    assert_eq!(blob.blob.len(), 3);
}

#[test]
fn graphics_creation_failure_maps_to_creation_failed() {
    let rs = RootSig::new(7);
    let b = GraphicsPipelineStateBuilder::new(&rs);
    let mut dev = StubDevice::new(0, Vec::new());
    dev.reject_graphics = Some(E_INVALIDARG);
    match b.build(&mut dev) {
        Err(WinError::CreationFailed(status)) => {
            assert_eq!(status, E_INVALIDARG);
            assert_eq!(WinError::CreationFailed(status).status(), E_INVALIDARG);
        }
        other => panic!("expected a creation failure, got {:?}", other),
    }
}

#[test]
fn cache_round_trip_feeds_blob_back_verbatim() {
    let rs = RootSig::new(8);
    let mut b = GraphicsPipelineStateBuilder::new(&rs);
    b.vs = Some(VsShaderBytecode::new(vec![1u8, 2]));
    b.ps = Some(PsShaderBytecode::new(vec![3u8]));

    let mut dev = StubDevice::new(0, vec![1u8, 2, 3]);
    let state = b.build(&mut dev).expect("creation succeeds");
    let blob = state.cached().expect("a blob is available");
    assert_eq!(blob.blob, vec![1u8, 2, 3]);

    let d1 = b.descriptor();
    let mut b2 = b.clone();
    b2.cache = Some(blob);
    let d2 = b2.descriptor();

    // The blob's bytes pass through to the new descriptor unmodified...
    assert_eq!(d2.cached_pso.data, vec![1u8, 2, 3]);
    // ...and every other field agrees with the first descriptor.
    assert_eq!(d1.root_signature, d2.root_signature);
    assert_eq!(d1.vs, d2.vs);
    assert_eq!(d1.ps, d2.ps);
    assert_eq!(d1.ds, d2.ds);
    assert_eq!(d1.hs, d2.hs);
    assert_eq!(d1.gs, d2.gs);
    assert_eq!(d1.sample_mask, d2.sample_mask);
    assert_eq!(d1.ib_strip_cut_value, d2.ib_strip_cut_value);
    assert_eq!(d1.primitive_topology_type, d2.primitive_topology_type);
    assert_eq!(d1.num_render_targets, d2.num_render_targets);
    assert_eq!(d1.rtv_formats, d2.rtv_formats);
    assert_eq!(d1.dsv_format, d2.dsv_format);
    assert_eq!(d1.node_mask, d2.node_mask);
    assert_eq!(d1.flags, d2.flags);
    assert!(d1.cached_pso.data.is_empty());

    // Re-building with the seeded cache succeeds again.
    let state2 = b2.build(&mut dev).expect("creation succeeds again");
    let seen = dev.seen_graphics.expect("the device saw the second call");
    assert_eq!(seen.cached_pso.data, vec![1u8, 2, 3]);
    assert_eq!(state2.as_raw_ptr().cache_status, 0);
}

#[test]
fn default_compute_builder_fields() {
    let rs = RootSig::new(9);
    let b = ComputePipelineStateBuilder::new(&rs);
    assert_eq!(b.rootsig.handle, 9);
    assert!(b.cs.is_none());
    assert_eq!(b.node_mask, 0);
    assert!(b.cache.is_none());
    assert_eq!(b.flags, PipelineStateFlags::NONE);
}

#[test]
fn compute_without_shader_is_rejected_as_creation_failed() {
    let rs = RootSig::new(10);
    let b = ComputePipelineStateBuilder::new(&rs);
    let mut dev = StubDevice::new(0, Vec::new());
    dev.reject_empty_cs = true;
    match b.build(&mut dev) {
        Err(WinError::CreationFailed(status)) => assert_eq!(status, E_INVALIDARG),
        other => panic!("expected a creation failure, got {:?}", other),
    }
    // The device received a zero-length compute-shader field, not garbage.
    let seen = dev.seen_compute.expect("the device saw the call");
    assert!(seen.cs.is_empty());
    assert_eq!(seen.root_signature, 10);
}

#[test]
fn compute_build_and_cache_round_trip() {
    let rs = RootSig::new(11);
    let mut b = ComputePipelineStateBuilder::new(&rs);
    b.cs = Some(CsShaderBytecode::new(vec![7u8, 7]));
    let mut dev = StubDevice::new(0, vec![9u8, 9, 9]);
    let state = b.build(&mut dev).expect("creation succeeds");
    assert_eq!(state.as_raw_ptr().cache_bytes, vec![9u8, 9, 9]);
    let blob = state.cached().expect("a blob is available");
    assert_eq!(blob.blob, vec![9u8, 9, 9]);

    let mut b2 = b.clone();
    b2.cache = Some(blob);
    let d2 = b2.descriptor();
    assert_eq!(d2.cached_pso.data, vec![9u8, 9, 9]);
    assert_eq!(d2.cs, vec![7u8, 7]);

    let d1 = b.descriptor();
    assert!(d1.cached_pso.data.is_empty());
    assert_eq!(d1.cs, d2.cs);
    assert_eq!(d1.root_signature, d2.root_signature);
    assert_eq!(d1.node_mask, d2.node_mask);
    assert_eq!(d1.flags, d2.flags);
}

#[test]
fn builder_is_reusable_across_builds() {
    let rs = RootSig::new(12);
    let mut b = GraphicsPipelineStateBuilder::new(&rs);
    b.vs = Some(VsShaderBytecode::new(vec![1u8]));
    let mut dev = StubDevice::new(0, Vec::new());
    let first = b.build(&mut dev);
    assert!(first.is_ok());
    b.num_render_targets = 2;
    b.rtv_formats[1] = DXGI_FORMAT_R8G8B8A8_UNORM;
    let second = b.build(&mut dev);
    assert!(second.is_ok());
    let seen = dev.seen_graphics.expect("the device saw the second call");
    assert_eq!(seen.num_render_targets, 2);
    assert_eq!(seen.rtv_formats[1], DXGI_FORMAT_R8G8B8A8_UNORM);
    assert_eq!(seen.rtv_formats[0], DXGI_FORMAT_UNKNOWN);
}
