//! The graphics pipeline-state builder and its flat descriptor.
//!
//! The builder is a configuration struct with public, freely mutable fields.
//! `descriptor` assembles them into one flat descriptor — present shader
//! stages contribute their bytes, absent stages contribute empty fields,
//! sub-descriptors are converted field by field, enumerations become their
//! native integer codes — and `build` hands the descriptor to the device.
//! Assembly adds no semantic validation of its own: invalid combinations are
//! deferred to the device capability.

use vstd::prelude::*;
use crate::CachedPipelineState;
use crate::GraphicsPipelineState;
use crate::GraphicsPipelineStateCache;
use crate::PipelineStateFlags;
use crate::SampleDesc;
use crate::blend;
use crate::device::Device;
use crate::device::PipelineHandle;
use crate::ds;
use crate::error::StatusCode;
use crate::error::WinError;
use crate::format::DXGI_FORMAT_D24_UNORM_S8_UINT;
use crate::format::DXGI_FORMAT_UNKNOWN;
use crate::format::DxgiFormat;
use crate::ia;
use crate::rasterizer;
use crate::rootsig::RootSig;
use crate::shader;
use crate::so;

verus! {

/// The graphics pipeline-state configuration. All fields are public and may
/// be set directly; `new` fills in the documented defaults.
#[derive(Clone, Debug)]
pub struct GraphicsPipelineStateBuilder<'a> {
    /// The root signature the state is compiled against; externally owned and
    /// borrowed for the builder's whole lifetime.
    pub rootsig: &'a RootSig,
    /// Vertex-shader stage; absent contributes an empty bytecode field.
    pub vs: Option<shader::VsShaderBytecode>,
    /// Pixel-shader stage; absent contributes an empty bytecode field.
    pub ps: Option<shader::PsShaderBytecode>,
    /// Domain-shader stage; absent contributes an empty bytecode field.
    pub ds: Option<shader::DsShaderBytecode>,
    /// Hull-shader stage; absent contributes an empty bytecode field.
    pub hs: Option<shader::HsShaderBytecode>,
    /// Geometry-shader stage; absent contributes an empty bytecode field.
    pub gs: Option<shader::GsShaderBytecode>,
    /// Stream-output sub-descriptor.
    pub stream_output: so::DescBuilder,
    /// Blend sub-descriptor.
    pub blend_state: blend::BlendDesc,
    /// Sample mask applied to the blend state.
    pub sample_mask: u32,
    /// Rasterizer sub-descriptor.
    pub rasterizer_state: rasterizer::RasterizerDesc,
    /// Depth-stencil sub-descriptor.
    pub depth_stencil_state: ds::DepthStencilDesc,
    /// Input-layout sub-descriptor.
    pub input_layout: ia::InputLayoutBuilder,
    /// The index value that cuts a primitive strip.
    pub strip_cut_value: ia::StripCutValue,
    /// The kind of primitive the state assembles.
    pub primitive_topology_type: ia::PrimitiveTopologyType,
    /// How many entries of `rtv_formats` are in use; the device validates the
    /// count, assembly copies it verbatim.
    pub num_render_targets: u32,
    /// Render-target format table; entries past `num_render_targets` stay at
    /// the unknown format.
    pub rtv_formats: [DxgiFormat; 8],
    /// Depth-stencil-view format.
    pub dsv_format: DxgiFormat,
    /// Multisampling description.
    pub sample_desc: SampleDesc,
    /// Node mask selecting the device node the state is built for.
    pub node_mask: u32,
    /// Optional cache hint from a previous build; absent contributes an empty
    /// cached-state fragment.
    pub cache: Option<GraphicsPipelineStateCache>,
    /// Creation flags.
    pub flags: PipelineStateFlags,
}

/// The flat graphics pipeline-state descriptor, in native field order. The
/// pointer-and-length pairs of the native layout are carried as the sequences
/// they point at.
#[derive(Clone, Debug)]
pub struct GraphicsPipelineStateDesc {
    /// The root-signature handle value, verbatim.
    pub root_signature: u64,
    /// Vertex-shader bytecode; empty when the stage is absent.
    pub vs: Vec<u8>,
    /// Pixel-shader bytecode; empty when the stage is absent.
    pub ps: Vec<u8>,
    /// Domain-shader bytecode; empty when the stage is absent.
    pub ds: Vec<u8>,
    /// Hull-shader bytecode; empty when the stage is absent.
    pub hs: Vec<u8>,
    /// Geometry-shader bytecode; empty when the stage is absent.
    pub gs: Vec<u8>,
    /// Flat stream-output description.
    pub stream_output: so::FlatStreamOutputDesc,
    /// Flat blend description.
    pub blend_state: blend::FlatBlendDesc,
    /// Sample mask.
    pub sample_mask: u32,
    /// Flat rasterizer description.
    pub rasterizer_state: rasterizer::FlatRasterizerDesc,
    /// Flat depth-stencil description.
    pub depth_stencil_state: ds::FlatDepthStencilDesc,
    /// Flat input layout: the elements and, implicitly, their count.
    pub input_layout: Vec<ia::FlatInputElementDesc>,
    /// Native code of the strip-cut value.
    pub ib_strip_cut_value: u32,
    /// Native code of the primitive-topology kind.
    pub primitive_topology_type: u32,
    /// Render-target count, verbatim.
    pub num_render_targets: u32,
    /// Render-target format table, all eight entries copied.
    pub rtv_formats: [DxgiFormat; 8],
    /// Depth-stencil-view format.
    pub dsv_format: DxgiFormat,
    /// Multisampling description.
    pub sample_desc: SampleDesc,
    /// Node mask.
    pub node_mask: u32,
    /// Cached-state fragment; empty when no hint was given.
    pub cached_pso: CachedPipelineState,
    /// Native bit pattern of the creation flags.
    pub flags: u32,
}

/// Holds exactly when `d` is the flat descriptor assembled from the
/// configuration `b`: every field of `d` is pinned to the corresponding
/// configuration field.
pub open spec fn graphics_desc_matches(
    b: GraphicsPipelineStateBuilder,
    d: GraphicsPipelineStateDesc,
) -> bool {
    &&& d.root_signature == b.rootsig.handle
    &&& (match b.vs {
        Some(s) => d.vs@ == s.bytes@,
        None => d.vs@ == Seq::<u8>::empty(),
    })
    &&& (match b.ps {
        Some(s) => d.ps@ == s.bytes@,
        None => d.ps@ == Seq::<u8>::empty(),
    })
    &&& (match b.ds {
        Some(s) => d.ds@ == s.bytes@,
        None => d.ds@ == Seq::<u8>::empty(),
    })
    &&& (match b.hs {
        Some(s) => d.hs@ == s.bytes@,
        None => d.hs@ == Seq::<u8>::empty(),
    })
    &&& (match b.gs {
        Some(s) => d.gs@ == s.bytes@,
        None => d.gs@ == Seq::<u8>::empty(),
    })
    &&& so::stream_output_matches(b.stream_output, d.stream_output)
    &&& blend::blend_matches(b.blend_state, d.blend_state)
    &&& d.sample_mask == b.sample_mask
    &&& rasterizer::rasterizer_matches(b.rasterizer_state, d.rasterizer_state)
    &&& ds::depth_stencil_matches(b.depth_stencil_state, d.depth_stencil_state)
    &&& d.input_layout@.len() == b.input_layout.elements@.len()
    &&& forall|i: int|
        0 <= i < b.input_layout.elements@.len() ==> ia::input_element_matches(
            b.input_layout.elements@[i],
            #[trigger] d.input_layout@[i],
        )
    &&& d.ib_strip_cut_value == b.strip_cut_value.spec_u32()
    &&& d.primitive_topology_type == b.primitive_topology_type.spec_u32()
    &&& d.num_render_targets == b.num_render_targets
    &&& d.rtv_formats == b.rtv_formats
    &&& d.dsv_format == b.dsv_format
    &&& d.sample_desc == b.sample_desc
    &&& d.node_mask == b.node_mask
    &&& (match b.cache {
        Some(c) => d.cached_pso.data@ == c.blob@,
        None => d.cached_pso.data@ == Seq::<u8>::empty(),
    })
    &&& d.flags == b.flags.spec_bits()
}

/// Maps the device's creation outcome to the typed result: a returned
/// resource is wrapped unchanged, a status code becomes
/// [`WinError::CreationFailed`] carrying that code — if and only if the
/// device failed.
pub fn graphics_creation_result(outcome: Result<PipelineHandle, StatusCode>) -> (r: Result<
    GraphicsPipelineState,
    WinError,
>)
    ensures
        outcome matches Ok(h) ==> (r matches Ok(ps) && ps.handle == h),
        outcome matches Err(s) ==> (r matches Err(e) && e == WinError::CreationFailed(s)),
{
    match outcome {
        Ok(h) => Ok(GraphicsPipelineState { handle: h }),
        Err(s) => Err(WinError::CreationFailed(s)),
    }
}

impl<'a> GraphicsPipelineStateBuilder<'a> {
    /// A fresh configuration with the documented defaults: no shader stages,
    /// default sub-descriptors, an all-ones sample mask, one render target of
    /// unknown format, the 24-bit-depth/8-bit-stencil depth format, triangle
    /// topology, node zero, no cache hint and no flags.
    pub fn new(root_signature: &'a RootSig) -> (r: Self)
        ensures
            r.rootsig == root_signature,
            r.vs is None,
            r.ps is None,
            r.ds is None,
            r.hs is None,
            r.gs is None,
            so::is_default_stream_output(r.stream_output),
            blend::is_default_blend(r.blend_state),
            r.sample_mask == u32::MAX,
            rasterizer::is_default_rasterizer(r.rasterizer_state),
            ds::is_default_depth_stencil(r.depth_stencil_state),
            r.input_layout.elements@.len() == 0,
            r.strip_cut_value == ia::StripCutValue::DISABLED,
            r.primitive_topology_type == ia::PrimitiveTopologyType::TRIANGLE,
            r.num_render_targets == 1,
            forall|i: int| 0 <= i < 8 ==> r.rtv_formats@[i] == DXGI_FORMAT_UNKNOWN,
            r.dsv_format == DXGI_FORMAT_D24_UNORM_S8_UINT,
            r.sample_desc.count == 1 && r.sample_desc.quality == 0,
            r.node_mask == 0,
            r.cache is None,
            r.flags == PipelineStateFlags::NONE,
    {
        GraphicsPipelineStateBuilder {
            rootsig: root_signature,
            vs: None,
            ps: None,
            ds: None,
            hs: None,
            gs: None,
            stream_output: so::DescBuilder::default(),
            blend_state: blend::BlendDesc::default(),
            sample_mask: u32::MAX,
            rasterizer_state: rasterizer::RasterizerDesc::default(),
            depth_stencil_state: ds::DepthStencilDesc::default(),
            input_layout: ia::InputLayoutBuilder::default(),
            strip_cut_value: ia::StripCutValue::DISABLED,
            primitive_topology_type: ia::PrimitiveTopologyType::TRIANGLE,
            num_render_targets: 1,
            rtv_formats: [DXGI_FORMAT_UNKNOWN; 8],
            dsv_format: DXGI_FORMAT_D24_UNORM_S8_UINT,
            sample_desc: SampleDesc::default(),
            node_mask: 0,
            cache: None,
            flags: PipelineStateFlags::NONE,
        }
    }

    /// Assembles the flat descriptor from the current configuration.
    ///
    /// Each present shader stage contributes its bytes and each absent stage
    /// an empty field; the sub-descriptors are converted field by field; the
    /// render-target format table is copied whole, so assembly never reads
    /// past its eight entries; the cache hint, when present, contributes its
    /// bytes verbatim. The descriptor lives only as long as the caller keeps
    /// it; the builder is left untouched and may be reused.
    pub fn descriptor(&self) -> (r: GraphicsPipelineStateDesc)
        ensures
            graphics_desc_matches(*self, r),
    {
        GraphicsPipelineStateDesc {
            root_signature: self.rootsig.handle,
            vs: match &self.vs {
                Some(s) => s.to_shader_bytecode(),
                None => Vec::new(),
            },
            ps: match &self.ps {
                Some(s) => s.to_shader_bytecode(),
                None => Vec::new(),
            },
            ds: match &self.ds {
                Some(s) => s.to_shader_bytecode(),
                None => Vec::new(),
            },
            hs: match &self.hs {
                Some(s) => s.to_shader_bytecode(),
                None => Vec::new(),
            },
            gs: match &self.gs {
                Some(s) => s.to_shader_bytecode(),
                None => Vec::new(),
            },
            stream_output: self.stream_output.build(),
            blend_state: self.blend_state.to_flat(),
            sample_mask: self.sample_mask,
            rasterizer_state: self.rasterizer_state.to_flat(),
            depth_stencil_state: self.depth_stencil_state.to_flat(),
            input_layout: self.input_layout.build(),
            ib_strip_cut_value: self.strip_cut_value.as_u32(),
            primitive_topology_type: self.primitive_topology_type.as_u32(),
            num_render_targets: self.num_render_targets,
            rtv_formats: self.rtv_formats,
            dsv_format: self.dsv_format,
            sample_desc: self.sample_desc,
            node_mask: self.node_mask,
            cached_pso: match &self.cache {
                Some(c) => c.to_ffi_cache(),
                None => CachedPipelineState { data: Vec::new() },
            },
            flags: self.flags.bits(),
        }
    }

    /// Assembles the flat descriptor and invokes the device's creation
    /// capability on it.
    ///
    /// Success wraps the resource the device returned; every failure is the
    /// device's status code mapped to [`WinError::CreationFailed`]. No retry,
    /// no recovery, no cleanup of a half-constructed resource.
    pub fn build<D: Device>(&self, device: &mut D) -> (r: Result<GraphicsPipelineState, WinError>)
        ensures
            r matches Err(e) ==> e is CreationFailed,
    {
        let desc = self.descriptor();
        graphics_creation_result(device.create_graphics_pipeline_state(&desc))
    }
}

/// Absent-stage law: a descriptor assembled from a configuration leaves the
/// bytecode field of every unset shader stage empty — never a stale value —
/// whatever subset of stages is set.
pub proof fn lemma_absent_stages_empty(
    b: GraphicsPipelineStateBuilder,
    d: GraphicsPipelineStateDesc,
)
    requires
        graphics_desc_matches(b, d),
    ensures
        b.vs is None ==> d.vs@ == Seq::<u8>::empty(),
        b.ps is None ==> d.ps@ == Seq::<u8>::empty(),
        b.ds is None ==> d.ds@ == Seq::<u8>::empty(),
        b.hs is None ==> d.hs@ == Seq::<u8>::empty(),
        b.gs is None ==> d.gs@ == Seq::<u8>::empty(),
{
}

/// Holds exactly when the two flat descriptors agree on every field except
/// the cached-state fragment, comparing carried sequences by contents.
pub open spec fn graphics_descs_agree_except_cache(
    d1: GraphicsPipelineStateDesc,
    d2: GraphicsPipelineStateDesc,
) -> bool {
    &&& d1.root_signature == d2.root_signature
    &&& d1.vs@ == d2.vs@
    &&& d1.ps@ == d2.ps@
    &&& d1.ds@ == d2.ds@
    &&& d1.hs@ == d2.hs@
    &&& d1.gs@ == d2.gs@
    &&& d1.stream_output.so_declarations@.len() == d2.stream_output.so_declarations@.len()
    &&& forall|i: int|
        0 <= i < d1.stream_output.so_declarations@.len() ==> so_flat_entries_agree(
            #[trigger] d1.stream_output.so_declarations@[i],
            d2.stream_output.so_declarations@[i],
        )
    &&& d1.stream_output.buffer_strides@ == d2.stream_output.buffer_strides@
    &&& d1.stream_output.rasterized_stream == d2.stream_output.rasterized_stream
    &&& d1.blend_state == d2.blend_state
    &&& d1.sample_mask == d2.sample_mask
    &&& d1.rasterizer_state == d2.rasterizer_state
    &&& d1.depth_stencil_state == d2.depth_stencil_state
    &&& d1.input_layout@.len() == d2.input_layout@.len()
    &&& forall|i: int|
        0 <= i < d1.input_layout@.len() ==> input_flat_elements_agree(
            #[trigger] d1.input_layout@[i],
            d2.input_layout@[i],
        )
    &&& d1.ib_strip_cut_value == d2.ib_strip_cut_value
    &&& d1.primitive_topology_type == d2.primitive_topology_type
    &&& d1.num_render_targets == d2.num_render_targets
    &&& d1.rtv_formats == d2.rtv_formats
    &&& d1.dsv_format == d2.dsv_format
    &&& d1.sample_desc == d2.sample_desc
    &&& d1.node_mask == d2.node_mask
    &&& d1.flags == d2.flags
}

/// Holds exactly when two flat stream-output entries agree, comparing the
/// semantic names by contents.
pub open spec fn so_flat_entries_agree(
    f1: so::FlatSoDeclarationEntry,
    f2: so::FlatSoDeclarationEntry,
) -> bool {
    &&& f1.stream == f2.stream
    &&& f1.semantic_name@ == f2.semantic_name@
    &&& f1.semantic_index == f2.semantic_index
    &&& f1.start_component == f2.start_component
    &&& f1.component_count == f2.component_count
    &&& f1.output_slot == f2.output_slot
}

/// Holds exactly when two flat input elements agree, comparing the semantic
/// names by contents.
pub open spec fn input_flat_elements_agree(
    f1: ia::FlatInputElementDesc,
    f2: ia::FlatInputElementDesc,
) -> bool {
    &&& f1.semantic_name@ == f2.semantic_name@
    &&& f1.semantic_index == f2.semantic_index
    &&& f1.format == f2.format
    &&& f1.input_slot == f2.input_slot
    &&& f1.aligned_byte_offset == f2.aligned_byte_offset
    &&& f1.input_slot_class == f2.input_slot_class
    &&& f1.instance_data_step_rate == f2.instance_data_step_rate
}

/// Cache round-trip law: when a second configuration is identical to a first
/// one except that its cache hint is the blob `c`, the descriptor assembled
/// from it carries the blob's bytes verbatim in the cached-state fragment and
/// agrees with the first descriptor on every other field. Whether the device
/// then reuses the cache or falls back to full compilation is its own policy.
pub proof fn lemma_cache_round_trip(
    b1: GraphicsPipelineStateBuilder,
    b2: GraphicsPipelineStateBuilder,
    d1: GraphicsPipelineStateDesc,
    d2: GraphicsPipelineStateDesc,
    c: GraphicsPipelineStateCache,
)
    requires
        graphics_desc_matches(b1, d1),
        graphics_desc_matches(b2, d2),
        b2.cache matches Some(cc) && cc.blob@ == c.blob@,
        b2.rootsig == b1.rootsig,
        b2.vs == b1.vs,
        b2.ps == b1.ps,
        b2.ds == b1.ds,
        b2.hs == b1.hs,
        b2.gs == b1.gs,
        b2.stream_output == b1.stream_output,
        b2.blend_state == b1.blend_state,
        b2.sample_mask == b1.sample_mask,
        b2.rasterizer_state == b1.rasterizer_state,
        b2.depth_stencil_state == b1.depth_stencil_state,
        b2.input_layout == b1.input_layout,
        b2.strip_cut_value == b1.strip_cut_value,
        b2.primitive_topology_type == b1.primitive_topology_type,
        b2.num_render_targets == b1.num_render_targets,
        b2.rtv_formats == b1.rtv_formats,
        b2.dsv_format == b1.dsv_format,
        b2.sample_desc == b1.sample_desc,
        b2.node_mask == b1.node_mask,
        b2.flags == b1.flags,
    ensures
        d2.cached_pso.data@ == c.blob@,
        graphics_descs_agree_except_cache(d1, d2),
{
    assert(d1.blend_state == d2.blend_state) by {
        assert forall|i: int| 0 <= i < 8 implies d1.blend_state.render_target@[i]
            == d2.blend_state.render_target@[i] by {
            assert(blend::rt_blend_matches(
                b1.blend_state.render_target@[i],
                d1.blend_state.render_target@[i],
            ));
            assert(blend::rt_blend_matches(
                b2.blend_state.render_target@[i],
                d2.blend_state.render_target@[i],
            ));
        }
        assert(d1.blend_state.render_target =~= d2.blend_state.render_target);
    }
    assert forall|i: int| 0 <= i < d1.stream_output.so_declarations@.len() implies
        so_flat_entries_agree(
        #[trigger] d1.stream_output.so_declarations@[i],
        d2.stream_output.so_declarations@[i],
    ) by {
        assert(so::so_entry_matches(
            b1.stream_output.so_declarations@[i],
            d1.stream_output.so_declarations@[i],
        ));
        assert(so::so_entry_matches(
            b2.stream_output.so_declarations@[i],
            d2.stream_output.so_declarations@[i],
        ));
    }
    assert forall|i: int| 0 <= i < d1.input_layout@.len() implies input_flat_elements_agree(
        #[trigger] d1.input_layout@[i],
        d2.input_layout@[i],
    ) by {
        assert(ia::input_element_matches(
            b1.input_layout.elements@[i],
            d1.input_layout@[i],
        ));
        assert(ia::input_element_matches(
            b2.input_layout.elements@[i],
            d2.input_layout@[i],
        ));
    }
}

} // verus!
