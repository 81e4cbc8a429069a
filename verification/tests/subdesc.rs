//! Sub-descriptor conversions: documented defaults, native integer codes and
//! the exact field-by-field flat forms.

use pipeline_state::CachedPipelineState;
use pipeline_state::ComparisonFunc;
use pipeline_state::GraphicsPipelineStateCache;
use pipeline_state::PipelineStateFlags;
use pipeline_state::SampleDesc;
use pipeline_state::blend::Blend;
use pipeline_state::blend::BlendDesc;
use pipeline_state::blend::BlendOp;
use pipeline_state::blend::COLOR_WRITE_ENABLE_ALL;
use pipeline_state::blend::LogicOp;
use pipeline_state::blend::RenderTargetBlendDesc;
use pipeline_state::ds::DepthStencilDesc;
use pipeline_state::ds::DepthWriteMask;
use pipeline_state::ds::StencilOp;
use pipeline_state::error::WinError;
use pipeline_state::format::DXGI_FORMAT_R32G32B32_FLOAT;
use pipeline_state::format::DXGI_FORMAT_R32G32_FLOAT;
use pipeline_state::ia::APPEND_ALIGNED_ELEMENT;
use pipeline_state::ia::InputClassification;
use pipeline_state::ia::InputElementDesc;
use pipeline_state::ia::InputLayoutBuilder;
use pipeline_state::ia::PrimitiveTopologyType;
use pipeline_state::ia::StripCutValue;
use pipeline_state::rasterizer::ConservativeRasterMode;
use pipeline_state::rasterizer::CullMode;
use pipeline_state::rasterizer::FillMode;
use pipeline_state::rasterizer::RasterizerDesc;
use pipeline_state::shader::DsShaderBytecode;
use pipeline_state::shader::HsShaderBytecode;
use pipeline_state::so::DescBuilder;
use pipeline_state::so::SoDeclarationEntry;

#[test]
fn comparison_func_codes_are_native() {
    assert_eq!(ComparisonFunc::NEVER.as_u32(), 1);
    assert_eq!(ComparisonFunc::LESS.as_u32(), 2);
    assert_eq!(ComparisonFunc::EQUAL.as_u32(), 3);
    assert_eq!(ComparisonFunc::LESS_EQUAL.as_u32(), 4);
    assert_eq!(ComparisonFunc::GREATER.as_u32(), 5);
    assert_eq!(ComparisonFunc::NOT_EQUAL.as_u32(), 6);
    assert_eq!(ComparisonFunc::GREATER_EQUAL.as_u32(), 7);
    assert_eq!(ComparisonFunc::ALWAYS.as_u32(), 8);
}

#[test]
fn flag_bits_are_native() {
    assert_eq!(PipelineStateFlags::NONE.bits(), 0);
    assert_eq!(PipelineStateFlags::TOOL_DEBUG.bits(), 1);
    assert_eq!(PipelineStateFlags::default(), PipelineStateFlags::NONE);
}

#[test]
fn sample_desc_default_is_single_sample() {
    let s = SampleDesc::default();
    assert_eq!(s.count, 1);
    assert_eq!(s.quality, 0);
}

#[test]
fn blend_default_flat_form() {
    let flat = BlendDesc::default().to_flat();
    assert_eq!(flat.alpha_to_coverage_enable, 0);
    assert_eq!(flat.independent_blend_enable, 0);
    for i in 0..8 {
        let rt = flat.render_target[i];
        assert_eq!(rt.blend_enable, 0);
        assert_eq!(rt.logic_op_enable, 0);
        assert_eq!(rt.src_blend, 2);
        assert_eq!(rt.dest_blend, 1);
        assert_eq!(rt.blend_op, 1);
        assert_eq!(rt.src_blend_alpha, 2);
        assert_eq!(rt.dest_blend_alpha, 1);
        assert_eq!(rt.blend_op_alpha, 1);
        assert_eq!(rt.logic_op, 4);
        assert_eq!(rt.render_target_write_mask, COLOR_WRITE_ENABLE_ALL);
    }
}

#[test]
fn blend_codes_skip_the_reserved_gap() {
    assert_eq!(Blend::SRC_ALPHA_SAT.as_u32(), 11);
    assert_eq!(Blend::BLEND_FACTOR.as_u32(), 14);
    assert_eq!(Blend::INV_BLEND_FACTOR.as_u32(), 15);
    assert_eq!(Blend::SRC1_COLOR.as_u32(), 16);
    assert_eq!(Blend::INV_SRC1_ALPHA.as_u32(), 19);
    assert_eq!(BlendOp::MAX.as_u32(), 5);
    assert_eq!(LogicOp::NOOP.as_u32(), 4);
    assert_eq!(LogicOp::OR_INVERTED.as_u32(), 14);
}

#[test]
fn custom_render_target_blend_converts_field_by_field() {
    let mut d = BlendDesc::default();
    d.alpha_to_coverage_enable = true;
    d.independent_blend_enable = true;
    d.render_target[2] = RenderTargetBlendDesc {
        blend_enable: true,
        logic_op_enable: false,
        src_blend: Blend::SRC_ALPHA,
        dest_blend: Blend::INV_SRC_ALPHA,
        blend_op: BlendOp::ADD,
        src_blend_alpha: Blend::ONE,
        dest_blend_alpha: Blend::ZERO,
        blend_op_alpha: BlendOp::SUBTRACT,
        logic_op: LogicOp::XOR,
        render_target_write_mask: 0x07,
    };
    let flat = d.to_flat();
    assert_eq!(flat.alpha_to_coverage_enable, 1);
    assert_eq!(flat.independent_blend_enable, 1);
    let rt = flat.render_target[2];
    assert_eq!(rt.blend_enable, 1);
    assert_eq!(rt.src_blend, 5);
    assert_eq!(rt.dest_blend, 6);
    assert_eq!(rt.blend_op, 1);
    assert_eq!(rt.src_blend_alpha, 2);
    assert_eq!(rt.dest_blend_alpha, 1);
    assert_eq!(rt.blend_op_alpha, 2);
    assert_eq!(rt.logic_op, 9);
    assert_eq!(rt.render_target_write_mask, 0x07);
    // Untouched slots keep the defaults.
    assert_eq!(flat.render_target[3].src_blend, 2);
}

#[test]
fn rasterizer_default_flat_form() {
    let flat = RasterizerDesc::default().to_flat();
    assert_eq!(flat.fill_mode, 3);
    assert_eq!(flat.cull_mode, 3);
    assert_eq!(flat.front_counter_clockwise, 0);
    assert_eq!(flat.depth_bias, 0);
    assert_eq!(flat.depth_bias_clamp_bits, 0);
    assert_eq!(flat.slope_scaled_depth_bias_bits, 0);
    assert_eq!(flat.depth_clip_enable, 1);
    assert_eq!(flat.multisample_enable, 0);
    assert_eq!(flat.antialiased_line_enable, 0);
    assert_eq!(flat.forced_sample_count, 0);
    assert_eq!(flat.conservative_raster, 0);
}

#[test]
fn rasterizer_custom_flat_form() {
    let mut d = RasterizerDesc::default();
    d.fill_mode = FillMode::WIREFRAME;
    d.cull_mode = CullMode::NONE;
    d.front_counter_clockwise = true;
    d.depth_bias = -3;
    d.conservative_raster = ConservativeRasterMode::ON;
    let flat = d.to_flat();
    assert_eq!(flat.fill_mode, 2);
    assert_eq!(flat.cull_mode, 1);
    assert_eq!(flat.front_counter_clockwise, 1);
    assert_eq!(flat.depth_bias, -3);
    assert_eq!(flat.conservative_raster, 1);
}

#[test]
fn depth_stencil_default_flat_form() {
    let flat = DepthStencilDesc::default().to_flat();
    assert_eq!(flat.depth_enable, 1);
    assert_eq!(flat.depth_write_mask, 1);
    assert_eq!(flat.depth_func, 2);
    assert_eq!(flat.stencil_enable, 0);
    assert_eq!(flat.stencil_read_mask, 0xff);
    assert_eq!(flat.stencil_write_mask, 0xff);
    assert_eq!(flat.front_face.stencil_fail_op, 1);
    assert_eq!(flat.front_face.stencil_depth_fail_op, 1);
    assert_eq!(flat.front_face.stencil_pass_op, 1);
    assert_eq!(flat.front_face.stencil_func, 8);
    assert_eq!(flat.back_face.stencil_func, 8);
}

#[test]
fn depth_stencil_custom_flat_form() {
    let mut d = DepthStencilDesc::default();
    d.depth_enable = false;
    d.depth_write_mask = DepthWriteMask::ZERO;
    d.depth_func = ComparisonFunc::GREATER_EQUAL;
    d.stencil_enable = true;
    d.front_face.stencil_pass_op = StencilOp::REPLACE;
    d.back_face.stencil_fail_op = StencilOp::DECR;
    let flat = d.to_flat();
    assert_eq!(flat.depth_enable, 0);
    assert_eq!(flat.depth_write_mask, 0);
    assert_eq!(flat.depth_func, 7);
    assert_eq!(flat.stencil_enable, 1);
    assert_eq!(flat.front_face.stencil_pass_op, 3);
    assert_eq!(flat.back_face.stencil_fail_op, 8);
}

#[test]
fn strip_cut_and_topology_codes_are_native() {
    assert_eq!(StripCutValue::DISABLED.as_u32(), 0);
    assert_eq!(StripCutValue::MAX_U16.as_u32(), 1);
    assert_eq!(StripCutValue::MAX_U32.as_u32(), 2);
    assert_eq!(StripCutValue::default(), StripCutValue::DISABLED);
    assert_eq!(PrimitiveTopologyType::UNDEFINED.as_u32(), 0);
    assert_eq!(PrimitiveTopologyType::POINT.as_u32(), 1);
    assert_eq!(PrimitiveTopologyType::LINE.as_u32(), 2);
    assert_eq!(PrimitiveTopologyType::TRIANGLE.as_u32(), 3);
    assert_eq!(PrimitiveTopologyType::PATCH.as_u32(), 4);
}

#[test]
fn input_layout_builds_in_order() {
    let mut layout = InputLayoutBuilder::default();
    layout.elements.push(InputElementDesc {
        semantic_name: String::from("POSITION"),
        semantic_index: 0,
        format: DXGI_FORMAT_R32G32B32_FLOAT,
        input_slot: 0,
        aligned_byte_offset: 0,
        input_slot_class: InputClassification::PER_VERTEX_DATA,
        instance_data_step_rate: 0,
    });
    layout.elements.push(InputElementDesc {
        semantic_name: String::from("TEXCOORD"),
        semantic_index: 1,
        format: DXGI_FORMAT_R32G32_FLOAT,
        input_slot: 1,
        aligned_byte_offset: APPEND_ALIGNED_ELEMENT,
        input_slot_class: InputClassification::PER_INSTANCE_DATA,
        instance_data_step_rate: 2,
    });
    let flat = layout.build();
    assert_eq!(flat.len(), 2);
    assert_eq!(flat[0].semantic_name, "POSITION");
    assert_eq!(flat[0].semantic_index, 0);
    assert_eq!(flat[0].format, DXGI_FORMAT_R32G32B32_FLOAT);
    assert_eq!(flat[0].input_slot_class, 0);
    assert_eq!(flat[1].semantic_name, "TEXCOORD");
    assert_eq!(flat[1].semantic_index, 1);
    assert_eq!(flat[1].format, DXGI_FORMAT_R32G32_FLOAT);
    assert_eq!(flat[1].input_slot, 1);
    assert_eq!(flat[1].aligned_byte_offset, APPEND_ALIGNED_ELEMENT);
    assert_eq!(flat[1].input_slot_class, 1);
    assert_eq!(flat[1].instance_data_step_rate, 2);
}

#[test]
fn stream_output_builds_entries_and_strides() {
    let mut so = DescBuilder::default();
    so.so_declarations.push(SoDeclarationEntry {
        stream: 0,
        semantic_name: String::from("SV_POSITION"),
        semantic_index: 0,
        start_component: 0,
        component_count: 4,
        output_slot: 0,
    });
    so.buffer_strides.push(16);
    so.buffer_strides.push(32);
    so.rasterized_stream = 1;
    let flat = so.build();
    assert_eq!(flat.so_declarations.len(), 1);
    assert_eq!(flat.so_declarations[0].semantic_name, "SV_POSITION");
    assert_eq!(flat.so_declarations[0].component_count, 4);
    assert_eq!(flat.buffer_strides, vec![16u32, 32]);
    assert_eq!(flat.rasterized_stream, 1);
}

#[test]
fn stream_output_default_is_empty() {
    let flat = DescBuilder::default().build();
    assert!(flat.so_declarations.is_empty());
    assert!(flat.buffer_strides.is_empty());
    assert_eq!(flat.rasterized_stream, 0);
}

#[test]
fn shader_slots_expose_their_bytes() {
    let hs = HsShaderBytecode::new(vec![1u8, 2, 3]);
    assert_eq!(hs.to_shader_bytecode(), vec![1u8, 2, 3]);
    assert_eq!(hs.bytes, vec![1u8, 2, 3]);
    let ds = DsShaderBytecode::new(Vec::new());
    assert!(ds.to_shader_bytecode().is_empty());
}

#[test]
fn cache_blob_fragment_passes_bytes_through() {
    let cache = GraphicsPipelineStateCache::from_bytes(vec![10u8, 20, 30]);
    let fragment: CachedPipelineState = cache.to_ffi_cache();
    assert_eq!(fragment.data, vec![10u8, 20, 30]);
    assert_eq!(cache.blob, vec![10u8, 20, 30]);
}

#[test]
fn error_carries_its_status() {
    assert_eq!(WinError::CreationFailed(-7).status(), -7);
    assert_eq!(WinError::CacheRetrievalFailed(-9).status(), -9);
    assert_ne!(WinError::CreationFailed(-7), WinError::CacheRetrievalFailed(-7));
}
