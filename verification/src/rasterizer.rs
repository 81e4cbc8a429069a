//! The rasterizer sub-descriptor.
//!
//! A user-editable rasterizer configuration and its audited, field-by-field
//! conversion into the flat layout consumed by the aggregate pipeline-state
//! descriptor. The two native fields that hold floating-point bias values are
//! carried as their raw 32-bit patterns, so the conversion stays exact and
//! this layer never interprets them.

use vstd::prelude::*;
use crate::blend::bool_u32;

verus! {

/// How primitives are filled.
#[allow(non_camel_case_types)]
#[derive(Clone, Copy, Debug, PartialEq, Eq, Structural)]
pub enum FillMode {
    /// Draw edges only.
    WIREFRAME,
    /// Fill the whole primitive.
    SOLID,
}

impl FillMode {
    /// The native integer code of the fill mode.
    pub open spec fn spec_u32(self) -> u32 {
        match self {
            FillMode::WIREFRAME => 2,
            FillMode::SOLID => 3,
        }
    }

    /// The native integer code, as the flat descriptor holds it.
    pub fn as_u32(&self) -> (r: u32)
        ensures
            r == self.spec_u32(),
    {
        match self {
            FillMode::WIREFRAME => 2,
            FillMode::SOLID => 3,
        }
    }
}

/// Which primitive faces are culled.
#[allow(non_camel_case_types)]
#[derive(Clone, Copy, Debug, PartialEq, Eq, Structural)]
pub enum CullMode {
    /// Cull nothing.
    NONE,
    /// Cull front faces.
    FRONT,
    /// Cull back faces.
    BACK,
}

impl CullMode {
    /// The native integer code of the cull mode.
    pub open spec fn spec_u32(self) -> u32 {
        match self {
            CullMode::NONE => 1,
            CullMode::FRONT => 2,
            CullMode::BACK => 3,
        }
    }

    /// The native integer code, as the flat descriptor holds it.
    pub fn as_u32(&self) -> (r: u32)
        ensures
            r == self.spec_u32(),
    {
        match self {
            CullMode::NONE => 1,
            CullMode::FRONT => 2,
            CullMode::BACK => 3,
        }
    }
}

/// Whether conservative rasterization is enabled.
#[allow(non_camel_case_types)]
#[derive(Clone, Copy, Debug, PartialEq, Eq, Structural)]
pub enum ConservativeRasterMode {
    /// Conservative rasterization off.
    OFF,
    /// Conservative rasterization on.
    ON,
}

impl ConservativeRasterMode {
    /// The native integer code of the mode.
    pub open spec fn spec_u32(self) -> u32 {
        match self {
            ConservativeRasterMode::OFF => 0,
            ConservativeRasterMode::ON => 1,
        }
    }

    /// The native integer code, as the flat descriptor holds it.
    pub fn as_u32(&self) -> (r: u32)
        ensures
            r == self.spec_u32(),
    {
        match self {
            ConservativeRasterMode::OFF => 0,
            ConservativeRasterMode::ON => 1,
        }
    }
}

/// The rasterizer sub-descriptor.
#[derive(Clone, Copy, Debug, PartialEq, Eq, Structural)]
pub struct RasterizerDesc {
    /// How primitives are filled.
    pub fill_mode: FillMode,
    /// Which faces are culled.
    pub cull_mode: CullMode,
    /// Whether counter-clockwise winding marks the front face.
    pub front_counter_clockwise: bool,
    /// Constant depth bias added to each pixel.
    pub depth_bias: i32,
    /// Raw 32-bit pattern of the native depth-bias clamp value.
    pub depth_bias_clamp_bits: u32,
    /// Raw 32-bit pattern of the native slope-scaled depth-bias value.
    pub slope_scaled_depth_bias_bits: u32,
    /// Whether clipping on depth is enabled.
    pub depth_clip_enable: bool,
    /// Whether quadrilateral anti-aliasing is used on multisampled targets.
    pub multisample_enable: bool,
    /// Whether line anti-aliasing is enabled.
    pub antialiased_line_enable: bool,
    /// Sample count forced while rasterizing; zero forces nothing.
    pub forced_sample_count: u32,
    /// Whether conservative rasterization is enabled.
    pub conservative_raster: ConservativeRasterMode,
}

/// Holds exactly when `d` carries the documented rasterizer defaults: solid
/// fill, back-face culling, clockwise front faces, no bias, depth clipping on,
/// anti-aliasing off, nothing forced, conservative rasterization off.
pub open spec fn is_default_rasterizer(d: RasterizerDesc) -> bool {
    &&& d.fill_mode == FillMode::SOLID
    &&& d.cull_mode == CullMode::BACK
    &&& !d.front_counter_clockwise
    &&& d.depth_bias == 0
    &&& d.depth_bias_clamp_bits == 0
    &&& d.slope_scaled_depth_bias_bits == 0
    &&& d.depth_clip_enable
    &&& !d.multisample_enable
    &&& !d.antialiased_line_enable
    &&& d.forced_sample_count == 0
    &&& d.conservative_raster == ConservativeRasterMode::OFF
}

impl Default for RasterizerDesc {
    /// The documented rasterizer defaults.
    fn default() -> (r: Self)
        ensures
            is_default_rasterizer(r),
    {
        RasterizerDesc {
            fill_mode: FillMode::SOLID,
            cull_mode: CullMode::BACK,
            front_counter_clockwise: false,
            depth_bias: 0,
            depth_bias_clamp_bits: 0,
            slope_scaled_depth_bias_bits: 0,
            depth_clip_enable: true,
            multisample_enable: false,
            antialiased_line_enable: false,
            forced_sample_count: 0,
            conservative_raster: ConservativeRasterMode::OFF,
        }
    }
}

/// The flat form of the rasterizer sub-descriptor, in native field order with
/// native integer codes and 32-bit booleans.
#[derive(Clone, Copy, Debug, PartialEq, Eq, Structural)]
pub struct FlatRasterizerDesc {
    /// Native code of the fill mode.
    pub fill_mode: u32,
    /// Native code of the cull mode.
    pub cull_mode: u32,
    /// Native boolean: counter-clockwise front faces.
    pub front_counter_clockwise: u32,
    /// Constant depth bias.
    pub depth_bias: i32,
    /// Raw 32-bit pattern of the depth-bias clamp.
    pub depth_bias_clamp_bits: u32,
    /// Raw 32-bit pattern of the slope-scaled depth bias.
    pub slope_scaled_depth_bias_bits: u32,
    /// Native boolean: depth clipping.
    pub depth_clip_enable: u32,
    /// Native boolean: multisample anti-aliasing.
    pub multisample_enable: u32,
    /// Native boolean: line anti-aliasing.
    pub antialiased_line_enable: u32,
    /// Forced sample count.
    pub forced_sample_count: u32,
    /// Native code of the conservative-rasterization mode.
    pub conservative_raster: u32,
}

/// Holds exactly when `f` is the flat form of the rasterizer sub-descriptor
/// `d`.
pub open spec fn rasterizer_matches(d: RasterizerDesc, f: FlatRasterizerDesc) -> bool {
    &&& f.fill_mode == d.fill_mode.spec_u32()
    &&& f.cull_mode == d.cull_mode.spec_u32()
    &&& f.front_counter_clockwise == bool_u32(d.front_counter_clockwise)
    &&& f.depth_bias == d.depth_bias
    &&& f.depth_bias_clamp_bits == d.depth_bias_clamp_bits
    &&& f.slope_scaled_depth_bias_bits == d.slope_scaled_depth_bias_bits
    &&& f.depth_clip_enable == bool_u32(d.depth_clip_enable)
    &&& f.multisample_enable == bool_u32(d.multisample_enable)
    &&& f.antialiased_line_enable == bool_u32(d.antialiased_line_enable)
    &&& f.forced_sample_count == d.forced_sample_count
    &&& f.conservative_raster == d.conservative_raster.spec_u32()
}

impl RasterizerDesc {
    /// Converts the rasterizer sub-descriptor into its flat form, field by
    /// field.
    pub fn to_flat(&self) -> (r: FlatRasterizerDesc)
        ensures
            rasterizer_matches(*self, r),
    {
        FlatRasterizerDesc {
            fill_mode: self.fill_mode.as_u32(),
            cull_mode: self.cull_mode.as_u32(),
            front_counter_clockwise: if self.front_counter_clockwise { 1 } else { 0 },
            depth_bias: self.depth_bias,
            depth_bias_clamp_bits: self.depth_bias_clamp_bits,
            slope_scaled_depth_bias_bits: self.slope_scaled_depth_bias_bits,
            depth_clip_enable: if self.depth_clip_enable { 1 } else { 0 },
            multisample_enable: if self.multisample_enable { 1 } else { 0 },
            antialiased_line_enable: if self.antialiased_line_enable { 1 } else { 0 },
            forced_sample_count: self.forced_sample_count,
            conservative_raster: self.conservative_raster.as_u32(),
        }
    }
}

} // verus!
