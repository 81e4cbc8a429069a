//! The depth-stencil sub-descriptor.
//!
//! A user-editable depth-stencil configuration and its audited,
//! field-by-field conversion into the flat layout consumed by the aggregate
//! pipeline-state descriptor.

use vstd::prelude::*;
use crate::ComparisonFunc;
use crate::blend::bool_u32;

verus! {

/// Which parts of the depth buffer writes may touch.
#[allow(non_camel_case_types)]
#[derive(Clone, Copy, Debug, PartialEq, Eq, Structural)]
pub enum DepthWriteMask {
    /// Depth writes are disabled.
    ZERO,
    /// The whole depth buffer may be written.
    ALL,
}

impl DepthWriteMask {
    /// The native integer code of the write mask.
    pub open spec fn spec_u32(self) -> u32 {
        match self {
            DepthWriteMask::ZERO => 0,
            DepthWriteMask::ALL => 1,
        }
    }

    /// The native integer code, as the flat descriptor holds it.
    pub fn as_u32(&self) -> (r: u32)
        ensures
            r == self.spec_u32(),
    {
        match self {
            DepthWriteMask::ZERO => 0,
            DepthWriteMask::ALL => 1,
        }
    }
}

/// What happens to a stencil value when a test passes or fails.
#[allow(non_camel_case_types)]
#[derive(Clone, Copy, Debug, PartialEq, Eq, Structural)]
pub enum StencilOp {
    /// Keep the stored value.
    KEEP,
    /// Set the stored value to zero.
    ZERO,
    /// Replace the stored value with the reference value.
    REPLACE,
    /// Increment, saturating at the maximum.
    INCR_SAT,
    /// Decrement, saturating at zero.
    DECR_SAT,
    /// Invert the stored bits.
    INVERT,
    /// Increment, wrapping around.
    INCR,
    /// Decrement, wrapping around.
    DECR,
}

impl StencilOp {
    /// The native integer code of the stencil operation.
    pub open spec fn spec_u32(self) -> u32 {
        match self {
            StencilOp::KEEP => 1,
            StencilOp::ZERO => 2,
            StencilOp::REPLACE => 3,
            StencilOp::INCR_SAT => 4,
            StencilOp::DECR_SAT => 5,
            StencilOp::INVERT => 6,
            StencilOp::INCR => 7,
            StencilOp::DECR => 8,
        }
    }

    /// The native integer code, as the flat descriptor holds it.
    pub fn as_u32(&self) -> (r: u32)
        ensures
            r == self.spec_u32(),
    {
        match self {
            StencilOp::KEEP => 1,
            StencilOp::ZERO => 2,
            StencilOp::REPLACE => 3,
            StencilOp::INCR_SAT => 4,
            StencilOp::DECR_SAT => 5,
            StencilOp::INVERT => 6,
            StencilOp::INCR => 7,
            StencilOp::DECR => 8,
        }
    }
}

/// The stencil behaviour of one primitive face.
#[derive(Clone, Copy, Debug, PartialEq, Eq, Structural)]
pub struct StencilOpDesc {
    /// Operation when the stencil test fails.
    pub stencil_fail_op: StencilOp,
    /// Operation when the stencil test passes but the depth test fails.
    pub stencil_depth_fail_op: StencilOp,
    /// Operation when both tests pass.
    pub stencil_pass_op: StencilOp,
    /// The stencil comparison.
    pub stencil_func: ComparisonFunc,
}

/// Holds exactly when `d` carries the documented per-face stencil defaults:
/// every operation keeps the stored value and the comparison always passes.
pub open spec fn is_default_stencil_op(d: StencilOpDesc) -> bool {
    &&& d.stencil_fail_op == StencilOp::KEEP
    &&& d.stencil_depth_fail_op == StencilOp::KEEP
    &&& d.stencil_pass_op == StencilOp::KEEP
    &&& d.stencil_func == ComparisonFunc::ALWAYS
}

impl Default for StencilOpDesc {
    /// The documented per-face stencil defaults.
    fn default() -> (r: Self)
        ensures
            is_default_stencil_op(r),
    {
        StencilOpDesc {
            stencil_fail_op: StencilOp::KEEP,
            stencil_depth_fail_op: StencilOp::KEEP,
            stencil_pass_op: StencilOp::KEEP,
            stencil_func: ComparisonFunc::ALWAYS,
        }
    }
}

/// The depth-stencil sub-descriptor.
#[derive(Clone, Copy, Debug, PartialEq, Eq, Structural)]
pub struct DepthStencilDesc {
    /// Whether depth testing is enabled.
    pub depth_enable: bool,
    /// Which parts of the depth buffer writes may touch.
    pub depth_write_mask: DepthWriteMask,
    /// The depth comparison.
    pub depth_func: ComparisonFunc,
    /// Whether stencil testing is enabled.
    pub stencil_enable: bool,
    /// Bit mask applied when reading stencil data.
    pub stencil_read_mask: u8,
    /// Bit mask applied when writing stencil data.
    pub stencil_write_mask: u8,
    /// Stencil behaviour of front-facing primitives.
    pub front_face: StencilOpDesc,
    /// Stencil behaviour of back-facing primitives.
    pub back_face: StencilOpDesc,
}

/// Holds exactly when `d` carries the documented depth-stencil defaults:
/// depth testing on with full writes and a less-than comparison, stencil
/// testing off with full masks and keep-everything faces.
pub open spec fn is_default_depth_stencil(d: DepthStencilDesc) -> bool {
    &&& d.depth_enable
    &&& d.depth_write_mask == DepthWriteMask::ALL
    &&& d.depth_func == ComparisonFunc::LESS
    &&& !d.stencil_enable
    &&& d.stencil_read_mask == 0xff
    &&& d.stencil_write_mask == 0xff
    &&& is_default_stencil_op(d.front_face)
    &&& is_default_stencil_op(d.back_face)
}

impl Default for DepthStencilDesc {
    /// The documented depth-stencil defaults.
    fn default() -> (r: Self)
        ensures
            is_default_depth_stencil(r),
    {
        DepthStencilDesc {
            depth_enable: true,
            depth_write_mask: DepthWriteMask::ALL,
            depth_func: ComparisonFunc::LESS,
            stencil_enable: false,
            stencil_read_mask: 0xff,
            stencil_write_mask: 0xff,
            front_face: StencilOpDesc::default(),
            back_face: StencilOpDesc::default(),
        }
    }
}

/// The flat form of one face's stencil behaviour, in native field order with
/// native integer codes.
#[derive(Clone, Copy, Debug, PartialEq, Eq, Structural)]
pub struct FlatStencilOpDesc {
    /// Native code of the fail operation.
    pub stencil_fail_op: u32,
    /// Native code of the depth-fail operation.
    pub stencil_depth_fail_op: u32,
    /// Native code of the pass operation.
    pub stencil_pass_op: u32,
    /// Native code of the stencil comparison.
    pub stencil_func: u32,
}

/// The flat form of the depth-stencil sub-descriptor, in native field order.
#[derive(Clone, Copy, Debug, PartialEq, Eq, Structural)]
pub struct FlatDepthStencilDesc {
    /// Native boolean: depth testing.
    pub depth_enable: u32,
    /// Native code of the depth write mask.
    pub depth_write_mask: u32,
    /// Native code of the depth comparison.
    pub depth_func: u32,
    /// Native boolean: stencil testing.
    pub stencil_enable: u32,
    /// Bit mask applied when reading stencil data.
    pub stencil_read_mask: u8,
    /// Bit mask applied when writing stencil data.
    pub stencil_write_mask: u8,
    /// Flat stencil behaviour of front-facing primitives.
    pub front_face: FlatStencilOpDesc,
    /// Flat stencil behaviour of back-facing primitives.
    pub back_face: FlatStencilOpDesc,
}

/// Holds exactly when `f` is the flat form of one face's stencil behaviour
/// `d`.
pub open spec fn stencil_op_matches(d: StencilOpDesc, f: FlatStencilOpDesc) -> bool {
    &&& f.stencil_fail_op == d.stencil_fail_op.spec_u32()
    &&& f.stencil_depth_fail_op == d.stencil_depth_fail_op.spec_u32()
    &&& f.stencil_pass_op == d.stencil_pass_op.spec_u32()
    &&& f.stencil_func == d.stencil_func.spec_u32()
}

/// Holds exactly when `f` is the flat form of the depth-stencil
/// sub-descriptor `d`.
pub open spec fn depth_stencil_matches(d: DepthStencilDesc, f: FlatDepthStencilDesc) -> bool {
    &&& f.depth_enable == bool_u32(d.depth_enable)
    &&& f.depth_write_mask == d.depth_write_mask.spec_u32()
    &&& f.depth_func == d.depth_func.spec_u32()
    &&& f.stencil_enable == bool_u32(d.stencil_enable)
    &&& f.stencil_read_mask == d.stencil_read_mask
    &&& f.stencil_write_mask == d.stencil_write_mask
    &&& stencil_op_matches(d.front_face, f.front_face)
    &&& stencil_op_matches(d.back_face, f.back_face)
}

impl StencilOpDesc {
    /// Converts one face's stencil behaviour into its flat form, field by
    /// field.
    pub fn to_flat(&self) -> (r: FlatStencilOpDesc)
        ensures
            stencil_op_matches(*self, r),
    {
        FlatStencilOpDesc {
            stencil_fail_op: self.stencil_fail_op.as_u32(),
            stencil_depth_fail_op: self.stencil_depth_fail_op.as_u32(),
            stencil_pass_op: self.stencil_pass_op.as_u32(),
            stencil_func: self.stencil_func.as_u32(),
        }
    }
}

impl DepthStencilDesc {
    /// Converts the depth-stencil sub-descriptor into its flat form, field by
    /// field.
    pub fn to_flat(&self) -> (r: FlatDepthStencilDesc)
        ensures
            depth_stencil_matches(*self, r),
    {
        FlatDepthStencilDesc {
            depth_enable: if self.depth_enable { 1 } else { 0 },
            depth_write_mask: self.depth_write_mask.as_u32(),
            depth_func: self.depth_func.as_u32(),
            stencil_enable: if self.stencil_enable { 1 } else { 0 },
            stencil_read_mask: self.stencil_read_mask,
            stencil_write_mask: self.stencil_write_mask,
            front_face: self.front_face.to_flat(),
            back_face: self.back_face.to_flat(),
        }
    }
}

} // verus!
