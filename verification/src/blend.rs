//! The blend sub-descriptor.
//!
//! A user-editable blend configuration and its audited, field-by-field
//! conversion into the flat layout consumed by the aggregate pipeline-state
//! descriptor. Enumerations are reinterpreted into their native integer
//! codes; booleans become the native 32-bit booleans.

use vstd::prelude::*;

verus! {

/// A blend factor, one operand of a blend equation.
#[allow(non_camel_case_types)]
#[derive(Clone, Copy, Debug, PartialEq, Eq, Structural)]
pub enum Blend {
    /// The factor is zero.
    ZERO,
    /// The factor is one.
    ONE,
    /// Source color.
    SRC_COLOR,
    /// One minus source color.
    INV_SRC_COLOR,
    /// Source alpha.
    SRC_ALPHA,
    /// One minus source alpha.
    INV_SRC_ALPHA,
    /// Destination alpha.
    DEST_ALPHA,
    /// One minus destination alpha.
    INV_DEST_ALPHA,
    /// Destination color.
    DEST_COLOR,
    /// One minus destination color.
    INV_DEST_COLOR,
    /// Source alpha, saturated.
    SRC_ALPHA_SAT,
    /// The blend factor set on the command list.
    BLEND_FACTOR,
    /// One minus the blend factor set on the command list.
    INV_BLEND_FACTOR,
    /// Second source color, for dual-source blending.
    SRC1_COLOR,
    /// One minus the second source color.
    INV_SRC1_COLOR,
    /// Second source alpha, for dual-source blending.
    SRC1_ALPHA,
    /// One minus the second source alpha.
    INV_SRC1_ALPHA,
}

impl Blend {
    /// The native integer code of the blend factor.
    pub open spec fn spec_u32(self) -> u32 {
        match self {
            Blend::ZERO => 1,
            Blend::ONE => 2,
            Blend::SRC_COLOR => 3,
            Blend::INV_SRC_COLOR => 4,
            Blend::SRC_ALPHA => 5,
            Blend::INV_SRC_ALPHA => 6,
            Blend::DEST_ALPHA => 7,
            Blend::INV_DEST_ALPHA => 8,
            Blend::DEST_COLOR => 9,
            Blend::INV_DEST_COLOR => 10,
            Blend::SRC_ALPHA_SAT => 11,
            Blend::BLEND_FACTOR => 14,
            Blend::INV_BLEND_FACTOR => 15,
            Blend::SRC1_COLOR => 16,
            Blend::INV_SRC1_COLOR => 17,
            Blend::SRC1_ALPHA => 18,
            Blend::INV_SRC1_ALPHA => 19,
        }
    }

    /// The native integer code, as the flat descriptor holds it.
    pub fn as_u32(&self) -> (r: u32)
        ensures
            r == self.spec_u32(),
    {
        match self {
            Blend::ZERO => 1,
            Blend::ONE => 2,
            Blend::SRC_COLOR => 3,
            Blend::INV_SRC_COLOR => 4,
            Blend::SRC_ALPHA => 5,
            Blend::INV_SRC_ALPHA => 6,
            Blend::DEST_ALPHA => 7,
            Blend::INV_DEST_ALPHA => 8,
            Blend::DEST_COLOR => 9,
            Blend::INV_DEST_COLOR => 10,
            Blend::SRC_ALPHA_SAT => 11,
            Blend::BLEND_FACTOR => 14,
            Blend::INV_BLEND_FACTOR => 15,
            Blend::SRC1_COLOR => 16,
            Blend::INV_SRC1_COLOR => 17,
            Blend::SRC1_ALPHA => 18,
            Blend::INV_SRC1_ALPHA => 19,
        }
    }
}

/// A blend operation combining the two weighted operands.
#[allow(non_camel_case_types)]
#[derive(Clone, Copy, Debug, PartialEq, Eq, Structural)]
pub enum BlendOp {
    /// Source plus destination.
    ADD,
    /// Source minus destination.
    SUBTRACT,
    /// Destination minus source.
    REV_SUBTRACT,
    /// Minimum of source and destination.
    MIN,
    /// Maximum of source and destination.
    MAX,
}

impl BlendOp {
    /// The native integer code of the blend operation.
    pub open spec fn spec_u32(self) -> u32 {
        match self {
            BlendOp::ADD => 1,
            BlendOp::SUBTRACT => 2,
            BlendOp::REV_SUBTRACT => 3,
            BlendOp::MIN => 4,
            BlendOp::MAX => 5,
        }
    }

    /// The native integer code, as the flat descriptor holds it.
    pub fn as_u32(&self) -> (r: u32)
        ensures
            r == self.spec_u32(),
    {
        match self {
            BlendOp::ADD => 1,
            BlendOp::SUBTRACT => 2,
            BlendOp::REV_SUBTRACT => 3,
            BlendOp::MIN => 4,
            BlendOp::MAX => 5,
        }
    }
}

/// A logical operation applied to a render target in place of blending.
#[allow(non_camel_case_types)]
#[derive(Clone, Copy, Debug, PartialEq, Eq, Structural)]
pub enum LogicOp {
    /// Clear the target.
    CLEAR,
    /// Set the target to all ones.
    SET,
    /// Copy the source.
    COPY,
    /// Copy the inverted source.
    COPY_INVERTED,
    /// Leave the target unchanged.
    NOOP,
    /// Invert the target.
    INVERT,
    /// Source and destination.
    AND,
    /// Source or destination.
    OR,
    /// Negated or.
    NOR,
    /// Exclusive or.
    XOR,
    /// Negated exclusive or.
    EQUIV,
    /// Source and negated destination.
    AND_REVERSE,
    /// Negated source and destination.
    AND_INVERTED,
    /// Source or negated destination.
    OR_REVERSE,
    /// Negated source or destination.
    OR_INVERTED,
}

impl LogicOp {
    /// The native integer code of the logical operation.
    pub open spec fn spec_u32(self) -> u32 {
        match self {
            LogicOp::CLEAR => 0,
            LogicOp::SET => 1,
            LogicOp::COPY => 2,
            LogicOp::COPY_INVERTED => 3,
            LogicOp::NOOP => 4,
            LogicOp::INVERT => 5,
            LogicOp::AND => 6,
            LogicOp::OR => 7,
            LogicOp::NOR => 8,
            LogicOp::XOR => 9,
            LogicOp::EQUIV => 10,
            LogicOp::AND_REVERSE => 11,
            LogicOp::AND_INVERTED => 12,
            LogicOp::OR_REVERSE => 13,
            LogicOp::OR_INVERTED => 14,
        }
    }

    /// The native integer code, as the flat descriptor holds it.
    pub fn as_u32(&self) -> (r: u32)
        ensures
            r == self.spec_u32(),
    {
        match self {
            LogicOp::CLEAR => 0,
            LogicOp::SET => 1,
            LogicOp::COPY => 2,
            LogicOp::COPY_INVERTED => 3,
            LogicOp::NOOP => 4,
            LogicOp::INVERT => 5,
            LogicOp::AND => 6,
            LogicOp::OR => 7,
            LogicOp::NOR => 8,
            LogicOp::XOR => 9,
            LogicOp::EQUIV => 10,
            LogicOp::AND_REVERSE => 11,
            LogicOp::AND_INVERTED => 12,
            LogicOp::OR_REVERSE => 13,
            LogicOp::OR_INVERTED => 14,
        }
    }
}

/// All color channels enabled for writing: the default write mask.
pub const COLOR_WRITE_ENABLE_ALL: u8 = 0x0f;

/// The blend configuration of one render target.
#[derive(Clone, Copy, Debug, PartialEq, Eq, Structural)]
pub struct RenderTargetBlendDesc {
    /// Whether blending is enabled for the target.
    pub blend_enable: bool,
    /// Whether the logical operation replaces blending for the target.
    pub logic_op_enable: bool,
    /// Weight of the source color.
    pub src_blend: Blend,
    /// Weight of the destination color.
    pub dest_blend: Blend,
    /// Operation combining the weighted colors.
    pub blend_op: BlendOp,
    /// Weight of the source alpha.
    pub src_blend_alpha: Blend,
    /// Weight of the destination alpha.
    pub dest_blend_alpha: Blend,
    /// Operation combining the weighted alphas.
    pub blend_op_alpha: BlendOp,
    /// The logical operation, when enabled.
    pub logic_op: LogicOp,
    /// Bit mask of the color channels written to the target.
    pub render_target_write_mask: u8,
}

/// Holds exactly when `d` carries the documented render-target defaults:
/// blending and logical operations disabled, source weight one, destination
/// weight zero, additive operations, no-op logic, all channels written.
pub open spec fn is_default_render_target_blend(d: RenderTargetBlendDesc) -> bool {
    &&& !d.blend_enable
    &&& !d.logic_op_enable
    &&& d.src_blend == Blend::ONE
    &&& d.dest_blend == Blend::ZERO
    &&& d.blend_op == BlendOp::ADD
    &&& d.src_blend_alpha == Blend::ONE
    &&& d.dest_blend_alpha == Blend::ZERO
    &&& d.blend_op_alpha == BlendOp::ADD
    &&& d.logic_op == LogicOp::NOOP
    &&& d.render_target_write_mask == COLOR_WRITE_ENABLE_ALL
}

impl Default for RenderTargetBlendDesc {
    /// The documented render-target blend defaults.
    fn default() -> (r: Self)
        ensures
            is_default_render_target_blend(r),
    {
        RenderTargetBlendDesc {
            blend_enable: false,
            logic_op_enable: false,
            src_blend: Blend::ONE,
            dest_blend: Blend::ZERO,
            blend_op: BlendOp::ADD,
            src_blend_alpha: Blend::ONE,
            dest_blend_alpha: Blend::ZERO,
            blend_op_alpha: BlendOp::ADD,
            logic_op: LogicOp::NOOP,
            render_target_write_mask: COLOR_WRITE_ENABLE_ALL,
        }
    }
}

/// The blend sub-descriptor: whole-pipeline switches plus one blend
/// configuration per render-target slot.
#[derive(Clone, Copy, Debug)]
pub struct BlendDesc {
    /// Whether alpha-to-coverage is enabled.
    pub alpha_to_coverage_enable: bool,
    /// Whether each render target blends independently; when false, only the
    /// first entry of `render_target` applies.
    pub independent_blend_enable: bool,
    /// One blend configuration per render-target slot.
    pub render_target: [RenderTargetBlendDesc; 8],
}

/// Holds exactly when `d` carries the documented blend defaults: both
/// whole-pipeline switches off and every render-target slot at its default.
pub open spec fn is_default_blend(d: BlendDesc) -> bool {
    &&& !d.alpha_to_coverage_enable
    &&& !d.independent_blend_enable
    &&& forall|i: int| 0 <= i < 8 ==> is_default_render_target_blend(#[trigger] d.render_target@[i])
}

impl Default for BlendDesc {
    /// The documented blend defaults.
    fn default() -> (r: Self)
        ensures
            is_default_blend(r),
    {
        BlendDesc {
            alpha_to_coverage_enable: false,
            independent_blend_enable: false,
            render_target: [RenderTargetBlendDesc::default(); 8],
        }
    }
}

/// The flat form of one render target's blend configuration, in native field
/// order with native integer codes.
#[derive(Clone, Copy, Debug, PartialEq, Eq, Structural)]
pub struct FlatRenderTargetBlendDesc {
    /// Native boolean: whether blending is enabled.
    pub blend_enable: u32,
    /// Native boolean: whether the logical operation is enabled.
    pub logic_op_enable: u32,
    /// Native code of the source color weight.
    pub src_blend: u32,
    /// Native code of the destination color weight.
    pub dest_blend: u32,
    /// Native code of the color operation.
    pub blend_op: u32,
    /// Native code of the source alpha weight.
    pub src_blend_alpha: u32,
    /// Native code of the destination alpha weight.
    pub dest_blend_alpha: u32,
    /// Native code of the alpha operation.
    pub blend_op_alpha: u32,
    /// Native code of the logical operation.
    pub logic_op: u32,
    /// Bit mask of the color channels written.
    pub render_target_write_mask: u8,
}

/// The flat form of the blend sub-descriptor, in native field order.
#[derive(Clone, Copy, Debug)]
pub struct FlatBlendDesc {
    /// Native boolean: whether alpha-to-coverage is enabled.
    pub alpha_to_coverage_enable: u32,
    /// Native boolean: whether targets blend independently.
    pub independent_blend_enable: u32,
    /// Flat blend configuration of each render-target slot.
    pub render_target: [FlatRenderTargetBlendDesc; 8],
}

/// The native 32-bit boolean of `b`.
pub open spec fn bool_u32(b: bool) -> u32 {
    if b {
        1
    } else {
        0
    }
}

/// Holds exactly when `f` is the flat form of one render target's blend
/// configuration `d`.
pub open spec fn rt_blend_matches(d: RenderTargetBlendDesc, f: FlatRenderTargetBlendDesc) -> bool {
    &&& f.blend_enable == bool_u32(d.blend_enable)
    &&& f.logic_op_enable == bool_u32(d.logic_op_enable)
    &&& f.src_blend == d.src_blend.spec_u32()
    &&& f.dest_blend == d.dest_blend.spec_u32()
    &&& f.blend_op == d.blend_op.spec_u32()
    &&& f.src_blend_alpha == d.src_blend_alpha.spec_u32()
    &&& f.dest_blend_alpha == d.dest_blend_alpha.spec_u32()
    &&& f.blend_op_alpha == d.blend_op_alpha.spec_u32()
    &&& f.logic_op == d.logic_op.spec_u32()
    &&& f.render_target_write_mask == d.render_target_write_mask
}

/// Holds exactly when `f` is the flat form of the blend sub-descriptor `d`.
pub open spec fn blend_matches(d: BlendDesc, f: FlatBlendDesc) -> bool {
    &&& f.alpha_to_coverage_enable == bool_u32(d.alpha_to_coverage_enable)
    &&& f.independent_blend_enable == bool_u32(d.independent_blend_enable)
    &&& forall|i: int|
        0 <= i < 8 ==> rt_blend_matches(d.render_target@[i], #[trigger] f.render_target@[i])
}

impl RenderTargetBlendDesc {
    /// Converts one render target's blend configuration into its flat form,
    /// field by field.
    pub fn to_flat(&self) -> (r: FlatRenderTargetBlendDesc)
        ensures
            rt_blend_matches(*self, r),
    {
        FlatRenderTargetBlendDesc {
            blend_enable: if self.blend_enable { 1 } else { 0 },
            logic_op_enable: if self.logic_op_enable { 1 } else { 0 },
            src_blend: self.src_blend.as_u32(),
            dest_blend: self.dest_blend.as_u32(),
            blend_op: self.blend_op.as_u32(),
            src_blend_alpha: self.src_blend_alpha.as_u32(),
            dest_blend_alpha: self.dest_blend_alpha.as_u32(),
            blend_op_alpha: self.blend_op_alpha.as_u32(),
            logic_op: self.logic_op.as_u32(),
            render_target_write_mask: self.render_target_write_mask,
        }
    }
}

impl BlendDesc {
    /// Converts the blend sub-descriptor into its flat form, field by field,
    /// every render-target slot included.
    pub fn to_flat(&self) -> (r: FlatBlendDesc)
        ensures
            blend_matches(*self, r),
    {
        let render_target = [
            self.render_target[0].to_flat(),
            self.render_target[1].to_flat(),
            self.render_target[2].to_flat(),
            self.render_target[3].to_flat(),
            self.render_target[4].to_flat(),
            self.render_target[5].to_flat(),
            self.render_target[6].to_flat(),
            self.render_target[7].to_flat(),
        ];
        FlatBlendDesc {
            alpha_to_coverage_enable: if self.alpha_to_coverage_enable { 1 } else { 0 },
            independent_blend_enable: if self.independent_blend_enable { 1 } else { 0 },
            render_target,
        }
    }
}

} // verus!
