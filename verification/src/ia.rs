//! The input-layout sub-descriptor and input-assembler enumerations.
//!
//! An input layout is an ordered sequence of input-element descriptors. Its
//! flat form preserves the sequence's order and length exactly: the aggregate
//! descriptor consumes the `(elements, count)` view produced here during one
//! `build` call.

use vstd::prelude::*;
use crate::format::DxgiFormat;

verus! {

/// Sentinel offset asking the device to append the element right after the
/// previous one.
pub const APPEND_ALIGNED_ELEMENT: u32 = 0xffff_ffff;

/// The index value that cuts a primitive strip.
#[allow(non_camel_case_types)]
#[derive(Clone, Copy, Debug, PartialEq, Eq, Structural)]
pub enum StripCutValue {
    /// No cut value: strips are never cut.
    DISABLED,
    /// The maximum 16-bit index cuts the strip.
    MAX_U16,
    /// The maximum 32-bit index cuts the strip.
    MAX_U32,
}

impl StripCutValue {
    /// The native integer code of the strip-cut value.
    pub open spec fn spec_u32(self) -> u32 {
        match self {
            StripCutValue::DISABLED => 0,
            StripCutValue::MAX_U16 => 1,
            StripCutValue::MAX_U32 => 2,
        }
    }

    /// The native integer code, as the flat descriptor holds it.
    pub fn as_u32(&self) -> (r: u32)
        ensures
            r == self.spec_u32(),
    {
        match self {
            StripCutValue::DISABLED => 0,
            StripCutValue::MAX_U16 => 1,
            StripCutValue::MAX_U32 => 2,
        }
    }
}

impl Default for StripCutValue {
    /// Strips are never cut.
    fn default() -> (r: Self)
        ensures
            r == StripCutValue::DISABLED,
    {
        StripCutValue::DISABLED
    }
}

/// The kind of primitive a pipeline state assembles.
#[allow(non_camel_case_types)]
#[derive(Clone, Copy, Debug, PartialEq, Eq, Structural)]
pub enum PrimitiveTopologyType {
    /// No topology given.
    UNDEFINED,
    /// Points.
    POINT,
    /// Lines.
    LINE,
    /// Triangles.
    TRIANGLE,
    /// Tessellation patches.
    PATCH,
}

impl PrimitiveTopologyType {
    /// The native integer code of the topology kind.
    pub open spec fn spec_u32(self) -> u32 {
        match self {
            PrimitiveTopologyType::UNDEFINED => 0,
            PrimitiveTopologyType::POINT => 1,
            PrimitiveTopologyType::LINE => 2,
            PrimitiveTopologyType::TRIANGLE => 3,
            PrimitiveTopologyType::PATCH => 4,
        }
    }

    /// The native integer code, as the flat descriptor holds it.
    pub fn as_u32(&self) -> (r: u32)
        ensures
            r == self.spec_u32(),
    {
        match self {
            PrimitiveTopologyType::UNDEFINED => 0,
            PrimitiveTopologyType::POINT => 1,
            PrimitiveTopologyType::LINE => 2,
            PrimitiveTopologyType::TRIANGLE => 3,
            PrimitiveTopologyType::PATCH => 4,
        }
    }
}

/// Whether an input element advances per vertex or per instance.
#[allow(non_camel_case_types)]
#[derive(Clone, Copy, Debug, PartialEq, Eq, Structural)]
pub enum InputClassification {
    /// One value per vertex.
    PER_VERTEX_DATA,
    /// One value per instance.
    PER_INSTANCE_DATA,
}

impl InputClassification {
    /// The native integer code of the classification.
    pub open spec fn spec_u32(self) -> u32 {
        match self {
            InputClassification::PER_VERTEX_DATA => 0,
            InputClassification::PER_INSTANCE_DATA => 1,
        }
    }

    /// The native integer code, as the flat descriptor holds it.
    pub fn as_u32(&self) -> (r: u32)
        ensures
            r == self.spec_u32(),
    {
        match self {
            InputClassification::PER_VERTEX_DATA => 0,
            InputClassification::PER_INSTANCE_DATA => 1,
        }
    }
}

/// One element of an input layout.
#[derive(Clone, Debug)]
pub struct InputElementDesc {
    /// The shader semantic the element binds to.
    pub semantic_name: String,
    /// Index distinguishing elements that share a semantic name.
    pub semantic_index: u32,
    /// Format of the element's data.
    pub format: DxgiFormat,
    /// Input slot the element is fetched from.
    pub input_slot: u32,
    /// Byte offset of the element within its slot, or
    /// [`APPEND_ALIGNED_ELEMENT`].
    pub aligned_byte_offset: u32,
    /// Whether the element advances per vertex or per instance.
    pub input_slot_class: InputClassification,
    /// How many instances draw before the element advances; zero for
    /// per-vertex data.
    pub instance_data_step_rate: u32,
}

/// The flat form of one input element, in native field order with native
/// integer codes. The semantic name is carried verbatim.
#[derive(Clone, Debug)]
pub struct FlatInputElementDesc {
    /// The shader semantic, verbatim.
    pub semantic_name: String,
    /// Index distinguishing elements that share a semantic name.
    pub semantic_index: u32,
    /// Format code of the element's data.
    pub format: DxgiFormat,
    /// Input slot the element is fetched from.
    pub input_slot: u32,
    /// Byte offset of the element within its slot.
    pub aligned_byte_offset: u32,
    /// Native code of the classification.
    pub input_slot_class: u32,
    /// Instance step rate.
    pub instance_data_step_rate: u32,
}

/// Holds exactly when `f` is the flat form of the input element `e`.
pub open spec fn input_element_matches(e: InputElementDesc, f: FlatInputElementDesc) -> bool {
    &&& f.semantic_name@ == e.semantic_name@
    &&& f.semantic_index == e.semantic_index
    &&& f.format == e.format
    &&& f.input_slot == e.input_slot
    &&& f.aligned_byte_offset == e.aligned_byte_offset
    &&& f.input_slot_class == e.input_slot_class.spec_u32()
    &&& f.instance_data_step_rate == e.instance_data_step_rate
}

impl InputElementDesc {
    /// Converts one input element into its flat form, field by field.
    pub fn to_flat(&self) -> (r: FlatInputElementDesc)
        ensures
            input_element_matches(*self, r),
    {
        FlatInputElementDesc {
            semantic_name: self.semantic_name.clone(),
            semantic_index: self.semantic_index,
            format: self.format,
            input_slot: self.input_slot,
            aligned_byte_offset: self.aligned_byte_offset,
            input_slot_class: self.input_slot_class.as_u32(),
            instance_data_step_rate: self.instance_data_step_rate,
        }
    }
}

/// The input-layout sub-descriptor: an ordered sequence of input elements.
#[derive(Clone, Debug)]
pub struct InputLayoutBuilder {
    /// The elements, in binding order.
    pub elements: Vec<InputElementDesc>,
}

impl Default for InputLayoutBuilder {
    /// An empty layout.
    fn default() -> (r: Self)
        ensures
            r.elements@.len() == 0,
    {
        InputLayoutBuilder { elements: Vec::new() }
    }
}

impl InputLayoutBuilder {
    /// Produces the layout's flat `(elements, count)` view: one flat element
    /// per element, in the same order.
    pub fn build(&self) -> (r: Vec<FlatInputElementDesc>)
        ensures
            r@.len() == self.elements@.len(),
            forall|i: int|
                0 <= i < self.elements@.len() ==> input_element_matches(
                    self.elements@[i],
                    #[trigger] r@[i],
                ),
    {
        let mut r: Vec<FlatInputElementDesc> = Vec::new();
        let mut i: usize = 0;
        while i < self.elements.len()
            invariant
                i <= self.elements@.len(),
                r@.len() == i,
                forall|j: int|
                    0 <= j < i ==> input_element_matches(self.elements@[j], #[trigger] r@[j]),
            decreases self.elements@.len() - i,
        {
            r.push(self.elements[i].to_flat());
            i = i + 1;
        }
        r
    }
}

} // verus!
