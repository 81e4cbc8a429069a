//! The stream-output sub-descriptor.
//!
//! A stream-output description owns a sequence of declaration entries and a
//! table of buffer strides; its flat form preserves both sequences, their
//! order and their lengths exactly. An empty description (the default)
//! contributes a zeroed stream-output field to the aggregate descriptor.

use vstd::prelude::*;

verus! {

/// One stream-output declaration entry.
#[derive(Clone, Debug)]
pub struct SoDeclarationEntry {
    /// The output stream the entry reads from.
    pub stream: u32,
    /// The shader semantic written out.
    pub semantic_name: String,
    /// Index distinguishing entries that share a semantic name.
    pub semantic_index: u32,
    /// First vector component written.
    pub start_component: u8,
    /// Number of vector components written.
    pub component_count: u8,
    /// The stream-output buffer written to.
    pub output_slot: u8,
}

/// The flat form of one declaration entry. The semantic name is carried
/// verbatim.
#[derive(Clone, Debug)]
pub struct FlatSoDeclarationEntry {
    /// The output stream.
    pub stream: u32,
    /// The shader semantic, verbatim.
    pub semantic_name: String,
    /// Semantic index.
    pub semantic_index: u32,
    /// First vector component written.
    pub start_component: u8,
    /// Number of vector components written.
    pub component_count: u8,
    /// The stream-output buffer written to.
    pub output_slot: u8,
}

/// Holds exactly when `f` is the flat form of the declaration entry `e`.
pub open spec fn so_entry_matches(e: SoDeclarationEntry, f: FlatSoDeclarationEntry) -> bool {
    &&& f.stream == e.stream
    &&& f.semantic_name@ == e.semantic_name@
    &&& f.semantic_index == e.semantic_index
    &&& f.start_component == e.start_component
    &&& f.component_count == e.component_count
    &&& f.output_slot == e.output_slot
}

impl SoDeclarationEntry {
    /// Converts one declaration entry into its flat form, field by field.
    pub fn to_flat(&self) -> (r: FlatSoDeclarationEntry)
        ensures
            so_entry_matches(*self, r),
    {
        FlatSoDeclarationEntry {
            stream: self.stream,
            semantic_name: self.semantic_name.clone(),
            semantic_index: self.semantic_index,
            start_component: self.start_component,
            component_count: self.component_count,
            output_slot: self.output_slot,
        }
    }
}

/// The stream-output sub-descriptor builder: declaration entries, buffer
/// strides and the rasterized stream.
#[derive(Clone, Debug)]
pub struct DescBuilder {
    /// The declaration entries, in order.
    pub so_declarations: Vec<SoDeclarationEntry>,
    /// Byte stride of each stream-output buffer.
    pub buffer_strides: Vec<u32>,
    /// Index of the stream sent to the rasterizer.
    pub rasterized_stream: u32,
}

/// Holds exactly when `d` carries the documented stream-output defaults: no
/// declarations, no strides, stream zero rasterized.
pub open spec fn is_default_stream_output(d: DescBuilder) -> bool {
    &&& d.so_declarations@.len() == 0
    &&& d.buffer_strides@.len() == 0
    &&& d.rasterized_stream == 0
}

impl Default for DescBuilder {
    /// An empty stream-output description.
    fn default() -> (r: Self)
        ensures
            is_default_stream_output(r),
    {
        DescBuilder { so_declarations: Vec::new(), buffer_strides: Vec::new(), rasterized_stream: 0 }
    }
}

/// The flat form of the stream-output sub-descriptor. The entry and stride
/// counts of the native layout are the lengths of the two sequences.
#[derive(Clone, Debug)]
pub struct FlatStreamOutputDesc {
    /// Flat declaration entries, in order.
    pub so_declarations: Vec<FlatSoDeclarationEntry>,
    /// Byte stride of each stream-output buffer, in order.
    pub buffer_strides: Vec<u32>,
    /// Index of the stream sent to the rasterizer.
    pub rasterized_stream: u32,
}

/// Holds exactly when `f` is the flat form of the stream-output
/// sub-descriptor `d`.
pub open spec fn stream_output_matches(d: DescBuilder, f: FlatStreamOutputDesc) -> bool {
    &&& f.so_declarations@.len() == d.so_declarations@.len()
    &&& forall|i: int|
        0 <= i < d.so_declarations@.len() ==> so_entry_matches(
            d.so_declarations@[i],
            #[trigger] f.so_declarations@[i],
        )
    &&& f.buffer_strides@ == d.buffer_strides@
    &&& f.rasterized_stream == d.rasterized_stream
}

impl DescBuilder {
    /// Produces the flat stream-output description: one flat entry per
    /// declaration, the strides verbatim, both in order.
    pub fn build(&self) -> (r: FlatStreamOutputDesc)
        ensures
            stream_output_matches(*self, r),
    {
        let mut declarations: Vec<FlatSoDeclarationEntry> = Vec::new();
        let mut i: usize = 0;
        while i < self.so_declarations.len()
            invariant
                i <= self.so_declarations@.len(),
                declarations@.len() == i,
                forall|j: int|
                    0 <= j < i ==> so_entry_matches(
                        self.so_declarations@[j],
                        #[trigger] declarations@[j],
                    ),
            decreases self.so_declarations@.len() - i,
        {
            declarations.push(self.so_declarations[i].to_flat());
            i = i + 1;
        }
        FlatStreamOutputDesc {
            so_declarations: declarations,
            buffer_strides: copy_strides(&self.buffer_strides),
            rasterized_stream: self.rasterized_stream,
        }
    }
}

/// Copies a stride table, preserving its contents exactly.
fn copy_strides(src: &Vec<u32>) -> (r: Vec<u32>)
    ensures
        r@ == src@,
{
    let mut r: Vec<u32> = Vec::new();
    let mut i: usize = 0;
    while i < src.len()
        invariant
            i <= src.len(),
            r@.len() == i,
            forall|j: int| 0 <= j < i ==> r@[j] == src@[j],
        decreases src.len() - i,
    {
        r.push(src[i]);
        i = i + 1;
    }
    proof {
        assert(r@ =~= src@);
    }
    r
}

} // verus!
