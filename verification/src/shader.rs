//! Shader-bytecode slots, one type per pipeline stage.
//!
//! Each slot owns an opaque byte buffer supplied by the shader-bytecode
//! provider. The builder treats the bytes as opaque and contributes them
//! verbatim to the flat descriptor; an absent slot contributes an empty
//! bytecode field.

use vstd::prelude::*;

verus! {

/// Copies a byte buffer, preserving its contents exactly.
pub(crate) fn copy_bytes(src: &Vec<u8>) -> (r: Vec<u8>)
    ensures
        r@ == src@,
{
    let mut r: Vec<u8> = Vec::new();
    let mut i: usize = 0;
    while i < src.len()
        invariant
            i <= src.len(),
            r@.len() == i,
            forall|j: int| 0 <= j < i ==> r@[j] == src@[j],
        decreases src.len() - i,
    {
        r.push(src[i]);
        i = i + 1;
    }
    proof {
        assert(r@ =~= src@);
    }
    r
}

/// Vertex-shader bytecode.
#[derive(Clone, Debug)]
pub struct VsShaderBytecode {
    /// The opaque compiled bytecode.
    pub bytes: Vec<u8>,
}

/// Pixel-shader bytecode.
#[derive(Clone, Debug)]
pub struct PsShaderBytecode {
    /// The opaque compiled bytecode.
    pub bytes: Vec<u8>,
}

/// Domain-shader bytecode.
#[derive(Clone, Debug)]
pub struct DsShaderBytecode {
    /// The opaque compiled bytecode.
    pub bytes: Vec<u8>,
}

/// Hull-shader bytecode.
#[derive(Clone, Debug)]
pub struct HsShaderBytecode {
    /// The opaque compiled bytecode.
    pub bytes: Vec<u8>,
}

/// Geometry-shader bytecode.
#[derive(Clone, Debug)]
pub struct GsShaderBytecode {
    /// The opaque compiled bytecode.
    pub bytes: Vec<u8>,
}

/// Compute-shader bytecode.
#[derive(Clone, Debug)]
pub struct CsShaderBytecode {
    /// The opaque compiled bytecode.
    pub bytes: Vec<u8>,
}

impl VsShaderBytecode {
    /// Wraps compiled bytecode in a vertex-stage slot.
    pub fn new(bytes: Vec<u8>) -> (r: Self)
        ensures
            r.bytes@ == bytes@,
    {
        VsShaderBytecode { bytes }
    }

    /// The stage's contribution to the flat descriptor: the bytes, verbatim.
    pub fn to_shader_bytecode(&self) -> (r: Vec<u8>)
        ensures
            r@ == self.bytes@,
    {
        copy_bytes(&self.bytes)
    }
}

impl PsShaderBytecode {
    /// Wraps compiled bytecode in a pixel-stage slot.
    pub fn new(bytes: Vec<u8>) -> (r: Self)
        ensures
            r.bytes@ == bytes@,
    {
        PsShaderBytecode { bytes }
    }

    /// The stage's contribution to the flat descriptor: the bytes, verbatim.
    pub fn to_shader_bytecode(&self) -> (r: Vec<u8>)
        ensures
            r@ == self.bytes@,
    {
        copy_bytes(&self.bytes)
    }
}

impl DsShaderBytecode {
    /// Wraps compiled bytecode in a domain-stage slot.
    pub fn new(bytes: Vec<u8>) -> (r: Self)
        ensures
            r.bytes@ == bytes@,
    {
        DsShaderBytecode { bytes }
    }

    /// The stage's contribution to the flat descriptor: the bytes, verbatim.
    pub fn to_shader_bytecode(&self) -> (r: Vec<u8>)
        ensures
            r@ == self.bytes@,
    {
        copy_bytes(&self.bytes)
    }
}

impl HsShaderBytecode {
    /// Wraps compiled bytecode in a hull-stage slot.
    pub fn new(bytes: Vec<u8>) -> (r: Self)
        ensures
            r.bytes@ == bytes@,
    {
        HsShaderBytecode { bytes }
    }

    /// The stage's contribution to the flat descriptor: the bytes, verbatim.
    pub fn to_shader_bytecode(&self) -> (r: Vec<u8>)
        ensures
            r@ == self.bytes@,
    {
        copy_bytes(&self.bytes)
    }
}

impl GsShaderBytecode {
    /// Wraps compiled bytecode in a geometry-stage slot.
    pub fn new(bytes: Vec<u8>) -> (r: Self)
        ensures
            r.bytes@ == bytes@,
    {
        GsShaderBytecode { bytes }
    }

    /// The stage's contribution to the flat descriptor: the bytes, verbatim.
    pub fn to_shader_bytecode(&self) -> (r: Vec<u8>)
        ensures
            r@ == self.bytes@,
    {
        copy_bytes(&self.bytes)
    }
}

impl CsShaderBytecode {
    /// Wraps compiled bytecode in a compute-stage slot.
    pub fn new(bytes: Vec<u8>) -> (r: Self)
        ensures
            r.bytes@ == bytes@,
    {
        CsShaderBytecode { bytes }
    }

    /// The stage's contribution to the flat descriptor: the bytes, verbatim.
    pub fn to_shader_bytecode(&self) -> (r: Vec<u8>)
        ensures
            r@ == self.bytes@,
    {
        copy_bytes(&self.bytes)
    }
}

} // verus!
