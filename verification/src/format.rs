//! DXGI surface formats.
//!
//! A format is carried as its native 32-bit format code and copied verbatim
//! into the flat descriptor; this layer never interprets it.

use vstd::prelude::*;

verus! {

/// A DXGI format code, carried verbatim into the flat descriptor.
pub type DxgiFormat = u32;

/// The "unknown" format; the default entry of the render-target table.
pub const DXGI_FORMAT_UNKNOWN: DxgiFormat = 0;

/// 32-bit RGB float format, three channels.
pub const DXGI_FORMAT_R32G32B32_FLOAT: DxgiFormat = 6;

/// 32-bit RG float format, two channels.
pub const DXGI_FORMAT_R32G32_FLOAT: DxgiFormat = 16;

/// 8-bit-per-channel unsigned-normalized RGBA format.
pub const DXGI_FORMAT_R8G8B8A8_UNORM: DxgiFormat = 28;

/// 24-bit depth with 8-bit stencil; the default depth-stencil-view format.
pub const DXGI_FORMAT_D24_UNORM_S8_UINT: DxgiFormat = 45;

} // verus!
