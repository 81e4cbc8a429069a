//! Root-signature references.
//!
//! A root signature is owned by an external provider; this layer only copies
//! the provider's stable handle value into the flat descriptor. Builders hold
//! a borrowed reference, so the root signature is guaranteed to outlive every
//! `build` call made through them.

use vstd::prelude::*;

verus! {

/// A reference to an externally-owned root signature.
///
/// `handle` models the stable pointer value the provider hands out; the
/// builder copies it verbatim into the flat descriptor and never reads
/// through it.
#[derive(Clone, Copy, Debug, PartialEq, Eq, Structural)]
pub struct RootSig {
    /// The provider's stable handle value for the root signature.
    pub handle: u64,
}

impl RootSig {
    /// Wraps a provider handle value.
    pub fn new(handle: u64) -> (r: Self)
        ensures
            r.handle == handle,
    {
        RootSig { handle }
    }
}

} // verus!
