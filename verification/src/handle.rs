//! Weak handles to image assets.

use vstd::prelude::*;

verus! {

/// A weak reference to an image asset, identified by an opaque numeric id.
///
/// A handle only names an asset for lookup in the asset cache; it never
/// controls the asset's lifetime. Two handles refer to the same asset exactly
/// when their ids are equal.
#[derive(Clone, Copy, Debug, PartialEq, Eq, Structural, Hash)]
pub struct Handle {
    pub id: u128,
}

} // verus!
