//! GPU-resident texture resources, identified by opaque ids.

use vstd::prelude::*;

verus! {

/// A reference to a texture view held by the GPU, identified by an opaque
/// numeric id. Two references denote the same view exactly when their ids are
/// equal.
#[derive(Clone, Copy, Debug, PartialEq, Eq, Structural)]
pub struct TextureView {
    pub id: u64,
}

/// A reference to a GPU sampler, identified by an opaque numeric id.
#[derive(Clone, Copy, Debug, PartialEq, Eq, Structural)]
pub struct Sampler {
    pub id: u64,
}

/// A texture that has finished loading and resides on the GPU. The binding
/// resolver reads its view; everything else about the texture stays with the
/// asset pipeline.
#[derive(Clone, Copy, Debug, PartialEq, Eq, Structural)]
pub struct GpuImage {
    pub texture_view: TextureView,
}

/// The process-wide fallback cubemap: a default texture view and the shared
/// sampler for the environment-map binding group, both guaranteed available
/// before any resolution call.
#[derive(Clone, Copy, Debug, PartialEq, Eq, Structural)]
pub struct FallbackImageCubemap {
    pub texture_view: TextureView,
    pub sampler: Sampler,
}

} // verus!
