//! The per-camera environment-light record and its readiness check.

use vstd::prelude::*;

use crate::handle::Handle;
use crate::render_assets::RenderAssets;
use crate::texture::GpuImage;

verus! {

/// Environment map based ambient lighting representing light from distant
/// scenery.
///
/// Attached to a camera, this record adds indirect light to every point of
/// the scene from a pair of prefiltered cubemap textures: a diffuse
/// (Lambertian) irradiance map and a specular (GGX) reflection map. The
/// record only references the two images by handle; their lifetime belongs to
/// the asset cache. Both handles are expected to name cubemap-shaped,
/// prefiltered textures; nothing here enforces that convention.
#[derive(Clone, Copy, Debug, PartialEq, Eq, Structural)]
pub struct EnvironmentMapLight {
    pub diffuse_map: Handle,
    pub specular_map: Handle,
}

impl EnvironmentMapLight {
    /// Whether both referenced textures are resident in the given cache
    /// snapshot.
    pub open spec fn is_loaded_spec(self, images: Map<u128, GpuImage>) -> bool {
        images.contains_key(self.diffuse_map.id) && images.contains_key(self.specular_map.id)
    }

    /// Whether or not all textures necessary to use the environment map have
    /// been loaded by the asset server. Purely observational: it never
    /// triggers loading.
    pub fn is_loaded(&self, images: &RenderAssets) -> (r: bool)
        ensures
            r == self.is_loaded_spec(images@),
    {
        images.get(&self.diffuse_map).is_some() && images.get(&self.specular_map).is_some()
    }
}

} // verus!
