//! The binding resolver: picks the three bindings for a camera's
//! environment-map resource group, falling back pairwise to the default
//! cubemap when either texture is missing.

use vstd::prelude::*;

use crate::light::EnvironmentMapLight;
use crate::render_assets::RenderAssets;
use crate::texture::FallbackImageCubemap;
use crate::texture::GpuImage;
use crate::texture::Sampler;
use crate::texture::TextureView;

verus! {

/// The record a camera carries, if any, as a plain value.
pub open spec fn light_value(light: Option<&EnvironmentMapLight>) -> Option<EnvironmentMapLight> {
    match light {
        Some(l) => Some(*l),
        None => None,
    }
}

/// What the resolver binds for a given record and cache snapshot: the two
/// real texture views when both handles resolve, the fallback view in both
/// texture slots otherwise, and always the shared fallback sampler.
pub open spec fn resolved_bindings(
    light: Option<EnvironmentMapLight>,
    images: Map<u128, GpuImage>,
    fallback: FallbackImageCubemap,
) -> (TextureView, TextureView, Sampler) {
    match light {
        Some(l) => if l.is_loaded_spec(images) {
            (
                images[l.diffuse_map.id].texture_view,
                images[l.specular_map.id].texture_view,
                fallback.sampler,
            )
        } else {
            (fallback.texture_view, fallback.texture_view, fallback.sampler)
        },
        None => (fallback.texture_view, fallback.texture_view, fallback.sampler),
    }
}

/// Resolves the three bindings (diffuse view, specular view, sampler) for a
/// camera's environment-map resource group. Resolution never fails: a camera
/// without a record, or a record whose textures are not all resident, gets
/// the fallback cubemap in both texture slots. The result is only good for
/// the current frame, since assets may load or unload between frames.
pub fn get_bindings(
    environment_map_light: Option<&EnvironmentMapLight>,
    images: &RenderAssets,
    fallback_image_cubemap: &FallbackImageCubemap,
) -> (r: (TextureView, TextureView, Sampler))
    ensures
        r == resolved_bindings(
            light_value(environment_map_light),
            images@,
            *fallback_image_cubemap,
        ),
{
    let diffuse = match environment_map_light {
        Some(env_map) => images.get(&env_map.diffuse_map),
        None => None,
    };
    let specular = match environment_map_light {
        Some(env_map) => images.get(&env_map.specular_map),
        None => None,
    };
    let (diffuse_map, specular_map) = match (diffuse, specular) {
        (Some(diffuse_image), Some(specular_image)) => {
            (diffuse_image.texture_view, specular_image.texture_view)
        },
        _ => (fallback_image_cubemap.texture_view, fallback_image_cubemap.texture_view),
    };
    (diffuse_map, specular_map, fallback_image_cubemap.sampler)
}

/// Pairwise fallback: when exactly one of the record's two handles resolves
/// in the cache, both texture slots fall back together — the resolver never
/// binds one real view next to one fallback view.
pub proof fn lemma_pairwise_fallback(
    light: EnvironmentMapLight,
    images: Map<u128, GpuImage>,
    fallback: FallbackImageCubemap,
)
    requires
        images.contains_key(light.diffuse_map.id) != images.contains_key(light.specular_map.id),
    ensures
        resolved_bindings(Some(light), images, fallback) == (
            fallback.texture_view,
            fallback.texture_view,
            fallback.sampler,
        ),
{
}

/// Full success: when both handles resolve, the resolver binds the two real
/// texture views, in record order, and the shared fallback sampler.
pub proof fn lemma_full_success(
    light: EnvironmentMapLight,
    images: Map<u128, GpuImage>,
    fallback: FallbackImageCubemap,
)
    requires
        images.contains_key(light.diffuse_map.id),
        images.contains_key(light.specular_map.id),
    ensures
        resolved_bindings(Some(light), images, fallback) == (
            images[light.diffuse_map.id].texture_view,
            images[light.specular_map.id].texture_view,
            fallback.sampler,
        ),
{
}

/// Absent record: a camera without an environment light gets the fallback
/// view in both texture slots and the fallback sampler — the same bindings
/// as a record neither of whose textures is resident.
pub proof fn lemma_absent_record(
    light: EnvironmentMapLight,
    images: Map<u128, GpuImage>,
    fallback: FallbackImageCubemap,
)
    requires
        !images.contains_key(light.diffuse_map.id),
        !images.contains_key(light.specular_map.id),
    ensures
        resolved_bindings(None, images, fallback) == (
            fallback.texture_view,
            fallback.texture_view,
            fallback.sampler,
        ),
        resolved_bindings(None, images, fallback) == resolved_bindings(
            Some(light),
            images,
            fallback,
        ),
{
}

/// Readiness consistency: provided no resident texture shares its view with
/// the fallback cubemap, the record is loaded exactly when resolution binds a
/// non-fallback view in both texture slots.
pub proof fn lemma_readiness_consistency(
    light: EnvironmentMapLight,
    images: Map<u128, GpuImage>,
    fallback: FallbackImageCubemap,
)
    requires
        forall|k: u128| images.contains_key(k) ==> images[k].texture_view != fallback.texture_view,
    ensures
        light.is_loaded_spec(images) <==> (resolved_bindings(Some(light), images, fallback).0
            != fallback.texture_view && resolved_bindings(Some(light), images, fallback).1
            != fallback.texture_view),
{
}

/// Idempotence: resolution is a pure function of the record and the cache
/// snapshot, so any two resolutions over an unchanged snapshot agree.
pub proof fn lemma_resolution_idempotent(
    light: Option<EnvironmentMapLight>,
    images: Map<u128, GpuImage>,
    fallback: FallbackImageCubemap,
    r1: (TextureView, TextureView, Sampler),
    r2: (TextureView, TextureView, Sampler),
)
    requires
        r1 == resolved_bindings(light, images, fallback),
        r2 == resolved_bindings(light, images, fallback),
    ensures
        r1 == r2,
{
}

} // verus!
