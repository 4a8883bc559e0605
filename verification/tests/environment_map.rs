use environment_map::BindGroupLayoutEntry;
use environment_map::EnvironmentMapLight;
use environment_map::FallbackImageCubemap;
use environment_map::GpuImage;
use environment_map::Handle;
use environment_map::RenderAssets;
use environment_map::Sampler;
use environment_map::SamplerBindingType;
use environment_map::TextureSampleType;
use environment_map::TextureView;
use environment_map::get_bind_group_layout_entries;
use environment_map::get_bindings;

fn fallback() -> FallbackImageCubemap {
    FallbackImageCubemap {
        texture_view: TextureView { id: 99 },
        sampler: Sampler { id: 77 },
    }
}

#[test]
fn cache_get_hits_and_misses() {
    let mut images = RenderAssets::new();
    assert_eq!(images.get(&Handle { id: 1 }), None);
    let t1 = GpuImage { texture_view: TextureView { id: 10 } };
    images.insert(Handle { id: 1 }, t1);
    assert_eq!(images.get(&Handle { id: 1 }), Some(t1));
    assert_eq!(images.get(&Handle { id: 2 }), None);
}

#[test]
fn cache_insert_replaces_existing_entry() {
    let mut images = RenderAssets::new();
    images.insert(Handle { id: 1 }, GpuImage { texture_view: TextureView { id: 10 } });
    images.insert(Handle { id: 1 }, GpuImage { texture_view: TextureView { id: 11 } });
    assert_eq!(
        images.get(&Handle { id: 1 }),
        Some(GpuImage { texture_view: TextureView { id: 11 } })
    );
}

#[test]
fn partial_cache_resolves_to_fallback_pair() {
    // Record {diffuse: H1, specular: H2}, cache holds H1 -> T1 only: not
    // loaded, and both texture slots fall back.
    let h1 = Handle { id: 1 };
    let h2 = Handle { id: 2 };
    let mut images = RenderAssets::new();
    images.insert(h1, GpuImage { texture_view: TextureView { id: 10 } });
    let light = EnvironmentMapLight { diffuse_map: h1, specular_map: h2 };
    assert!(!light.is_loaded(&images));
    let fb = fallback();
    let r = get_bindings(Some(&light), &images, &fb);
    assert_eq!(r, (fb.texture_view, fb.texture_view, fb.sampler));
}

#[test]
fn specular_only_resolves_to_fallback_pair() {
    let h1 = Handle { id: 1 };
    let h2 = Handle { id: 2 };
    let mut images = RenderAssets::new();
    images.insert(h2, GpuImage { texture_view: TextureView { id: 20 } });
    let light = EnvironmentMapLight { diffuse_map: h1, specular_map: h2 };
    assert!(!light.is_loaded(&images));
    let fb = fallback();
    let r = get_bindings(Some(&light), &images, &fb);
    assert_eq!(r, (fb.texture_view, fb.texture_view, fb.sampler));
}

#[test]
fn full_cache_resolves_to_real_views() {
    // Record {diffuse: H1, specular: H2}, cache holds H1 -> T1 and H2 -> T2:
    // loaded, and the two real views are bound with the fallback sampler.
    let h1 = Handle { id: 1 };
    let h2 = Handle { id: 2 };
    let mut images = RenderAssets::new();
    images.insert(h1, GpuImage { texture_view: TextureView { id: 10 } });
    images.insert(h2, GpuImage { texture_view: TextureView { id: 20 } });
    let light = EnvironmentMapLight { diffuse_map: h1, specular_map: h2 };
    assert!(light.is_loaded(&images));
    let fb = fallback();
    let r = get_bindings(Some(&light), &images, &fb);
    assert_eq!(r, (TextureView { id: 10 }, TextureView { id: 20 }, fb.sampler));
}

#[test]
fn absent_record_matches_both_missing() {
    let fb = fallback();
    let images = RenderAssets::new();
    let none = get_bindings(None, &images, &fb);
    assert_eq!(none, (fb.texture_view, fb.texture_view, fb.sampler));
    let light = EnvironmentMapLight {
        diffuse_map: Handle { id: 1 },
        specular_map: Handle { id: 2 },
    };
    let both_missing = get_bindings(Some(&light), &images, &fb);
    assert_eq!(none, both_missing);
}

#[test]
fn readiness_matches_non_fallback_views() {
    let h1 = Handle { id: 1 };
    let h2 = Handle { id: 2 };
    let fb = fallback();
    let light = EnvironmentMapLight { diffuse_map: h1, specular_map: h2 };

    let mut partial = RenderAssets::new();
    partial.insert(h1, GpuImage { texture_view: TextureView { id: 10 } });
    let r = get_bindings(Some(&light), &partial, &fb);
    assert!(!light.is_loaded(&partial));
    assert!(r.0 == fb.texture_view || r.1 == fb.texture_view);

    let mut full = partial.clone();
    full.insert(h2, GpuImage { texture_view: TextureView { id: 20 } });
    let r = get_bindings(Some(&light), &full, &fb);
    assert!(light.is_loaded(&full));
    assert!(r.0 != fb.texture_view && r.1 != fb.texture_view);
}

#[test]
fn resolution_is_idempotent_on_one_snapshot() {
    let h1 = Handle { id: 1 };
    let h2 = Handle { id: 2 };
    let mut images = RenderAssets::new();
    images.insert(h1, GpuImage { texture_view: TextureView { id: 10 } });
    images.insert(h2, GpuImage { texture_view: TextureView { id: 20 } });
    let light = EnvironmentMapLight { diffuse_map: h1, specular_map: h2 };
    let fb = fallback();
    let first = get_bindings(Some(&light), &images, &fb);
    let second = get_bindings(Some(&light), &images, &fb);
    assert_eq!(first, second);
}

#[test]
fn shared_handle_resolves_same_view_twice() {
    let h1 = Handle { id: 1 };
    let mut images = RenderAssets::new();
    images.insert(h1, GpuImage { texture_view: TextureView { id: 10 } });
    let light = EnvironmentMapLight { diffuse_map: h1, specular_map: h1 };
    assert!(light.is_loaded(&images));
    let fb = fallback();
    let r = get_bindings(Some(&light), &images, &fb);
    assert_eq!(r, (TextureView { id: 10 }, TextureView { id: 10 }, fb.sampler));
}

#[test]
fn layout_is_three_fixed_slots() {
    let entries = get_bind_group_layout_entries();
    assert_eq!(entries.len(), 3);
    assert_eq!(
        entries[0],
        BindGroupLayoutEntry::TextureCube {
            sample_type: TextureSampleType::Float { filterable: true },
        }
    );
    assert_eq!(
        entries[1],
        BindGroupLayoutEntry::TextureCube {
            sample_type: TextureSampleType::Float { filterable: true },
        }
    );
    assert_eq!(
        entries[2],
        BindGroupLayoutEntry::Sampler { binding_type: SamplerBindingType::Filtering }
    );
}

#[test]
fn layout_constructors_build_the_declared_slots() {
    let cube = environment_map::layout::texture_cube(TextureSampleType::Float {
        filterable: false,
    });
    assert_eq!(
        cube,
        BindGroupLayoutEntry::TextureCube {
            sample_type: TextureSampleType::Float { filterable: false },
        }
    );
    let samp = environment_map::layout::sampler(SamplerBindingType::Comparison);
    assert_eq!(
        samp,
        BindGroupLayoutEntry::Sampler { binding_type: SamplerBindingType::Comparison }
    );
}
