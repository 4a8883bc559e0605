//! The binding layout declared to the render graph: the slot types the
//! shading pass expects, in the order the resolver fills them.

use vstd::prelude::*;

verus! {

/// How a bound texture is sampled in the shader.
#[derive(Clone, Copy, Debug, PartialEq, Eq, Structural)]
pub enum TextureSampleType {
    Float { filterable: bool },
    Depth,
    Sint,
    Uint,
}

/// What kind of sampler a sampler slot carries.
#[derive(Clone, Copy, Debug, PartialEq, Eq, Structural)]
pub enum SamplerBindingType {
    Filtering,
    NonFiltering,
    Comparison,
}

/// One slot of a bind group layout: a cube-shaped texture or a sampler.
#[derive(Clone, Copy, Debug, PartialEq, Eq, Structural)]
pub enum BindGroupLayoutEntry {
    TextureCube { sample_type: TextureSampleType },
    Sampler { binding_type: SamplerBindingType },
}

/// A layout slot for a cube-shaped texture with the given sample type.
pub fn texture_cube(sample_type: TextureSampleType) -> (r: BindGroupLayoutEntry)
    ensures
        r == (BindGroupLayoutEntry::TextureCube { sample_type }),
{
    BindGroupLayoutEntry::TextureCube { sample_type }
}

/// A layout slot for a sampler of the given kind.
pub fn sampler(binding_type: SamplerBindingType) -> (r: BindGroupLayoutEntry)
    ensures
        r == (BindGroupLayoutEntry::Sampler { binding_type }),
{
    BindGroupLayoutEntry::Sampler { binding_type }
}

/// The three slots of the environment-map bind group, in the order the
/// shading pass consumes them and the resolver produces them: diffuse
/// cubemap, specular cubemap, shared sampler. Reordering them is a breaking
/// change against the shader.
pub open spec fn environment_map_layout() -> Seq<BindGroupLayoutEntry> {
    seq![
        BindGroupLayoutEntry::TextureCube {
            sample_type: TextureSampleType::Float { filterable: true },
        },
        BindGroupLayoutEntry::TextureCube {
            sample_type: TextureSampleType::Float { filterable: true },
        },
        BindGroupLayoutEntry::Sampler { binding_type: SamplerBindingType::Filtering },
    ]
}

/// Declares the environment-map bind group layout: always exactly the three
/// fixed slots of `environment_map_layout`, whatever the cache or any record
/// holds.
pub fn get_bind_group_layout_entries() -> (r: [BindGroupLayoutEntry; 3])
    ensures
        r@ == environment_map_layout(),
{
    let entries: [BindGroupLayoutEntry; 3] = [
        texture_cube(TextureSampleType::Float { filterable: true }),
        texture_cube(TextureSampleType::Float { filterable: true }),
        sampler(SamplerBindingType::Filtering),
    ];
    proof {
        assert(entries@ =~= environment_map_layout());
    }
    entries
}

} // verus!
