//! Image-based ambient lighting for a real-time renderer: per-camera
//! environment-map records, a readiness check against an asset cache, a
//! binding resolver with pairwise fallback, and the fixed binding layout
//! consumed by the shading pass.

pub mod bindings;
pub mod handle;
pub mod layout;
pub mod light;
pub mod render_assets;
pub mod texture;

pub use bindings::get_bindings;
pub use handle::Handle;
pub use layout::get_bind_group_layout_entries;
pub use layout::BindGroupLayoutEntry;
pub use layout::SamplerBindingType;
pub use layout::TextureSampleType;
pub use light::EnvironmentMapLight;
pub use render_assets::RenderAssets;
pub use texture::FallbackImageCubemap;
pub use texture::GpuImage;
pub use texture::Sampler;
pub use texture::TextureView;
