//! Texture descriptions: what a GPU layer needs to know to create a texture,
//! fill it, sample it and bind it.

pub mod pixels;
pub mod simpletexture;

use vstd::prelude::*;

verus! {

/// The shader stages that can see a binding.
#[derive(Clone, Copy, Debug, PartialEq, Eq)]
pub struct ShaderStage {
    pub vertex: bool,
    pub fragment: bool,
    pub compute: bool,
}

/// How a shader addresses the texels of a texture view.
#[derive(Clone, Copy, Debug, PartialEq, Eq)]
pub enum TextureViewDimension {
    D1,
    D2,
    D2Array,
    Cube,
    CubeArray,
    D3,
}

/// The type a shader reads when it samples a texture.
#[derive(Clone, Copy, Debug, PartialEq, Eq)]
pub enum TextureComponentType {
    Float,
    Sint,
    Uint,
}

/// The kind of resource that a binding slot takes.
#[derive(Clone, Copy, Debug, PartialEq, Eq)]
pub enum BindingType {
    SampledTexture {
        dimension: TextureViewDimension,
        component_type: TextureComponentType,
        multisampled: bool,
    },
    Sampler { comparison: bool },
}

/// One slot of a bind group layout.
#[derive(Clone, Copy, Debug, PartialEq, Eq)]
pub struct BindGroupLayoutEntry {
    pub binding: u32,
    pub visibility: ShaderStage,
    pub ty: BindingType,
}

/// The resource that fills a binding slot of a texture's bind group.
#[derive(Clone, Copy, Debug, PartialEq, Eq)]
pub enum BindingResource {
    TextureView,
    Sampler,
}

/// One filled slot of a bind group.
#[derive(Clone, Copy, Debug, PartialEq, Eq)]
pub struct Binding {
    pub binding: u32,
    pub resource: BindingResource,
}

/// The size of a texture in texels.
#[derive(Clone, Copy, Debug, PartialEq, Eq)]
pub struct Extent3d {
    pub width: u32,
    pub height: u32,
    pub depth: u32,
}

/// A position inside a texture.
#[derive(Clone, Copy, Debug, PartialEq, Eq)]
pub struct Origin3d {
    pub x: u32,
    pub y: u32,
    pub z: u32,
}

/// The number of dimensions of a texture.
#[derive(Clone, Copy, Debug, PartialEq, Eq)]
pub enum TextureDimension {
    D1,
    D2,
    D3,
}

/// How the four bytes of an RGBA texel are read.
#[derive(Clone, Copy, Debug, PartialEq, Eq)]
pub enum TexelFormat {
    /// Linear colour.
    Rgba8Unorm,
    /// sRGB colour.
    Rgba8UnormSrgb,
}

/// What a texture may be used for.
#[derive(Clone, Copy, Debug, PartialEq, Eq)]
pub struct TextureUsage {
    pub copy_src: bool,
    pub copy_dst: bool,
    pub sampled: bool,
    pub storage: bool,
    pub output_attachment: bool,
}

/// Everything needed to create a texture.
#[derive(Clone, Copy, Debug, PartialEq, Eq)]
pub struct TextureDescriptor {
    pub size: Extent3d,
    pub mip_level_count: u32,
    pub sample_count: u32,
    pub dimension: TextureDimension,
    pub format: TexelFormat,
    pub usage: TextureUsage,
}

/// The part of a texture that a copy writes to.
#[derive(Clone, Copy, Debug, PartialEq, Eq)]
pub struct TextureCopyView {
    pub mip_level: u32,
    pub origin: Origin3d,
}

/// How the bytes handed to a texture copy are laid out.
#[derive(Clone, Copy, Debug, PartialEq, Eq)]
pub struct TextureDataLayout {
    pub offset: u64,
    /// `None` where the length of a row does not fit in 32 bits.
    pub bytes_per_row: Option<u32>,
    /// Zero where the data holds a single image.
    pub rows_per_image: u32,
}

/// What a sampler does with coordinates outside the texture.
#[derive(Clone, Copy, Debug, PartialEq, Eq)]
pub enum AddressMode {
    ClampToEdge,
    Repeat,
    MirrorRepeat,
}

/// How a sampler picks between neighbouring texels.
#[derive(Clone, Copy, Debug, PartialEq, Eq)]
pub enum FilterMode {
    Nearest,
    Linear,
}

/// A comparison between a new value and a stored one.
#[derive(Clone, Copy, Debug, PartialEq, Eq)]
pub enum CompareFunction {
    Never,
    Less,
    Equal,
    LessEqual,
    Greater,
    NotEqual,
    GreaterEqual,
    Always,
}

/// Everything needed to create a sampler. The two level-of-detail clamps are
/// whole numbers.
#[derive(Clone, Copy, Debug, PartialEq, Eq)]
pub struct SamplerDescriptor {
    pub address_mode_u: AddressMode,
    pub address_mode_v: AddressMode,
    pub address_mode_w: AddressMode,
    pub mag_filter: FilterMode,
    pub min_filter: FilterMode,
    pub mipmap_filter: FilterMode,
    pub lod_min_clamp: i32,
    pub lod_max_clamp: i32,
    pub compare: Option<CompareFunction>,
}

/// A texture ready to be created on a device: its description, the bytes to
/// copy into it, its sampler and its bind group.
#[derive(Clone, Debug, PartialEq, Eq)]
pub struct TextureData {
    pub texture: TextureDescriptor,
    pub copy_view: TextureCopyView,
    pub data_layout: TextureDataLayout,
    pub data: Vec<u8>,
    pub sampler: SamplerDescriptor,
    pub layout: Vec<BindGroupLayoutEntry>,
    pub bindings: Vec<Binding>,
    pub label: String,
}

} // verus!
