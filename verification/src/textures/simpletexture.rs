//! A two-dimensional RGBA texture with a sampler.

use crate::render_error::RenderError;
use crate::textures::pixels::{
    decode_rgba8, decoded_rgba8, flip_vertical, flipped_rows, format_from_path, path_format,
    rgba_len,
};
use crate::textures::{
    AddressMode, BindGroupLayoutEntry, Binding, BindingResource, BindingType, CompareFunction,
    Extent3d, FilterMode, Origin3d, SamplerDescriptor, ShaderStage, TexelFormat,
    TextureComponentType, TextureCopyView, TextureData, TextureDataLayout, TextureDescriptor,
    TextureDimension, TextureUsage, TextureViewDimension,
};
use std::path::PathBuf;
use vstd::prelude::*;

verus! {

/// A two-dimensional sRGB texture with 8-bit RGBA texels, sampled through one
/// sampler and visible to the vertex and the fragment stage.
pub struct SimpleTexture;

impl SimpleTexture {
    /// Slot 0 takes the texture view, slot 1 the sampler; both are visible to
    /// the vertex and the fragment stage.
    pub open spec fn layout_entries() -> Seq<BindGroupLayoutEntry> {
        seq![
            BindGroupLayoutEntry {
                binding: 0,
                visibility: ShaderStage { vertex: true, fragment: true, compute: false },
                ty: BindingType::SampledTexture {
                    dimension: TextureViewDimension::D2,
                    component_type: TextureComponentType::Float,
                    multisampled: false,
                },
            },
            BindGroupLayoutEntry {
                binding: 1,
                visibility: ShaderStage { vertex: true, fragment: true, compute: false },
                ty: BindingType::Sampler { comparison: true },
            },
        ]
    }

    /// One mip level, one sample, usable as a copy destination and for
    /// sampling.
    pub open spec fn texture_descriptor(width: u32, height: u32) -> TextureDescriptor {
        TextureDescriptor {
            size: Extent3d { width, height, depth: 1 },
            mip_level_count: 1,
            sample_count: 1,
            dimension: TextureDimension::D2,
            format: TexelFormat::Rgba8UnormSrgb,
            usage: TextureUsage {
                copy_src: false,
                copy_dst: true,
                sampled: true,
                storage: false,
                output_attachment: false,
            },
        }
    }

    /// Rows are tightly packed, four bytes to a texel.
    pub open spec fn data_layout(width: u32) -> TextureDataLayout {
        TextureDataLayout {
            offset: 0,
            bytes_per_row: if 4 * width <= u32::MAX {
                Some((4 * width) as u32)
            } else {
                None
            },
            rows_per_image: 0,
        }
    }

    /// Repeats in every direction, magnifies linearly, and always passes its
    /// comparison.
    pub open spec fn sampler_descriptor() -> SamplerDescriptor {
        SamplerDescriptor {
            address_mode_u: AddressMode::Repeat,
            address_mode_v: AddressMode::Repeat,
            address_mode_w: AddressMode::Repeat,
            mag_filter: FilterMode::Linear,
            min_filter: FilterMode::Nearest,
            mipmap_filter: FilterMode::Nearest,
            lod_min_clamp: -100i32,
            lod_max_clamp: 100i32,
            compare: Some(CompareFunction::Always),
        }
    }

    /// The texture view fills slot 0, the sampler slot 1.
    pub open spec fn bind_group_entries() -> Seq<Binding> {
        seq![
            Binding { binding: 0, resource: BindingResource::TextureView },
            Binding { binding: 1, resource: BindingResource::Sampler },
        ]
    }

    /// Whether `texture` is the simple texture of the given size that is
    /// filled with `data`.
    pub open spec fn describes(texture: TextureData, width: u32, height: u32, data: Seq<u8>) -> bool {
        &&& texture.texture == Self::texture_descriptor(width, height)
        &&& texture.copy_view == TextureCopyView { mip_level: 0, origin: Origin3d { x: 0, y: 0, z: 0 } }
        &&& texture.data_layout == Self::data_layout(width)
        &&& texture.data@ == data
        &&& texture.sampler == Self::sampler_descriptor()
        &&& texture.layout@ == Self::layout_entries()
        &&& texture.bindings@ == Self::bind_group_entries()
        &&& texture.label@ == "SimpleTextureBindGroup"@
    }

    /// The bytes of a simple texture fill its rows exactly: where the length
    /// of a row fits in 32 bits, the data is `height` rows of that length.
    pub proof fn lemma_data_fills_rows(texture: TextureData, width: u32, height: u32)
        requires
            Self::describes(texture, width, height, texture.data@),
            texture.data@.len() == rgba_len(width, height),
        ensures
            texture.data_layout.bytes_per_row matches Some(row) ==> texture.data@.len() == row
                * height,
    {
    }

    /// The layout of the bind group of every simple texture.
    pub fn get_layout() -> (entries: Vec<BindGroupLayoutEntry>)
        ensures
            entries@ == Self::layout_entries(),
    {
        let visibility = ShaderStage { vertex: true, fragment: true, compute: false };
        let mut entries: Vec<BindGroupLayoutEntry> = Vec::new();
        entries.push(
            BindGroupLayoutEntry {
                binding: 0,
                visibility,
                ty: BindingType::SampledTexture {
                    dimension: TextureViewDimension::D2,
                    component_type: TextureComponentType::Float,
                    multisampled: false,
                },
            },
        );
        entries.push(
            BindGroupLayoutEntry {
                binding: 1,
                visibility,
                ty: BindingType::Sampler { comparison: true },
            },
        );
        assert(entries@ =~= Self::layout_entries());
        entries
    }

    /// The number of bytes that an image of the given size needs.
    fn needed_bytes(width: u32, height: u32) -> (needed: u128)
        ensures
            needed == rgba_len(width, height),
    {
        assert(4 * width * height <= 4 * 0xffff_ffff * 0xffff_ffff) by (nonlinear_arith)
            requires
                0 <= width <= 0xffff_ffff,
                0 <= height <= 0xffff_ffff,
        ;
        4u128 * (width as u128) * (height as u128)
    }

    /// Describes the texture for an image whose RGBA bytes are given top row
    /// first. The texture is filled bottom row first, from the leading
    /// `4 * width * height` bytes of `data`; with fewer bytes than that there
    /// is no texture.
    pub fn from_rgba(width: u32, height: u32, data: Vec<u8>) -> (texture: Option<TextureData>)
        ensures
            texture is Some <==> data@.len() >= rgba_len(width, height),
            texture matches Some(t) ==> Self::describes(
                t,
                width,
                height,
                flipped_rows(data@.take(rgba_len(width, height) as int), width, height),
            ),
    {
        if (data.len() as u128) < Self::needed_bytes(width, height) {
            None
        } else {
            Some(Self::assemble(width, height, data))
        }
    }

    /// The texture for an image of which `data` holds at least the bytes.
    fn assemble(width: u32, height: u32, data: Vec<u8>) -> (texture: TextureData)
        requires
            data@.len() >= rgba_len(width, height),
        ensures
            Self::describes(
                texture,
                width,
                height,
                flipped_rows(data@.take(rgba_len(width, height) as int), width, height),
            ),
    {
        let needed = Self::needed_bytes(width, height);
        let mut pixels = data;
        pixels.truncate(needed as usize);
        // An image without rows has no bytes, whichever way up.
        let flipped = if height == 0 {
            assert(4 * width * height == 0) by (nonlinear_arith)
                requires
                    height == 0,
            ;
            assert(pixels@ =~= flipped_rows(pixels@, width, height));
            pixels
        } else {
            flip_vertical(width, height, pixels)
        };

        let mut bindings: Vec<Binding> = Vec::new();
        bindings.push(Binding { binding: 0, resource: BindingResource::TextureView });
        bindings.push(Binding { binding: 1, resource: BindingResource::Sampler });
        assert(bindings@ =~= Self::bind_group_entries());

        TextureData {
            texture: TextureDescriptor {
                size: Extent3d { width, height, depth: 1 },
                mip_level_count: 1,
                sample_count: 1,
                dimension: TextureDimension::D2,
                format: TexelFormat::Rgba8UnormSrgb,
                usage: TextureUsage {
                    copy_src: false,
                    copy_dst: true,
                    sampled: true,
                    storage: false,
                    output_attachment: false,
                },
            },
            copy_view: TextureCopyView { mip_level: 0, origin: Origin3d { x: 0, y: 0, z: 0 } },
            data_layout: TextureDataLayout {
                offset: 0,
                bytes_per_row: width.checked_mul(4),
                rows_per_image: 0,
            },
            data: flipped,
            sampler: SamplerDescriptor {
                address_mode_u: AddressMode::Repeat,
                address_mode_v: AddressMode::Repeat,
                address_mode_w: AddressMode::Repeat,
                mag_filter: FilterMode::Linear,
                min_filter: FilterMode::Nearest,
                mipmap_filter: FilterMode::Nearest,
                lod_min_clamp: -100,
                lod_max_clamp: 100,
                compare: Some(CompareFunction::Always),
            },
            layout: Self::get_layout(),
            bindings,
            label: "SimpleTextureBindGroup".to_owned(),
        }
    }

    /// Whether the contents of an image file with the given name decode:
    /// the extension of the name stands for a format, and the bytes are an
    /// image in that format.
    pub open spec fn decodes(path: PathBuf, bytes: Seq<u8>) -> bool {
        path_format(path) matches Some(format) && decoded_rgba8(format, bytes) is Some
    }

    /// Decodes the contents of an image file and describes the texture that
    /// shows it. `path` is the file's name, from whose extension the image
    /// format is taken; `bytes` is what the file holds. There is a texture
    /// exactly where the contents decode; it has the size of the image and
    /// is filled with the image's RGBA bytes, bottom row first. Where the
    /// contents do not decode, the codec's error comes back as
    /// `TextureLoadError`.
    pub fn load_texture(path: &PathBuf, bytes: &[u8]) -> (r: Result<TextureData, RenderError>)
        ensures
            r is Ok <==> Self::decodes(*path, bytes@),
            r matches Ok(t) ==> path_format(*path) matches Some(format) && decoded_rgba8(
                format,
                bytes@,
            ) matches Some(image) && Self::describes(
                t,
                image.0,
                image.1,
                flipped_rows(image.2.take(rgba_len(image.0, image.1) as int), image.0, image.1),
            ),
            r matches Err(e) ==> e is TextureLoadError,
    {
        let format = match format_from_path(path) {
            Ok(format) => format,
            Err(e) => {
                return Err(RenderError::TextureLoadError(e));
            },
        };
        match decode_rgba8(bytes, format) {
            Ok((width, height, rgba)) => Ok(Self::assemble(width, height, rgba)),
            Err(e) => Err(RenderError::TextureLoadError(e)),
        }
    }
}

} // verus!
