use vstd::prelude::*;
use crate::bind_group::{
    bind_group_for, fills, BindGroupEntry, BindGroupLayoutEntry, BindingResource, BindingType,
    ShaderStages,
};
use crate::simple_pipeline::CompareFunction;
use crate::state::SurfaceConfiguration;

verus! {

/// `image::DynamicImage`, a decoded image. Nothing is known of what is
/// inside but what `image_size` and `image_rgba8` name.
#[verifier::external_type_specification]
#[verifier::external_body]
pub struct ExDynamicImage(image::DynamicImage);

/// `image::ImageError`, why an image could not be decoded. It is only
/// carried from the decoder to where it becomes a `TextureError`.
#[verifier::external_type_specification]
#[verifier::external_body]
pub struct ExImageError(image::ImageError);

/// Width and height of an image, as `GenericImageView::dimensions` gives
/// them.
pub uninterp spec fn image_size(img: image::DynamicImage) -> (u32, u32);

/// The pixels of an image as 8-bit RGBA, row by row, as
/// `DynamicImage::to_rgba8` gives them.
pub uninterp spec fn image_rgba8(img: image::DynamicImage) -> Seq<u8>;

/// Calls `image::load_from_memory`, which guesses the format from the bytes
/// and decodes them. Nothing is claimed of the outcome: a decoder may pick
/// its arithmetic by the processor it runs on and may fail for want of a
/// worker thread, so the same bytes need not give the same image twice.
#[verifier::external_body]
fn load_from_memory(bytes: &[u8]) -> (res: Result<image::DynamicImage, image::ImageError>) {
    image::load_from_memory(bytes)
}

/// Calls `GenericImageView::dimensions` on a decoded image. Claimed: the
/// result is determined by the image.
#[verifier::external_body]
fn dimensions(img: &image::DynamicImage) -> (size: (u32, u32))
    ensures
        size == image_size(*img),
{
    image::GenericImageView::dimensions(img)
}

/// Calls `DynamicImage::to_rgba8` and takes the buffer out of the result.
/// The conversion allocates four bytes per pixel; it counts them as four
/// times the width, times the height, and panics where either product does
/// not fit a `usize`. Claimed: the result is determined by the image and
/// holds exactly four bytes per pixel.
#[verifier::external_body]
fn to_rgba8(img: &image::DynamicImage) -> (pixels: Vec<u8>)
    requires
        4 * image_size(*img).0 <= usize::MAX,
        4 * image_size(*img).0 * image_size(*img).1 <= usize::MAX,
    ensures
        pixels@ == image_rgba8(*img),
        pixels@.len() == 4 * image_size(*img).0 * image_size(*img).1,
{
    img.to_rgba8().into_raw()
}

/// The texel formats that the scene uses.
#[derive(Clone, Copy, Debug, PartialEq, Eq, Structural)]
pub enum TextureFormat {
    /// Linear 8-bit RGBA, for normal maps.
    Rgba8Unorm,
    /// sRGB-encoded 8-bit RGBA, for color data.
    Rgba8UnormSrgb,
    /// 32-bit float depth.
    Depth32Float,
}

#[derive(Clone, Copy, Debug, PartialEq, Eq, Structural)]
pub enum TextureDimension {
    D1,
    D2,
    D3,
}

#[derive(Clone, Copy, Debug, PartialEq, Eq, Structural)]
pub struct Extent3d {
    pub width: u32,
    pub height: u32,
    pub depth_or_array_layers: u32,
}

/// What a texture may be used for.
#[derive(Clone, Copy, Debug, PartialEq, Eq, Structural)]
pub struct TextureUsages {
    pub copy_dst: bool,
    pub texture_binding: bool,
    pub render_attachment: bool,
}

#[derive(Clone, Copy, Debug, PartialEq, Eq, Structural)]
pub struct TextureDescriptor {
    pub size: Extent3d,
    pub mip_level_count: u32,
    pub sample_count: u32,
    pub dimension: TextureDimension,
    pub format: TextureFormat,
    pub usage: TextureUsages,
}

/// How pixel data handed to the GPU is laid out. `None` stands for a count
/// of zero, which is not passed on.
#[derive(Clone, Copy, Debug, PartialEq, Eq, Structural)]
pub struct ImageDataLayout {
    pub offset: u64,
    pub bytes_per_row: Option<u32>,
    pub rows_per_image: Option<u32>,
}

#[derive(Clone, Copy, Debug, PartialEq, Eq, Structural)]
pub enum AddressMode {
    ClampToEdge,
    Repeat,
    MirrorRepeat,
}

#[derive(Clone, Copy, Debug, PartialEq, Eq, Structural)]
pub enum FilterMode {
    Nearest,
    Linear,
}

/// A sampler's configuration. `lod_max_clamp` is the highest level of detail
/// as a whole number, `None` where it is unbounded; the lowest is 0.
#[derive(Clone, Copy, Debug, PartialEq, Eq, Structural)]
pub struct SamplerDescriptor {
    pub address_mode_u: AddressMode,
    pub address_mode_v: AddressMode,
    pub address_mode_w: AddressMode,
    pub mag_filter: FilterMode,
    pub min_filter: FilterMode,
    pub mipmap_filter: FilterMode,
    pub compare: Option<CompareFunction>,
    pub lod_max_clamp: Option<u32>,
}

/// Why no texture came out of a run of bytes.
#[derive(Clone, Copy, Debug, PartialEq, Eq, Structural)]
pub enum TextureError {
    /// The bytes are not an image that can be decoded.
    Decode,
    /// The image is too wide for a row of it to be counted in 32 bits, or
    /// too large for its pixels to be counted at all.
    TooLarge,
}

/// What is to be created on the GPU for one texture.
#[derive(Clone, Debug)]
pub struct Texture {
    pub descriptor: TextureDescriptor,
    pub sampler: SamplerDescriptor,
    /// The pixels to upload; empty for a texture that is only rendered to.
    pub pixels: Vec<u8>,
    /// How `pixels` are laid out; `None` where there is nothing to upload.
    pub data_layout: Option<ImageDataLayout>,
    /// The layout of the texture's bind group; `None` for a texture that is
    /// never bound as a material.
    pub layout: Option<Vec<BindGroupLayoutEntry>>,
}

/// The format of the depth attachment.
pub open spec fn depth_format() -> TextureFormat {
    TextureFormat::Depth32Float
}

/// The layout of a texture's bind group.
pub open spec fn texture_bind_group_layout() -> Seq<BindGroupLayoutEntry> {
    seq![
        BindGroupLayoutEntry {
            binding: 0,
            visibility: ShaderStages { vertex: false, fragment: true },
            ty: BindingType::FilterableTexture2d,
        },
        BindGroupLayoutEntry {
            binding: 1,
            visibility: ShaderStages { vertex: false, fragment: true },
            ty: BindingType::FilteringSampler,
        },
    ]
}

/// The descriptor of a sampled texture of the given size: one layer, one mip
/// level, one sample; linear RGBA for a normal map, sRGB otherwise.
pub open spec fn sampled_descriptor(width: u32, height: u32, is_normal_map: bool) -> TextureDescriptor {
    TextureDescriptor {
        size: Extent3d { width, height, depth_or_array_layers: 1 },
        mip_level_count: 1,
        sample_count: 1,
        dimension: TextureDimension::D2,
        format: if is_normal_map {
            TextureFormat::Rgba8Unorm
        } else {
            TextureFormat::Rgba8UnormSrgb
        },
        usage: TextureUsages { copy_dst: true, texture_binding: true, render_attachment: false },
    }
}

/// The layout of tightly packed RGBA rows: four bytes per pixel.
pub open spec fn rgba_layout(width: u32, height: u32) -> ImageDataLayout {
    ImageDataLayout {
        offset: 0,
        bytes_per_row: if width == 0 {
            None
        } else {
            Some((4 * width) as u32)
        },
        rows_per_image: if height == 0 {
            None
        } else {
            Some(height)
        },
    }
}

/// The sampler of a material texture.
pub open spec fn material_sampler() -> SamplerDescriptor {
    SamplerDescriptor {
        address_mode_u: AddressMode::Repeat,
        address_mode_v: AddressMode::Repeat,
        address_mode_w: AddressMode::Repeat,
        mag_filter: FilterMode::Linear,
        min_filter: FilterMode::Nearest,
        mipmap_filter: FilterMode::Nearest,
        compare: None,
        lod_max_clamp: None,
    }
}

/// The descriptor of a depth attachment of the given size.
pub open spec fn depth_descriptor(width: u32, height: u32) -> TextureDescriptor {
    TextureDescriptor {
        size: Extent3d { width, height, depth_or_array_layers: 1 },
        mip_level_count: 1,
        sample_count: 1,
        dimension: TextureDimension::D2,
        format: depth_format(),
        usage: TextureUsages { copy_dst: false, texture_binding: true, render_attachment: true },
    }
}

/// The sampler of a depth attachment.
pub open spec fn depth_sampler() -> SamplerDescriptor {
    SamplerDescriptor {
        address_mode_u: AddressMode::ClampToEdge,
        address_mode_v: AddressMode::ClampToEdge,
        address_mode_w: AddressMode::ClampToEdge,
        mag_filter: FilterMode::Linear,
        min_filter: FilterMode::Linear,
        mipmap_filter: FilterMode::Nearest,
        compare: Some(CompareFunction::LessEqual),
        lod_max_clamp: Some(100u32),
    }
}

/// Whether an image of the given width and height can be uploaded: the
/// bytes of one row can be counted in 32 bits and the bytes of all rows in a
/// `usize`.
pub open spec fn uploadable(size: (u32, u32)) -> bool {
    &&& 4 * size.0 <= u32::MAX
    &&& 4 * size.0 * size.1 <= usize::MAX
}

impl Texture {
    /// Whether this is the material texture made of an image of the given
    /// width and height with the given RGBA pixels.
    pub open spec fn is_material(&self, size: (u32, u32), pixels: Seq<u8>, is_normal_map: bool) -> bool {
        &&& self.descriptor == sampled_descriptor(size.0, size.1, is_normal_map)
        &&& self.sampler == material_sampler()
        &&& self.pixels@ == pixels
        &&& self.pixels@.len() == 4 * size.0 * size.1
        &&& self.data_layout == Some(rgba_layout(size.0, size.1))
        &&& self.layout matches Some(entries)
        &&& entries@ == texture_bind_group_layout()
    }

    /// Whether this is the depth attachment of a surface of the given size.
    pub open spec fn is_depth(&self, width: u32, height: u32) -> bool {
        &&& self.descriptor == depth_descriptor(width, height)
        &&& self.sampler == depth_sampler()
        &&& self.pixels@.len() == 0
        &&& self.data_layout is None
        &&& self.layout is None
    }

    /// Decodes an image and plans its upload as a material texture. Whether
    /// the bytes decode, and to what, is the decoder's; whatever it gives, a
    /// texture that comes out is the material texture of an image that can
    /// be uploaded, and an error is `Decode` or `TooLarge`. What is returned
    /// for each outcome of the decoder is what `from_decoded` states.
    pub fn from_bytes(bytes: &[u8], is_normal_map: bool) -> (res: Result<Texture, TextureError>)
        ensures
            match res {
                Ok(t) => exists|size: (u32, u32), pixels: Seq<u8>|
                    uploadable(size) && #[trigger] t.is_material(size, pixels, is_normal_map),
                Err(e) => e == TextureError::Decode || e == TextureError::TooLarge,
            },
    {
        Self::from_decoded(load_from_memory(bytes), is_normal_map)
    }

    /// Plans the upload of what the decoder gave. An error of the decoder
    /// becomes `Decode`; an image that cannot be uploaded becomes `TooLarge`;
    /// any other image becomes its material texture.
    pub fn from_decoded(
        outcome: Result<image::DynamicImage, image::ImageError>,
        is_normal_map: bool,
    ) -> (res: Result<Texture, TextureError>)
        ensures
            match outcome {
                Err(_) => res matches Err(e) && e == TextureError::Decode,
                Ok(img) => if uploadable(image_size(img)) {
                    res matches Ok(t) && t.is_material(image_size(img), image_rgba8(img), is_normal_map)
                } else {
                    res matches Err(e) && e == TextureError::TooLarge
                },
            },
    {
        match outcome {
            Err(_) => Err(TextureError::Decode),
            Ok(img) => {
                if Self::can_upload(&img) {
                    Self::from_image(&img, is_normal_map)
                } else {
                    Err(TextureError::TooLarge)
                }
            },
        }
    }

    /// Whether an image can be uploaded.
    pub fn can_upload(img: &image::DynamicImage) -> (ok: bool)
        ensures
            ok == uploadable(image_size(*img)),
    {
        let (width, height) = dimensions(img);
        if width > u32::MAX / 4 {
            return false;
        }
        let row: u64 = 4 * (width as u64);
        assert(row * height <= 0x4_0000_0000 * 0x1_0000_0000) by (nonlinear_arith)
            requires
                0 <= row <= 0x4_0000_0000,
                0 <= height <= 0x1_0000_0000,
        ;
        let total: u128 = (row as u128) * (height as u128);
        assert(total == 4 * width * height) by (nonlinear_arith)
            requires
                total == row * height,
                row == 4 * width,
        ;
        total <= usize::MAX as u128
    }

    /// Plans the upload of a decoded image as a material texture: the
    /// texture that `from_rgba8` makes of the image's size and of its pixels
    /// as 8-bit RGBA.
    pub fn from_image(img: &image::DynamicImage, is_normal_map: bool) -> (res: Result<Texture, TextureError>)
        requires
            uploadable(image_size(*img)),
        ensures
            res matches Ok(t) && t.is_material(image_size(*img), image_rgba8(*img), is_normal_map),
    {
        let pixels = to_rgba8(img);
        let (width, height) = dimensions(img);
        Ok(Self::from_rgba8(width, height, pixels, is_normal_map))
    }

    /// Plans the upload of tightly packed RGBA rows as a material texture: a
    /// two-dimensional texture of the given size, sRGB unless the image is a
    /// normal map, the pixels with four bytes per pixel in a row, a
    /// repeating sampler, and the texture bind group layout.
    pub fn from_rgba8(width: u32, height: u32, pixels: Vec<u8>, is_normal_map: bool) -> (t: Texture)
        requires
            4 * width <= u32::MAX,
            pixels@.len() == 4 * width * height,
        ensures
            t.is_material((width, height), pixels@, is_normal_map),
    {
        let descriptor = TextureDescriptor {
            size: Extent3d { width, height, depth_or_array_layers: 1 },
            mip_level_count: 1,
            sample_count: 1,
            dimension: TextureDimension::D2,
            format: if is_normal_map {
                TextureFormat::Rgba8Unorm
            } else {
                TextureFormat::Rgba8UnormSrgb
            },
            usage: TextureUsages { copy_dst: true, texture_binding: true, render_attachment: false },
        };
        let data_layout = ImageDataLayout {
            offset: 0,
            bytes_per_row: nonzero(4 * width),
            rows_per_image: nonzero(height),
        };
        let sampler = SamplerDescriptor {
            address_mode_u: AddressMode::Repeat,
            address_mode_v: AddressMode::Repeat,
            address_mode_w: AddressMode::Repeat,
            mag_filter: FilterMode::Linear,
            min_filter: FilterMode::Nearest,
            mipmap_filter: FilterMode::Nearest,
            compare: None,
            lod_max_clamp: None,
        };
        let layout = create_texture_bind_group_layout();
        Texture { descriptor, sampler, pixels, data_layout: Some(data_layout), layout: Some(layout) }
    }

    /// Plans the depth attachment of a surface: a 32-bit float depth texture
    /// of the surface's size that is rendered to and may be sampled, with a
    /// clamping, comparing sampler; nothing to upload and no bind group.
    pub fn create_depth_texture(config: &SurfaceConfiguration) -> (t: Texture)
        ensures
            t.is_depth(config.width, config.height),
    {
        let descriptor = TextureDescriptor {
            size: Extent3d { width: config.width, height: config.height, depth_or_array_layers: 1 },
            mip_level_count: 1,
            sample_count: 1,
            dimension: TextureDimension::D2,
            format: TextureFormat::Depth32Float,
            usage: TextureUsages { copy_dst: false, texture_binding: true, render_attachment: true },
        };
        let sampler = SamplerDescriptor {
            address_mode_u: AddressMode::ClampToEdge,
            address_mode_v: AddressMode::ClampToEdge,
            address_mode_w: AddressMode::ClampToEdge,
            mag_filter: FilterMode::Linear,
            min_filter: FilterMode::Linear,
            mipmap_filter: FilterMode::Nearest,
            compare: Some(CompareFunction::LessEqual),
            lod_max_clamp: Some(100),
        };
        Texture { descriptor, sampler, pixels: Vec::new(), data_layout: None, layout: None }
    }

    /// The texture's bind group: its view in slot 0 and its sampler in slot
    /// 1, filling the texture bind group layout.
    pub fn create_bind_group(&self) -> (entries: Vec<BindGroupEntry>)
        ensures
            entries@ == seq![
                BindGroupEntry { binding: 0, resource: BindingResource::TextureView },
                BindGroupEntry { binding: 1, resource: BindingResource::Sampler },
            ],
            fills(entries@, texture_bind_group_layout()),
    {
        let layout = create_texture_bind_group_layout();
        let entries = bind_group_for(&layout);
        assert(entries@[0] == (BindGroupEntry { binding: 0, resource: BindingResource::TextureView }));
        assert(entries@[1] == (BindGroupEntry { binding: 1, resource: BindingResource::Sampler }));
        assert(entries@ =~= seq![
            BindGroupEntry { binding: 0, resource: BindingResource::TextureView },
            BindGroupEntry { binding: 1, resource: BindingResource::Sampler },
        ]);
        entries
    }

    /// The layout of the texture's bind group. Only a material texture has
    /// one.
    pub fn get_layout(&self) -> (entries: &Vec<BindGroupLayoutEntry>)
        requires
            self.layout is Some,
        ensures
            self.layout == Some(*entries),
    {
        self.layout.as_ref().unwrap()
    }
}

/// A count as the GPU takes it: `None` for zero.
fn nonzero(n: u32) -> (r: Option<u32>)
    ensures
        r == (if n == 0 { None } else { Some(n) }),
{
    if n == 0 {
        None
    } else {
        Some(n)
    }
}

/// The layout of a texture's bind group: the texture in slot 0 and its
/// sampler in slot 1, both seen by the fragment stage. Every call gives the
/// same layout.
pub fn create_texture_bind_group_layout() -> (entries: Vec<BindGroupLayoutEntry>)
    ensures
        entries@ == texture_bind_group_layout(),
{
    let mut entries: Vec<BindGroupLayoutEntry> = Vec::new();
    entries.push(
        BindGroupLayoutEntry {
            binding: 0,
            visibility: ShaderStages { vertex: false, fragment: true },
            ty: BindingType::FilterableTexture2d,
        },
    );
    entries.push(
        BindGroupLayoutEntry {
            binding: 1,
            visibility: ShaderStages { vertex: false, fragment: true },
            ty: BindingType::FilteringSampler,
        },
    );
    assert(entries@ =~= texture_bind_group_layout());
    entries
}

} // verus!
