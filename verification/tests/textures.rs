use image::{DynamicImage, ImageOutputFormat, Rgb, RgbImage};
use render_state::bind_group::{bind_group_for, BindGroupEntry, BindingResource, BindingType, ShaderStages};
use render_state::simple_pipeline::CompareFunction;
use render_state::state::SurfaceConfiguration;
use render_state::texture::{
    create_texture_bind_group_layout, AddressMode, Extent3d, FilterMode, Texture, TextureDimension,
    TextureError, TextureFormat,
};
use std::io::Cursor;

fn png_2x3() -> Vec<u8> {
    let mut img = RgbImage::new(2, 3);
    img.put_pixel(0, 0, Rgb([10, 20, 30]));
    img.put_pixel(1, 2, Rgb([40, 50, 60]));
    let mut bytes = Cursor::new(Vec::new());
    DynamicImage::ImageRgb8(img).write_to(&mut bytes, ImageOutputFormat::Png).unwrap();
    bytes.into_inner()
}

#[test]
fn decoded_image_becomes_rgba_upload() {
    let bytes = png_2x3();
    let t = Texture::from_bytes(&bytes, false).unwrap();
    assert_eq!(t.descriptor.size, Extent3d { width: 2, height: 3, depth_or_array_layers: 1 });
    assert_eq!(t.descriptor.format, TextureFormat::Rgba8UnormSrgb);
    assert_eq!(t.descriptor.dimension, TextureDimension::D2);
    assert_eq!(t.descriptor.mip_level_count, 1);
    assert_eq!(t.descriptor.sample_count, 1);
    assert!(t.descriptor.usage.copy_dst && t.descriptor.usage.texture_binding);
    assert!(!t.descriptor.usage.render_attachment);
    assert_eq!(t.pixels.len(), 24);
    assert_ne!(t.pixels, bytes);
    assert_eq!(&t.pixels[0..4], &[10, 20, 30, 255]);
    assert_eq!(&t.pixels[20..24], &[40, 50, 60, 255]);
    let layout = t.data_layout.unwrap();
    assert_eq!(layout.offset, 0);
    assert_eq!(layout.bytes_per_row, Some(8));
    assert_eq!(layout.rows_per_image, Some(3));
    assert_eq!(t.sampler.address_mode_u, AddressMode::Repeat);
    assert_eq!(t.sampler.mag_filter, FilterMode::Linear);
    assert_eq!(t.sampler.min_filter, FilterMode::Nearest);
    assert_eq!(t.sampler.compare, None);
    assert_eq!(t.sampler.lod_max_clamp, None);
    assert_eq!(t.get_layout(), &create_texture_bind_group_layout());
}

#[test]
fn normal_maps_are_linear() {
    let t = Texture::from_bytes(&png_2x3(), true).unwrap();
    assert_eq!(t.descriptor.format, TextureFormat::Rgba8Unorm);
}

#[test]
fn bytes_that_are_no_image_fail_to_decode() {
    assert_eq!(Texture::from_bytes(&[1, 2, 3, 4], false).err(), Some(TextureError::Decode));
    assert_eq!(Texture::from_bytes(&[], false).err(), Some(TextureError::Decode));
}

#[test]
fn from_image_reads_size_and_pixels() {
    let img = DynamicImage::new_luma8(3, 1);
    assert!(Texture::can_upload(&img));
    let t = Texture::from_image(&img, false).unwrap();
    assert_eq!(t.descriptor.size, Extent3d { width: 3, height: 1, depth_or_array_layers: 1 });
    assert_eq!(t.pixels, vec![0, 0, 0, 255, 0, 0, 0, 255, 0, 0, 0, 255]);
    assert_eq!(t.data_layout.unwrap().bytes_per_row, Some(12));
}

#[test]
fn empty_image_has_no_row_counts() {
    let img = DynamicImage::new_rgba8(0, 0);
    assert!(Texture::can_upload(&img));
    let t = Texture::from_image(&img, false).unwrap();
    assert!(t.pixels.is_empty());
    let layout = t.data_layout.unwrap();
    assert_eq!(layout.bytes_per_row, None);
    assert_eq!(layout.rows_per_image, None);
}

#[test]
fn too_wide_an_image_cannot_be_uploaded() {
    let widest = DynamicImage::new_luma8(1_073_741_823, 0);
    assert!(Texture::can_upload(&widest));
    let wider = DynamicImage::new_luma8(1_073_741_824, 0);
    assert!(!Texture::can_upload(&wider));
}

#[test]
fn depth_texture_follows_the_surface() {
    let t = Texture::create_depth_texture(&SurfaceConfiguration { width: 800, height: 600 });
    assert_eq!(t.descriptor.size, Extent3d { width: 800, height: 600, depth_or_array_layers: 1 });
    assert_eq!(t.descriptor.format, TextureFormat::Depth32Float);
    assert!(t.descriptor.usage.render_attachment && t.descriptor.usage.texture_binding);
    assert!(!t.descriptor.usage.copy_dst);
    assert_eq!(t.sampler.address_mode_w, AddressMode::ClampToEdge);
    assert_eq!(t.sampler.min_filter, FilterMode::Linear);
    assert_eq!(t.sampler.mipmap_filter, FilterMode::Nearest);
    assert_eq!(t.sampler.compare, Some(CompareFunction::LessEqual));
    assert_eq!(t.sampler.lod_max_clamp, Some(100));
    assert!(t.pixels.is_empty());
    assert!(t.data_layout.is_none());
    assert!(t.layout.is_none());
}

#[test]
fn texture_layout_is_texture_then_sampler() {
    let layout = create_texture_bind_group_layout();
    assert_eq!(layout.len(), 2);
    assert_eq!(layout[0].binding, 0);
    assert_eq!(layout[0].visibility, ShaderStages { vertex: false, fragment: true });
    assert_eq!(layout[0].ty, BindingType::FilterableTexture2d);
    assert_eq!(layout[1].binding, 1);
    assert_eq!(layout[1].visibility, ShaderStages { vertex: false, fragment: true });
    assert_eq!(layout[1].ty, BindingType::FilteringSampler);
    assert_eq!(layout, create_texture_bind_group_layout());
}

#[test]
fn texture_bind_group_fills_its_layout() {
    let t = Texture::create_depth_texture(&SurfaceConfiguration { width: 1, height: 1 });
    let entries = t.create_bind_group();
    assert_eq!(
        entries,
        vec![
            BindGroupEntry { binding: 0, resource: BindingResource::TextureView },
            BindGroupEntry { binding: 1, resource: BindingResource::Sampler },
        ]
    );
    assert_eq!(entries, bind_group_for(&create_texture_bind_group_layout()));
    assert!(bind_group_for(&vec![]).is_empty());
}

#[test]
fn rgba_rows_become_a_material_texture() {
    let pixels = vec![1, 2, 3, 4, 5, 6, 7, 8];
    let t = Texture::from_rgba8(2, 1, pixels.clone(), true);
    assert_eq!(t.descriptor.size, Extent3d { width: 2, height: 1, depth_or_array_layers: 1 });
    assert_eq!(t.descriptor.format, TextureFormat::Rgba8Unorm);
    assert_eq!(t.pixels, pixels);
    let layout = t.data_layout.unwrap();
    assert_eq!(layout.bytes_per_row, Some(8));
    assert_eq!(layout.rows_per_image, Some(1));
    assert_eq!(t.sampler.address_mode_v, AddressMode::Repeat);
    assert_eq!(t.get_layout(), &create_texture_bind_group_layout());

    let srgb = Texture::from_rgba8(1, 2, pixels, false);
    assert_eq!(srgb.descriptor.format, TextureFormat::Rgba8UnormSrgb);
    assert_eq!(srgb.data_layout.unwrap().bytes_per_row, Some(4));
    assert_eq!(srgb.data_layout.unwrap().rows_per_image, Some(2));

    let empty = Texture::from_rgba8(0, 5, vec![], false);
    assert_eq!(empty.data_layout.unwrap().bytes_per_row, None);
    assert_eq!(empty.data_layout.unwrap().rows_per_image, Some(5));
}

#[test]
fn each_outcome_of_the_decoder_has_its_result() {
    let failed = image::load_from_memory(&[9, 9, 9]);
    assert!(failed.is_err());
    assert_eq!(Texture::from_decoded(failed, false).err(), Some(TextureError::Decode));

    let too_wide = Ok(DynamicImage::new_luma8(1_073_741_824, 0));
    assert_eq!(Texture::from_decoded(too_wide, false).err(), Some(TextureError::TooLarge));

    let fine = Texture::from_decoded(Ok(DynamicImage::new_luma8(1, 2)), true).unwrap();
    assert_eq!(fine.descriptor.size, Extent3d { width: 1, height: 2, depth_or_array_layers: 1 });
    assert_eq!(fine.pixels, vec![0, 0, 0, 255, 0, 0, 0, 255]);
    assert_eq!(fine.descriptor.format, TextureFormat::Rgba8Unorm);
}
