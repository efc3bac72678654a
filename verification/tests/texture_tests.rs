use jakar_engine::resources::texture::{
    add_alpha, brighten, decode_image, decode_image_file, image_info, pixels_from_decoded, transform, Filter, Geometry, MipmapMode,
    PixelImage, PixelLayout, SamplerAddressMode, BorderColor, TextureBuilder, TextureError, TextureFormat,
};

const RGB_2X1_PNG: [u8; 72] = [
    137, 80, 78, 71, 13, 10, 26, 10, 0, 0, 0, 13, 73, 72, 68, 82, 0, 0, 0, 2, 0, 0, 0, 1, 8, 2, 0, 0, 0, 123, 64,
    232, 221, 0, 0, 0, 15, 73, 68, 65, 84, 120, 156, 99, 224, 18, 145, 211, 48, 178, 1, 0, 2, 55, 0, 211, 91, 86,
    81, 216, 0, 0, 0, 0, 73, 69, 78, 68, 174, 66, 96, 130,
];

const GRAY16_1X1_PNG: [u8; 68] = [
    137, 80, 78, 71, 13, 10, 26, 10, 0, 0, 0, 13, 73, 72, 68, 82, 0, 0, 0, 1, 0, 0, 0, 1, 16, 0, 0, 0, 0, 106, 238,
    71, 22, 0, 0, 0, 11, 73, 68, 65, 84, 120, 156, 99, 96, 100, 2, 0, 0, 7, 0, 4, 118, 73, 227, 40, 0, 0, 0, 0, 73,
    69, 78, 68, 174, 66, 96, 130,
];

const LA_1X2_PNG: [u8; 71] = [
    137, 80, 78, 71, 13, 10, 26, 10, 0, 0, 0, 13, 73, 72, 68, 82, 0, 0, 0, 1, 0, 0, 0, 2, 8, 4, 0, 0, 0, 51, 136,
    126, 172, 0, 0, 0, 14, 73, 68, 65, 84, 120, 156, 99, 96, 63, 193, 192, 153, 2, 0, 3, 191, 1, 61, 49, 111, 204,
    186, 0, 0, 0, 0, 73, 69, 78, 68, 174, 66, 96, 130,
];

fn grid(width: u32, height: u32, layout: PixelLayout, data: Vec<u8>) -> PixelImage {
    PixelImage { width, height, layout, data }
}

/// A 3 x 2 luminance image whose pixel at (x, y) has the value 10 * y + x.
fn sample_grid() -> PixelImage {
    grid(3, 2, PixelLayout::Luma8, vec![0, 1, 2, 10, 11, 12])
}

#[test]
fn decode_rgb_png() {
    let img = decode_image(&RGB_2X1_PNG).expect("valid png");
    assert_eq!((img.width, img.height), (2, 1));
    assert_eq!(img.layout, PixelLayout::Rgb8);
    assert_eq!(img.data, vec![10, 20, 30, 40, 50, 60]);
}

#[test]
fn decode_luma_alpha_png() {
    let img = decode_image(&LA_1X2_PNG).expect("valid png");
    assert_eq!((img.width, img.height, img.layout), (1, 2, PixelLayout::LumaA8));
    assert_eq!(img.data, vec![7, 200, 9, 100]);
}

#[test]
fn decode_errors() {
    assert_eq!(decode_image(&[1, 2, 3, 4]).err(), Some(TextureError::DecodeFailed));
    assert_eq!(decode_image(&[]).err(), Some(TextureError::DecodeFailed));
    assert_eq!(decode_image(&GRAY16_1X1_PNG).err(), Some(TextureError::UnsupportedLayout));
}

#[test]
fn pixels_from_decoded_trims_and_refuses() {
    assert_eq!(pixels_from_decoded(None).err(), Some(TextureError::UnsupportedLayout));
    let img = pixels_from_decoded(Some(grid(1, 1, PixelLayout::LumaA8, vec![1, 2, 3]))).unwrap();
    assert_eq!(img.data, vec![1, 2]);
}

#[test]
fn flips_and_turns() {
    let v = transform(&sample_grid(), Geometry::FlipVertical);
    assert_eq!((v.width, v.height, v.data.clone()), (3, 2, vec![10, 11, 12, 0, 1, 2]));
    let h = transform(&sample_grid(), Geometry::FlipHorizontal);
    assert_eq!(h.data, vec![2, 1, 0, 12, 11, 10]);
    let r90 = transform(&sample_grid(), Geometry::Rotate90);
    assert_eq!((r90.width, r90.height, r90.data.clone()), (2, 3, vec![10, 0, 11, 1, 12, 2]));
    let r180 = transform(&sample_grid(), Geometry::Rotate180);
    assert_eq!(r180.data, vec![12, 11, 10, 2, 1, 0]);
    let r270 = transform(&sample_grid(), Geometry::Rotate270);
    assert_eq!((r270.width, r270.height, r270.data.clone()), (2, 3, vec![2, 12, 1, 11, 0, 10]));
}

#[test]
fn turns_keep_channels_together() {
    let img = grid(2, 1, PixelLayout::LumaA8, vec![1, 2, 3, 4]);
    assert_eq!(transform(&img, Geometry::FlipHorizontal).data, vec![3, 4, 1, 2]);
    assert_eq!(transform(&img, Geometry::Rotate90).data, vec![1, 2, 3, 4]);
}

#[test]
fn law_flip_twice_is_identity_on_values() {
    for g in [Geometry::FlipVertical, Geometry::FlipHorizontal, Geometry::Rotate180] {
        let twice = transform(&transform(&sample_grid(), g), g);
        assert_eq!((twice.width, twice.height), (3, 2));
        assert_eq!(twice.data, sample_grid().data);
    }
}

#[test]
fn law_rotations_cancel_on_values() {
    let back = transform(&transform(&sample_grid(), Geometry::Rotate90), Geometry::Rotate270);
    assert_eq!((back.width, back.height, back.data), (3, 2, sample_grid().data));
}

#[test]
fn empty_image_turns() {
    let img = grid(0, 5, PixelLayout::Rgb8, vec![]);
    let r = transform(&img, Geometry::Rotate90);
    assert_eq!((r.width, r.height, r.data.len()), (5, 0, 0));
}

#[test]
fn brighten_clamps_and_keeps_alpha() {
    let img = grid(2, 1, PixelLayout::LumaA8, vec![250, 100, 3, 255]);
    assert_eq!(brighten(&img, 10).data, vec![255, 100, 13, 255]);
    assert_eq!(brighten(&img, -5).data, vec![245, 100, 0, 255]);
    let rgb = grid(1, 1, PixelLayout::Rgb8, vec![0, 128, 255]);
    assert_eq!(brighten(&rgb, i32::MAX).data, vec![255, 255, 255]);
    assert_eq!(brighten(&rgb, i32::MIN).data, vec![0, 0, 0]);
}

#[test]
fn law_brighten_by_zero_is_identity_on_values() {
    let img = grid(1, 1, PixelLayout::Rgba8, vec![1, 2, 3, 4]);
    assert_eq!(brighten(&img, 0).data, img.data);
}

#[test]
fn rgb_gets_opaque_alpha() {
    let img = grid(2, 1, PixelLayout::Rgb8, vec![1, 2, 3, 4, 5, 6]);
    let out = add_alpha(&img);
    assert_eq!(out.layout, PixelLayout::Rgba8);
    assert_eq!(out.data, vec![1, 2, 3, 255, 4, 5, 6, 255]);
}

#[test]
fn upload_formats() {
    let luma = image_info(grid(1, 1, PixelLayout::Luma8, vec![9]));
    assert_eq!((luma.format, luma.data), (TextureFormat::R8Unorm, vec![9]));
    let la = image_info(grid(1, 1, PixelLayout::LumaA8, vec![9, 8]));
    assert_eq!(la.format, TextureFormat::R8G8Unorm);
    let rgb = image_info(grid(1, 1, PixelLayout::Rgb8, vec![1, 2, 3]));
    assert_eq!((rgb.format, rgb.data), (TextureFormat::R8G8B8A8Unorm, vec![1, 2, 3, 255]));
    let rgba = image_info(grid(1, 1, PixelLayout::Rgba8, vec![1, 2, 3, 4]));
    assert_eq!((rgba.format, rgba.data), (TextureFormat::R8G8B8A8Unorm, vec![1, 2, 3, 4]));
}

#[test]
fn builder_defaults_and_setters() {
    let b = TextureBuilder::from_image("textures/stone.png");
    assert_eq!(b.image_path, "textures/stone.png");
    assert!(b.image_data.is_none());
    assert_eq!(b.mag_filter, Filter::Linear);
    assert_eq!(b.mip_map_mode, MipmapMode::Nearest);
    assert_eq!(b.address_u, SamplerAddressMode::Repeat);
    assert_eq!(f32::from_bits(b.max_anisotropy_bits), 1.0);
    let b = b
        .with_sampling_filter(Filter::Nearest, Filter::Linear)
        .with_mip_map_moe(MipmapMode::Linear)
        .with_tiling_mode(
            SamplerAddressMode::ClampToEdge,
            SamplerAddressMode::MirroredRepeat,
            SamplerAddressMode::ClampToBorder(BorderColor::IntOpaqueWhite),
        )
        .with_lod_bias_bits(0.5f32.to_bits())
        .with_blur_bits(2.0f32.to_bits())
        .with_unsharpening_bits(1.0f32.to_bits(), 3)
        .with_brightening(-4)
        .with_flipped_v()
        .with_flipped_h()
        .with_rotation_90()
        .with_rotation_180()
        .with_rotation_270();
    assert_eq!((b.mag_filter, b.min_filter), (Filter::Nearest, Filter::Linear));
    assert_eq!(b.mip_map_mode, MipmapMode::Linear);
    assert_eq!(b.address_w, SamplerAddressMode::ClampToBorder(BorderColor::IntOpaqueWhite));
    assert_eq!(f32::from_bits(b.mip_lod_bias_bits), 0.5);
    assert!(b.b_blur && b.b_unsharpen && b.b_brighten && b.b_flipv && b.b_fliph);
    assert!(b.b_rotate90 && b.b_rotate180 && b.b_rotate270);
    assert_eq!((b.sharp_threshold, b.brighten_factor), (3, -4));
}

#[test]
fn builder_from_data_decodes() {
    let b = TextureBuilder::from_data(RGB_2X1_PNG.to_vec());
    assert_eq!(b.image_path, "None");
    let img = b.decode_data().expect("data source").expect("valid png");
    assert_eq!(img.data, vec![10, 20, 30, 40, 50, 60]);
    assert!(TextureBuilder::from_image("x.png").decode_data().is_none());
    let bad = TextureBuilder::from_data(vec![0, 1]);
    assert_eq!(bad.decode_data().unwrap().err(), Some(TextureError::DecodeFailed));
}

#[test]
fn builder_steps_run_in_order() {
    let b = TextureBuilder::from_image("x.png").with_brightening(1).with_flipped_h().with_rotation_90();
    let info = b.build_image(sample_grid());
    assert_eq!((info.width, info.height), (2, 3));
    assert_eq!(info.format, TextureFormat::R8Unorm);
    assert_eq!(info.data, vec![13, 3, 12, 2, 11, 1]);
}

#[test]
fn law_default_builder_keeps_image_on_values() {
    let info = TextureBuilder::from_image("x.png").build_image(sample_grid());
    assert_eq!((info.width, info.height, info.data), (3, 2, sample_grid().data));
}

#[test]
fn decode_file_by_extension() {
    let img = decode_image_file(&RGB_2X1_PNG, "textures/stone.PNG").expect("png file");
    assert_eq!((img.width, img.height, img.layout), (2, 1, PixelLayout::Rgb8));
    assert_eq!(img.data, vec![10, 20, 30, 40, 50, 60]);
    assert_eq!(decode_image_file(&RGB_2X1_PNG, "textures/stone").err(), Some(TextureError::DecodeFailed));
    assert_eq!(decode_image_file(&RGB_2X1_PNG, "notes.txt").err(), Some(TextureError::DecodeFailed));
    assert_eq!(decode_image_file(&RGB_2X1_PNG, "stone.bmp").err(), Some(TextureError::DecodeFailed));
    assert_eq!(decode_image_file(&GRAY16_1X1_PNG, "deep.png").err(), Some(TextureError::UnsupportedLayout));
}

#[test]
fn builder_decodes_its_file() {
    let b = TextureBuilder::from_image("a/b/c.png");
    let img = b.decode_file(&LA_1X2_PNG).expect("file source").expect("valid png");
    assert_eq!(img.data, vec![7, 200, 9, 100]);
    assert!(TextureBuilder::from_data(RGB_2X1_PNG.to_vec()).decode_file(&RGB_2X1_PNG).is_none());
}

#[test]
fn guessed_and_named_formats_decode_alike() {
    let guessed = decode_image(&LA_1X2_PNG).expect("png data");
    let named = decode_image_file(&LA_1X2_PNG, "a.png").expect("png file");
    assert_eq!((guessed.width, guessed.height, guessed.layout), (named.width, named.height, named.layout));
    assert_eq!(guessed.data, named.data);
    assert_eq!(decode_image_file(&LA_1X2_PNG, "a.gif").err(), Some(TextureError::DecodeFailed));
}
