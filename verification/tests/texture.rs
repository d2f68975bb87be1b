use portal_renderer::texture::{
    decode_texture, decode_texture_as, decode_texture_in, image_file, pixel_format, uniform_name,
    upload_check, upload_of, ColorLayout, DecodedImage, Texture2D, TextureError, TextureType,
    TextureUpload,
};
use portal_renderer::jpeg::has_wide_frame;
use portal_renderer::utils::GlEnum;

const RGB_2X1: [u8; 72] = [
    137, 80, 78, 71, 13, 10, 26, 10, 0, 0, 0, 13, 73, 72, 68, 82, 0, 0, 0, 2, 0, 0, 0, 1, 8, 2, 0,
    0, 0, 123, 64, 232, 221, 0, 0, 0, 15, 73, 68, 65, 84, 120, 218, 99, 248, 207, 192, 192, 240,
    159, 1, 0, 7, 255, 1, 255, 184, 4, 53, 224, 0, 0, 0, 0, 73, 69, 78, 68, 174, 66, 96, 130,
];

const GRAY_1X2: [u8; 69] = [
    137, 80, 78, 71, 13, 10, 26, 10, 0, 0, 0, 13, 73, 72, 68, 82, 0, 0, 0, 1, 0, 0, 0, 2, 8, 0, 0,
    0, 0, 188, 234, 233, 251, 0, 0, 0, 12, 73, 68, 65, 84, 120, 218, 99, 96, 103, 56, 1, 0, 0, 225,
    0, 208, 71, 180, 102, 156, 0, 0, 0, 0, 73, 69, 78, 68, 174, 66, 96, 130,
];

const RGBA_1X1: [u8; 70] = [
    137, 80, 78, 71, 13, 10, 26, 10, 0, 0, 0, 13, 73, 72, 68, 82, 0, 0, 0, 1, 0, 0, 0, 1, 8, 6, 0,
    0, 0, 31, 21, 196, 137, 0, 0, 0, 13, 73, 68, 65, 84, 120, 218, 99, 96, 100, 98, 102, 1, 0, 0,
    25, 0, 11, 56, 4, 84, 180, 0, 0, 0, 0, 73, 69, 78, 68, 174, 66, 96, 130,
];

const GRAY_ALPHA_1X1: [u8; 68] = [
    137, 80, 78, 71, 13, 10, 26, 10, 0, 0, 0, 13, 73, 72, 68, 82, 0, 0, 0, 1, 0, 0, 0, 1, 8, 4, 0,
    0, 0, 181, 28, 12, 2, 0, 0, 0, 11, 73, 68, 65, 84, 120, 218, 99, 224, 228, 0, 0, 0, 29, 0, 18,
    150, 109, 201, 27, 0, 0, 0, 0, 73, 69, 78, 68, 174, 66, 96, 130,
];

const RGB16_1X1: [u8; 72] = [
    137, 80, 78, 71, 13, 10, 26, 10, 0, 0, 0, 13, 73, 72, 68, 82, 0, 0, 0, 1, 0, 0, 0, 1, 16, 2, 0,
    0, 0, 192, 231, 143, 157, 0, 0, 0, 15, 73, 68, 65, 84, 120, 218, 99, 96, 96, 100, 96, 98, 96,
    6, 0, 0, 21, 0, 7, 133, 12, 72, 111, 0, 0, 0, 0, 73, 69, 78, 68, 174, 66, 96, 130,
];

fn decoded(layout: ColorLayout, width: u32, height: u32) -> DecodedImage {
    DecodedImage { layout, width, height, pixels: vec![1, 2, 3] }
}

#[test]
fn uniform_prefixes() {
    assert_eq!(TextureType::Diffuse.uniform_prefix(), "texture_diffuse");
    assert_eq!(TextureType::Specular.uniform_prefix(), "texture_specular");
    assert_eq!(TextureType::Emission.uniform_prefix(), "texture_emission");
    assert_eq!(TextureType::Ambient.uniform_prefix(), "texture_ambient");
    assert_eq!(TextureType::Normal.uniform_prefix(), "texture_normal");
}

#[test]
fn only_diffuse_and_specular_are_bound() {
    assert!(TextureType::Diffuse.can_bind());
    assert!(TextureType::Specular.can_bind());
    assert!(!TextureType::Emission.can_bind());
    assert!(!TextureType::Ambient.can_bind());
    assert!(!TextureType::Normal.can_bind());
}

#[test]
fn uniform_names_are_prefix_and_number() {
    assert_eq!(uniform_name(TextureType::Diffuse, 1), "texture_diffuse1");
    assert_eq!(uniform_name(TextureType::Diffuse, 2), "texture_diffuse2");
    assert_eq!(uniform_name(TextureType::Specular, 1), "texture_specular1");
    assert_eq!(uniform_name(TextureType::Normal, 9), "texture_normal9");
}

#[test]
fn uniform_numbers_are_decimal_without_leading_zeros() {
    assert_eq!(uniform_name(TextureType::Diffuse, 0), "texture_diffuse0");
    assert_eq!(uniform_name(TextureType::Diffuse, 10), "texture_diffuse10");
    assert_eq!(uniform_name(TextureType::Ambient, 907), "texture_ambient907");
    assert_eq!(uniform_name(TextureType::Emission, 1000), "texture_emission1000");
    assert_eq!(
        uniform_name(TextureType::Specular, usize::MAX),
        format!("texture_specular{}", usize::MAX)
    );
}

#[test]
fn texture_record_keeps_what_it_was_given() {
    let t = Texture2D::from_image(5, "diffuse.jpg", TextureType::Diffuse);
    assert_eq!(t.id, 5);
    assert_eq!(t.ty, TextureType::Diffuse);
    assert_eq!(t.path, "diffuse.jpg");
}

#[test]
fn texture_clone_is_equal() {
    let t = Texture2D::from_image(9, "a/b.png", TextureType::Specular);
    assert_eq!(t.clone(), t);
}

#[test]
fn image_file_lies_in_the_directory() {
    assert_eq!(image_file("ao.jpg", "ressources/models/backpack"), "ressources/models/backpack/ao.jpg");
    assert_eq!(image_file("a.png", ""), "/a.png");
    assert_eq!(image_file("", "dir"), "dir/");
}

#[test]
fn pixel_formats_of_the_layouts() {
    assert_eq!(pixel_format(ColorLayout::Luma8), GlEnum(0x1903));
    assert_eq!(pixel_format(ColorLayout::LumaA8), GlEnum(0x8227));
    assert_eq!(pixel_format(ColorLayout::Rgb8), GlEnum(0x1907));
    assert_eq!(pixel_format(ColorLayout::Rgba8), GlEnum(0x1908));
}

#[test]
fn upload_check_accepts_luma_and_rgb() {
    assert_eq!(upload_check(&decoded(ColorLayout::Luma8, 4, 4)), None);
    assert_eq!(upload_check(&decoded(ColorLayout::Rgb8, 1, 1)), None);
    assert_eq!(upload_check(&decoded(ColorLayout::Rgb8, 0, 0)), None);
}

#[test]
fn upload_check_names_each_error() {
    assert_eq!(
        upload_check(&decoded(ColorLayout::Other, 1, 1)),
        Some(TextureError::UnsupportedLayout)
    );
    assert_eq!(
        upload_check(&decoded(ColorLayout::LumaA8, 1, 1)),
        Some(TextureError::NoInternalFormat)
    );
    assert_eq!(
        upload_check(&decoded(ColorLayout::Rgba8, 1, 1)),
        Some(TextureError::NoInternalFormat)
    );
    assert_eq!(
        upload_check(&decoded(ColorLayout::Rgb8, 0x8000_0000, 1)),
        Some(TextureError::TooLarge)
    );
    assert_eq!(
        upload_check(&decoded(ColorLayout::Luma8, 1, u32::MAX)),
        Some(TextureError::TooLarge)
    );
}

#[test]
fn upload_check_looks_at_layout_then_format_then_size() {
    assert_eq!(
        upload_check(&decoded(ColorLayout::Other, u32::MAX, u32::MAX)),
        Some(TextureError::UnsupportedLayout)
    );
    assert_eq!(
        upload_check(&decoded(ColorLayout::Rgba8, u32::MAX, 1)),
        Some(TextureError::NoInternalFormat)
    );
}

#[test]
fn upload_size_limit_is_the_signed_maximum() {
    assert_eq!(upload_check(&decoded(ColorLayout::Rgb8, 0x7FFF_FFFF, 0x7FFF_FFFF)), None);
    let upload = TextureUpload::from_decoded(decoded(ColorLayout::Rgb8, 0x7FFF_FFFF, 3));
    assert_eq!(upload.width, i32::MAX);
    assert_eq!(upload.height, 3);
}

#[test]
fn upload_of_rgb_image() {
    let img = DecodedImage { layout: ColorLayout::Rgb8, width: 2, height: 1, pixels: vec![9, 8, 7, 6, 5, 4] };
    let upload = TextureUpload::from_decoded(img);
    assert_eq!(
        upload,
        TextureUpload {
            format: GlEnum(0x1907),
            internal_format: 0x1907,
            width: 2,
            height: 1,
            pixels: vec![9, 8, 7, 6, 5, 4],
        }
    );
}

#[test]
fn upload_of_luma_image() {
    let img = DecodedImage { layout: ColorLayout::Luma8, width: 1, height: 2, pixels: vec![0, 255] };
    let upload = TextureUpload::from_decoded(img);
    assert_eq!(upload.format, GlEnum(0x1903));
    assert_eq!(upload.internal_format, 0x1903);
    assert_eq!((upload.width, upload.height), (1, 2));
    assert_eq!(upload.pixels, vec![0, 255]);
}

#[test]
fn upload_of_nothing_is_undecodable() {
    assert_eq!(upload_of(None), Err(TextureError::Undecodable));
}

#[test]
fn upload_of_decoded_image_follows_the_check() {
    assert_eq!(
        upload_of(Some(decoded(ColorLayout::Other, 1, 1))),
        Err(TextureError::UnsupportedLayout)
    );
    assert_eq!(
        upload_of(Some(decoded(ColorLayout::LumaA8, 1, 1))),
        Err(TextureError::NoInternalFormat)
    );
    assert_eq!(
        upload_of(Some(decoded(ColorLayout::Luma8, u32::MAX, 1))),
        Err(TextureError::TooLarge)
    );
    let upload = upload_of(Some(decoded(ColorLayout::Luma8, 3, 1))).unwrap();
    assert_eq!(upload.format, GlEnum(0x1903));
    assert_eq!(upload.pixels, vec![1, 2, 3]);
}

#[test]
fn decode_rgb_png() {
    let upload = decode_texture(&RGB_2X1, "textures/two.png").unwrap();
    assert_eq!(upload.format, GlEnum(0x1907));
    assert_eq!(upload.internal_format, 0x1907);
    assert_eq!(upload.width, 2);
    assert_eq!(upload.height, 1);
    assert_eq!(upload.pixels, vec![255, 0, 0, 0, 255, 0]);
}

#[test]
fn decode_gray_png() {
    let upload = decode_texture(&GRAY_1X2, "gray.PNG").unwrap();
    assert_eq!(upload.format, GlEnum(0x1903));
    assert_eq!(upload.internal_format, 0x1903);
    assert_eq!(upload.width, 1);
    assert_eq!(upload.height, 2);
    assert_eq!(upload.pixels, vec![7, 200]);
}

#[test]
fn decode_png_with_alpha_has_no_internal_format() {
    assert_eq!(decode_texture(&RGBA_1X1, "a.png"), Err(TextureError::NoInternalFormat));
    assert_eq!(decode_texture(&GRAY_ALPHA_1X1, "a.png"), Err(TextureError::NoInternalFormat));
}

#[test]
fn decode_png_with_wide_channels_is_unsupported() {
    assert_eq!(decode_texture(&RGB16_1X1, "wide.png"), Err(TextureError::UnsupportedLayout));
}

#[test]
fn decode_goes_by_the_extension() {
    assert_eq!(decode_texture(&RGB_2X1, "two.jpg"), Err(TextureError::Undecodable));
    assert_eq!(decode_texture(&RGB_2X1, "two"), Err(TextureError::Undecodable));
    assert_eq!(decode_texture(&RGB_2X1, "two.unknown"), Err(TextureError::Undecodable));
}

#[test]
fn decode_of_broken_bytes_is_undecodable() {
    assert_eq!(decode_texture(&[], "empty.png"), Err(TextureError::Undecodable));
    assert_eq!(decode_texture(&RGB_2X1[..40], "cut.png"), Err(TextureError::Undecodable));
    assert_eq!(decode_texture(&[1, 2, 3, 4], "noise.jpg"), Err(TextureError::Undecodable));
}

#[test]
fn decode_as_a_given_format() {
    let upload = decode_texture_as(&RGB_2X1, image::ImageFormat::Png).unwrap();
    assert_eq!(
        upload,
        TextureUpload {
            format: GlEnum(0x1907),
            internal_format: 0x1907,
            width: 2,
            height: 1,
            pixels: vec![255, 0, 0, 0, 255, 0],
        }
    );
    assert_eq!(
        decode_texture_as(&RGB_2X1, image::ImageFormat::Jpeg),
        Err(TextureError::Undecodable)
    );
    assert_eq!(
        decode_texture_as(&RGB_2X1, image::ImageFormat::Bmp),
        Err(TextureError::Undecodable)
    );
}

#[test]
fn decode_by_name_agrees_with_decode_as_the_format_of_the_name() {
    for bytes in [&RGB_2X1[..], &GRAY_1X2[..], &RGBA_1X1[..], &RGB16_1X1[..], &[7u8, 7, 7][..]] {
        assert_eq!(
            decode_texture(bytes, "x.png"),
            decode_texture_as(bytes, image::ImageFormat::Png)
        );
        assert_eq!(
            decode_texture(bytes, "dir/x.jpeg"),
            decode_texture_as(bytes, image::ImageFormat::Jpeg)
        );
    }
}

fn jpeg_of(pixels: &[u8], width: u32, height: u32, color: image::ColorType) -> Vec<u8> {
    let mut out: Vec<u8> = Vec::new();
    image::codecs::jpeg::JpegEncoder::new_with_quality(&mut out, 100)
        .encode(pixels, width, height, color)
        .unwrap();
    out
}

#[test]
fn decode_rgb_jpeg() {
    let (width, height) = (16u32, 8u32);
    let mut pixels = Vec::new();
    for _ in 0..width * height {
        pixels.extend_from_slice(&[200u8, 40, 90]);
    }
    let bytes = jpeg_of(&pixels, width, height, image::ColorType::Rgb8);
    let upload = decode_texture(&bytes, "ressources/textures/container.jpg").unwrap();
    assert_eq!(upload.format, GlEnum(0x1907));
    assert_eq!(upload.internal_format, 0x1907);
    assert_eq!((upload.width, upload.height), (16, 8));
    assert_eq!(upload.pixels.len(), 16 * 8 * 3);
    for (got, wanted) in upload.pixels.iter().zip(pixels.iter()) {
        assert!((i32::from(*got) - i32::from(*wanted)).abs() <= 8);
    }
}

#[test]
fn decode_gray_jpeg() {
    let (width, height) = (8u32, 8u32);
    let pixels = vec![128u8; 64];
    let bytes = jpeg_of(&pixels, width, height, image::ColorType::L8);
    let upload = decode_texture(&bytes, "gray.jpeg").unwrap();
    assert_eq!(upload.format, GlEnum(0x1903));
    assert_eq!(upload.internal_format, 0x1903);
    assert_eq!((upload.width, upload.height), (8, 8));
    assert_eq!(upload.pixels.len(), 64);
    for got in upload.pixels.iter() {
        assert!((i32::from(*got) - 128).abs() <= 8);
    }
}

#[test]
fn decode_jpeg_goes_by_the_extension_too() {
    let bytes = jpeg_of(&[10u8; 64], 8, 8, image::ColorType::L8);
    assert_eq!(decode_texture(&bytes, "gray.png"), Err(TextureError::Undecodable));
    assert!(decode_texture_as(&bytes, image::ImageFormat::Jpeg).is_ok());
}

#[test]
fn decode_without_a_format_is_undecodable() {
    assert_eq!(decode_texture_in(&RGB_2X1, None), Err(TextureError::Undecodable));
    assert_eq!(decode_texture_in(&[], None), Err(TextureError::Undecodable));
}

#[test]
fn decode_in_a_format_is_decode_as_that_format() {
    assert_eq!(
        decode_texture_in(&RGB_2X1, Some(image::ImageFormat::Png)),
        decode_texture_as(&RGB_2X1, image::ImageFormat::Png)
    );
    assert_eq!(
        decode_texture_in(&RGB_2X1, Some(image::ImageFormat::Jpeg)),
        Err(TextureError::Undecodable)
    );
}

#[test]
fn every_upload_holds_every_pixel() {
    let channels = |format: GlEnum| if format == GlEnum(0x1903) { 1 } else { 3 };
    for bytes in [&RGB_2X1[..], &GRAY_1X2[..]] {
        let upload = decode_texture(bytes, "x.png").unwrap();
        let needed = upload.width as usize * upload.height as usize * channels(upload.format);
        assert!(upload.pixels.len() >= needed);
    }
}

const LOSSLESS_FOUR_BIT: [u8; 52] = [
    0xFF, 0xD8, 0xFF, 0xC4, 0x00, 0x14, 0x00, 0x01, 0x00, 0x00, 0x00, 0x00, 0x00, 0x00, 0x00, 0x00,
    0x00, 0x00, 0x00, 0x00, 0x00, 0x00, 0x00, 0x00, 0x00, 0xFF, 0xC3, 0x00, 0x0B, 0x04, 0x00, 0x01,
    0x00, 0x01, 0x01, 0x01, 0x11, 0x00, 0xFF, 0xDA, 0x00, 0x08, 0x01, 0x01, 0x00, 0x01, 0x00, 0x00,
    0x7F, 0xFF, 0xD9, 0x00,
];

#[test]
fn lossless_jpeg_with_wide_samples_is_not_handed_to_the_decoder() {
    assert!(has_wide_frame(&LOSSLESS_FOUR_BIT));
    assert_eq!(
        decode_texture(&LOSSLESS_FOUR_BIT, "scan.jpg"),
        Err(TextureError::UnsupportedLayout)
    );
    assert_eq!(
        decode_texture_as(&LOSSLESS_FOUR_BIT, image::ImageFormat::Jpeg),
        Err(TextureError::UnsupportedLayout)
    );
    assert_eq!(
        decode_texture_in(&LOSSLESS_FOUR_BIT, Some(image::ImageFormat::Png)),
        Err(TextureError::UnsupportedLayout)
    );
    assert_eq!(decode_texture_in(&LOSSLESS_FOUR_BIT, None), Err(TextureError::Undecodable));
    assert_eq!(decode_texture(&LOSSLESS_FOUR_BIT, "scan"), Err(TextureError::Undecodable));
}

#[test]
fn lossless_frame_with_twelve_bit_colours_is_not_handed_to_the_decoder() {
    let bytes = [
        0xFF, 0xD8, 0xFF, 0xE0, 0x00, 0x04, 0x00, 0x00, 0xFF, 0xC3, 0x00, 0x11, 0x0C, 0x00, 0x02,
        0x00, 0x02, 0x03, 0x01, 0x11, 0x00, 0x02, 0x11, 0x00, 0x03, 0x11, 0x00,
    ];
    assert_eq!(
        decode_texture_as(&bytes, image::ImageFormat::Jpeg),
        Err(TextureError::UnsupportedLayout)
    );
}

#[test]
fn encoded_jpegs_hold_no_wide_frame() {
    let colours = jpeg_of(&[90u8; 8 * 8 * 3], 8, 8, image::ColorType::Rgb8);
    let gray = jpeg_of(&[90u8; 64], 8, 8, image::ColorType::L8);
    assert!(!has_wide_frame(&colours));
    assert!(!has_wide_frame(&gray));
    assert!(!has_wide_frame(&RGB_2X1));
    assert!(!has_wide_frame(&GRAY_1X2));
}
