use image::{DynamicImage, GrayImage, RgbImage, RgbaImage};
use opengl_book_examples::textures::{
    PixelFormat, Texture, TextureCall, TextureError, TextureParameter, TextureReply, TextureSetting,
};

fn load_until_decode(is_png: bool, handle: u32) -> Texture {
    let mut texture = Texture::load_texture(is_png);
    assert_eq!(texture.next_call(), Some(TextureCall::Generate));
    texture.advance(TextureReply::Handle(handle));
    assert_eq!(texture.next_call(), Some(TextureCall::Bind { texture: handle }));
    texture.advance(TextureReply::Done);
    assert_eq!(
        texture.next_call(),
        Some(TextureCall::Parameter { parameter: TextureParameter::WrapS, setting: TextureSetting::Repeat })
    );
    texture.advance(TextureReply::Done);
    assert_eq!(
        texture.next_call(),
        Some(TextureCall::Parameter { parameter: TextureParameter::WrapT, setting: TextureSetting::Repeat })
    );
    texture.advance(TextureReply::Done);
    assert_eq!(
        texture.next_call(),
        Some(TextureCall::Parameter {
            parameter: TextureParameter::MinFilter,
            setting: TextureSetting::LinearMipmapLinear
        })
    );
    texture.advance(TextureReply::Done);
    assert_eq!(
        texture.next_call(),
        Some(TextureCall::Parameter { parameter: TextureParameter::MagFilter, setting: TextureSetting::Linear })
    );
    texture.advance(TextureReply::Done);
    assert_eq!(texture.next_call(), Some(TextureCall::Decode));
    assert!(!texture.is_finished());
    texture
}

#[test]
fn texture_is_uploaded_upside_down() {
    let mut texture = load_until_decode(false, 4);
    let image = RgbImage::from_raw(1, 2, vec![1, 2, 3, 4, 5, 6]).unwrap();
    texture.advance(TextureReply::Decoded(DynamicImage::ImageRgb8(image)));
    assert_eq!(
        texture.next_call(),
        Some(TextureCall::Image {
            internal_format: PixelFormat::Rgb,
            width: 1,
            height: 2,
            format: PixelFormat::Rgb
        })
    );
    assert_eq!(texture.pixels(), &vec![4, 5, 6, 1, 2, 3]);
    texture.advance(TextureReply::Done);
    assert_eq!(texture.next_call(), Some(TextureCall::Mipmap));
    texture.advance(TextureReply::Done);
    assert_eq!(texture.next_call(), None);
    assert!(texture.is_finished());
    assert!(matches!(texture.finish(), Some(Ok(4))));
}

#[test]
fn rows_keep_their_pixels_in_order() {
    let mut texture = load_until_decode(false, 1);
    let image = RgbImage::from_raw(2, 3, (0u8..18).collect()).unwrap();
    texture.advance(TextureReply::Decoded(DynamicImage::ImageRgb8(image)));
    assert_eq!(texture.pixels(), &vec![12, 13, 14, 15, 16, 17, 6, 7, 8, 9, 10, 11, 0, 1, 2, 3, 4, 5]);
    assert_eq!(
        texture.next_call(),
        Some(TextureCall::Image {
            internal_format: PixelFormat::Rgb,
            width: 2,
            height: 3,
            format: PixelFormat::Rgb
        })
    );
}

#[test]
fn png_flag_reads_the_pixels_with_alpha() {
    let mut texture = load_until_decode(true, 2);
    let image = RgbaImage::from_raw(1, 2, vec![1, 2, 3, 4, 5, 6, 7, 8]).unwrap();
    texture.advance(TextureReply::Decoded(DynamicImage::ImageRgba8(image)));
    assert_eq!(
        texture.next_call(),
        Some(TextureCall::Image {
            internal_format: PixelFormat::Rgb,
            width: 1,
            height: 2,
            format: PixelFormat::Rgba
        })
    );
    assert_eq!(texture.pixels(), &vec![5, 6, 7, 8, 1, 2, 3, 4]);
}

#[test]
fn pixel_type_of_the_image_is_not_looked_at() {
    let mut texture = load_until_decode(true, 2);
    let image = GrayImage::from_raw(2, 2, vec![1, 2, 3, 4]).unwrap();
    texture.advance(TextureReply::Decoded(DynamicImage::ImageLuma8(image)));
    assert_eq!(
        texture.next_call(),
        Some(TextureCall::Image {
            internal_format: PixelFormat::Rgb,
            width: 2,
            height: 2,
            format: PixelFormat::Rgba
        })
    );
    assert_eq!(texture.pixels(), &vec![3, 4, 1, 2]);
}

#[test]
fn empty_image_uploads_nothing() {
    let mut texture = load_until_decode(false, 2);
    texture.advance(TextureReply::Decoded(DynamicImage::new_rgb8(0, 0)));
    assert_eq!(
        texture.next_call(),
        Some(TextureCall::Image {
            internal_format: PixelFormat::Rgb,
            width: 0,
            height: 0,
            format: PixelFormat::Rgb
        })
    );
    assert!(texture.pixels().is_empty());
}

#[test]
fn decode_error_is_handed_on() {
    let mut texture = load_until_decode(false, 3);
    let error = image::load_from_memory(&[0, 1, 2, 3]).unwrap_err();
    let text = error.to_string();
    texture.advance(TextureReply::DecodeFailed(error));
    assert_eq!(texture.next_call(), None);
    assert!(texture.is_finished());
    match texture.finish() {
        Some(Err(TextureError::Decode(handed))) => assert_eq!(handed.to_string(), text),
        _ => panic!("the load did not fail with the decoder's error"),
    }
}

#[test]
fn unfinished_load_has_no_outcome() {
    let texture = load_until_decode(false, 3);
    assert!(texture.finish().is_none());
}

#[test]
fn load_ignores_answers_of_the_wrong_kind() {
    let mut texture = Texture::load_texture(false);
    texture.advance(TextureReply::Done);
    texture.advance(TextureReply::Decoded(DynamicImage::new_rgb8(1, 1)));
    assert_eq!(texture.next_call(), Some(TextureCall::Generate));
    texture.advance(TextureReply::Handle(5));
    texture.advance(TextureReply::Handle(6));
    assert_eq!(texture.next_call(), Some(TextureCall::Bind { texture: 5 }));
    let mut waiting = load_until_decode(false, 1);
    waiting.advance(TextureReply::Done);
    waiting.advance(TextureReply::Handle(3));
    assert_eq!(waiting.next_call(), Some(TextureCall::Decode));
}
