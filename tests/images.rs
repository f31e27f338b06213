use image::{DynamicImage, GenericImageView, GrayImage, ImageFormat, RgbImage};
use std::io::Cursor;
use stickerify::{encode_sticker_image, fit_to_sticker, process_image, Ext, Failure};

fn encoded(img: &DynamicImage, format: ImageFormat) -> Vec<u8> {
    let mut out = Cursor::new(Vec::new());
    img.write_to(&mut out, format).unwrap();
    out.into_inner()
}

fn gradient(w: u32, h: u32) -> RgbImage {
    RgbImage::from_fn(w, h, |x, y| image::Rgb([(x % 256) as u8, (y % 256) as u8, 128]))
}

#[test]
fn large_jpeg_becomes_webp_within_512() {
    let img = DynamicImage::ImageRgb8(gradient(3000, 2000));
    let jpeg = encoded(&img, ImageFormat::Jpeg);
    assert!(jpeg.len() < 10 << 20);
    let b = process_image(jpeg).unwrap();
    assert_eq!(b.ext, Ext::Webp);
    let out = image::load_from_memory_with_format(&b.data, ImageFormat::WebP).unwrap();
    assert_eq!(out.dimensions(), (512, 341));
}

#[test]
fn grey_image_falls_back_to_png_with_same_pixels() {
    let img = DynamicImage::ImageLuma8(GrayImage::from_fn(300, 200, |x, y| {
        image::Luma([((x * 7 + y * 3) % 256) as u8])
    }));
    let png = encoded(&img, ImageFormat::Png);
    let b = process_image(png).unwrap();
    assert_eq!(b.ext, Ext::Png);
    let out = image::load_from_memory_with_format(&b.data, ImageFormat::Png).unwrap();
    let fitted = fit_to_sticker(&img);
    assert_eq!(out.dimensions(), fitted.dimensions());
    assert!(out.width() <= 512 && out.height() <= 512);
    assert_eq!(out.as_bytes(), fitted.as_bytes());
}

#[test]
fn non_image_bytes_are_refused() {
    let r = process_image(b"this is plain text, not a picture".to_vec());
    assert!(matches!(r, Err(Failure::NotAnImage)));
    assert!(matches!(process_image(Vec::new()), Err(Failure::NotAnImage)));
}

#[test]
fn small_image_is_scaled_up_to_fit() {
    let img = DynamicImage::ImageRgb8(gradient(64, 32));
    let fitted = fit_to_sticker(&img);
    assert_eq!(fitted.dimensions(), (512, 256));
}

#[test]
fn tall_image_fits_height() {
    let img = DynamicImage::ImageRgb8(gradient(100, 1000));
    let fitted = fit_to_sticker(&img);
    assert_eq!(fitted.dimensions(), (51, 512));
}

#[test]
fn rgba_image_encodes_as_webp() {
    let img = DynamicImage::ImageRgba8(image::RgbaImage::from_pixel(
        40,
        40,
        image::Rgba([10, 20, 30, 200]),
    ));
    let fitted = fit_to_sticker(&img);
    let b = encode_sticker_image(&fitted);
    assert_eq!(b.ext, Ext::Webp);
    let out = image::load_from_memory_with_format(&b.data, ImageFormat::WebP).unwrap();
    assert_eq!(out.dimensions(), (512, 512));
}

#[test]
fn float_image_falls_back_to_sixteen_bit_png() {
    let img = DynamicImage::ImageRgb32F(image::Rgb32FImage::from_pixel(
        8,
        4,
        image::Rgb([0.5, 0.25, 1.0]),
    ));
    let fitted = fit_to_sticker(&img);
    assert_eq!(fitted.dimensions(), (512, 256));
    let b = encode_sticker_image(&fitted);
    assert_eq!(b.ext, Ext::Png);
    let out = image::load_from_memory_with_format(&b.data, ImageFormat::Png).unwrap();
    assert_eq!(out.dimensions(), (512, 256));
    assert_eq!(out.color(), image::ColorType::Rgba16);
    assert_eq!(out.to_rgba16(), fitted.to_rgba16());
}

#[test]
fn float_image_file_converts() {
    let img = DynamicImage::ImageRgb32F(image::Rgb32FImage::from_pixel(
        30,
        10,
        image::Rgb([0.1, 0.2, 0.3]),
    ));
    let tiff = encoded(&img, ImageFormat::Tiff);
    let b = process_image(tiff).unwrap();
    assert_eq!(b.ext, Ext::Png);
    let out = image::load_from_memory_with_format(&b.data, ImageFormat::Png).unwrap();
    assert_eq!(out.dimensions(), (512, 171));
}

#[test]
fn sixteen_bit_image_falls_back_to_png() {
    let img = DynamicImage::ImageRgb16(image::ImageBuffer::from_pixel(
        10,
        20,
        image::Rgb([1000u16, 2000, 3000]),
    ));
    let fitted = fit_to_sticker(&img);
    assert_eq!(fitted.dimensions(), (256, 512));
    let b = encode_sticker_image(&fitted);
    assert_eq!(b.ext, Ext::Png);
}
