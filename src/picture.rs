//! Image conversion: decode, fit within a sticker square, encode.

use vstd::prelude::*;

use crate::blob::{bytes_of, Blob, Ext};
use crate::failure::Failure;

verus! {

#[verifier::external_type_specification]
#[verifier::external_body]
pub struct ExDynamicImage(image::DynamicImage);

#[verifier::external_type_specification]
#[verifier::external_body]
pub struct ExImageError(image::ImageError);

/// The side length that a sticker image must fit within.
pub const STICKER_SIDE: u32 = 512;

/// Whether the image stack decodes these bytes, guessing the format from the content.
pub uninterp spec fn decodes(data: Seq<u8>) -> bool;

/// The image that these bytes decode to, where they decode.
pub uninterp spec fn decoded_image(data: Seq<u8>) -> image::DynamicImage;

/// An image resized with the Lanczos3 filter to fit within the given bounds.
pub uninterp spec fn resized_image(img: image::DynamicImage, width: u32, height: u32) -> image::DynamicImage;

/// An image with its pixels converted to 16-bit RGBA.
pub uninterp spec fn rgba16_image(img: image::DynamicImage) -> image::DynamicImage;

/// The width of an image, in pixels.
pub uninterp spec fn pixel_width(img: image::DynamicImage) -> nat;

/// The height of an image, in pixels.
pub uninterp spec fn pixel_height(img: image::DynamicImage) -> nat;

/// Whether the webp encoder takes the image's pixel layout (8-bit RGB or RGBA).
pub uninterp spec fn webp_layout(img: image::DynamicImage) -> bool;

/// Whether the png encoder takes the image's pixel layout (8 or 16 bits per
/// channel; the 32-bit float layouts are refused).
pub uninterp spec fn png_layout(img: image::DynamicImage) -> bool;

/// The bytes of an image encoded as lossless webp with libwebp's default settings.
pub uninterp spec fn webp_encoding(img: image::DynamicImage) -> Seq<u8>;

/// The bytes of an image encoded as png with the image stack's default settings.
pub uninterp spec fn png_encoding(img: image::DynamicImage) -> Seq<u8>;

/// Relies on `image::load_from_memory`: decodes bytes, the format guessed from
/// their content; the outcome depends on the bytes alone.
#[verifier::external_body]
fn load_image(data: &[u8]) -> (r: Result<image::DynamicImage, image::ImageError>)
    ensures
        r.is_ok() == decodes(data@),
        r matches Ok(img) ==> img == decoded_image(data@),
{
    image::load_from_memory(data)
}

/// How a resize into a square of side `side` relates to its source: each side
/// between 1 and `side`, the longer side filling the square, and the shorter
/// side within one pixel of the exact proportion.
pub open spec fn fits_square(src: image::DynamicImage, r: image::DynamicImage, side: nat) -> bool {
    let (w, h) = (pixel_width(src), pixel_height(src));
    &&& 1 <= pixel_width(r) <= side
    &&& 1 <= pixel_height(r) <= side
    &&& (w >= h >= 1 ==> {
        &&& pixel_width(r) == side
        &&& -(w as int) <= pixel_height(r) * w - h * side <= w
    })
    &&& (h >= w >= 1 ==> {
        &&& pixel_height(r) == side
        &&& -(h as int) <= pixel_width(r) * h - w * side <= h
    })
}

/// Relies on `DynamicImage::resize`: the largest size, aspect ratio kept (each
/// side rounded, at least one pixel), that fits within the bounds; the pixel
/// layout is kept.
#[verifier::external_body]
fn resize_within(img: &image::DynamicImage, width: u32, height: u32) -> (r: image::DynamicImage)
    requires
        width >= 1,
        height >= 1,
    ensures
        r == resized_image(*img, width, height),
        1 <= pixel_width(r) <= width,
        1 <= pixel_height(r) <= height,
        width == height ==> fits_square(*img, r, width as nat),
        webp_layout(r) == webp_layout(*img),
        png_layout(r) == png_layout(*img),
{
    img.resize(width, height, image::imageops::FilterType::Lanczos3)
}

/// Relies on `DynamicImage::to_rgba16`: the same pixels as 16-bit RGBA, a
/// layout the png encoder takes.
#[verifier::external_body]
fn to_rgba16(img: &image::DynamicImage) -> (r: image::DynamicImage)
    ensures
        r == rgba16_image(*img),
        png_layout(r),
        pixel_width(r) == pixel_width(*img),
        pixel_height(r) == pixel_height(*img),
{
    image::DynamicImage::ImageRgba16(img.to_rgba16())
}

/// Relies on `webp::Encoder::from_image`, which accepts 8-bit RGB and RGBA
/// images only, and on `Encoder::encode_lossless`, which encodes an image of
/// 1 to 16383 pixels each way.
#[verifier::external_body]
fn webp_lossless(img: &image::DynamicImage) -> (r: Option<Vec<u8>>)
    requires
        1 <= pixel_width(*img) <= 16383,
        1 <= pixel_height(*img) <= 16383,
    ensures
        r.is_some() == webp_layout(*img),
        r matches Some(v) ==> v@ == webp_encoding(*img),
{
    match webp::Encoder::from_image(img) {
        Ok(e) => Some(e.encode_lossless().to_vec()),
        Err(_) => None,
    }
}

/// Relies on `DynamicImage::write_to` with `ImageFormat::Png`, writing into
/// memory: the png encoder refuses only pixel layouts it does not take.
#[verifier::external_body]
fn png_bytes(img: &image::DynamicImage) -> (r: Result<Vec<u8>, image::ImageError>)
    ensures
        pixel_width(*img) >= 1 && pixel_height(*img) >= 1 ==> (r is Ok <==> png_layout(*img)),
        r matches Ok(v) ==> v@ == png_encoding(*img),
{
    let mut out = std::io::Cursor::new(Vec::new());
    img.write_to(&mut out, image::ImageFormat::Png).map(|_| out.into_inner())
}

/// Scales an image to fit within a sticker's square, keeping its aspect ratio.
pub fn fit_to_sticker(img: &image::DynamicImage) -> (r: image::DynamicImage)
    ensures
        r == resized_image(*img, STICKER_SIDE, STICKER_SIDE),
        fits_square(*img, r, STICKER_SIDE as nat),
        webp_layout(r) == webp_layout(*img),
        png_layout(r) == png_layout(*img),
{
    resize_within(img, STICKER_SIDE, STICKER_SIDE)
}

/// The container and bytes a fitted image is sent as: lossless webp where the
/// webp encoder takes its layout, else png, converted to 16-bit RGBA first
/// where the png encoder does not take its layout either.
pub open spec fn sticker_encoding(img: image::DynamicImage) -> (Ext, Seq<u8>) {
    if webp_layout(img) {
        (Ext::Webp, webp_encoding(img))
    } else if png_layout(img) {
        (Ext::Png, png_encoding(img))
    } else {
        (Ext::Png, png_encoding(rgba16_image(img)))
    }
}

/// Encodes a fitted image as lossless webp, falling back to png.
pub fn encode_sticker_image(img: &image::DynamicImage) -> (r: Blob)
    requires
        1 <= pixel_width(*img) <= STICKER_SIDE,
        1 <= pixel_height(*img) <= STICKER_SIDE,
    ensures
        (r.ext, bytes_of(r.data)) == sticker_encoding(*img),
{
    match webp_lossless(img) {
        Some(data) => Blob::from_vec(data, Ext::Webp),
        None => match png_bytes(img) {
            Ok(data) => Blob::from_vec(data, Ext::Png),
            Err(_) => match png_bytes(&to_rgba16(img)) {
                Ok(data) => Blob::from_vec(data, Ext::Png),
                Err(_) => {
                    proof {
                        assert(false);
                    }
                    Blob::from_vec(Vec::new(), Ext::Png)
                },
            },
        },
    }
}

/// The image a file is converted from: decoded, then fitted within the sticker square.
pub open spec fn fitted_image(data: Seq<u8>) -> image::DynamicImage {
    resized_image(decoded_image(data), STICKER_SIDE, STICKER_SIDE)
}

/// Converts image bytes of any format the image stack reads into a sticker
/// image: decoded, fitted within 512 by 512, then encoded as webp or png.
pub fn process_image(file: Vec<u8>) -> (r: Result<Blob, Failure>)
    ensures
        r is Err <==> !decodes(file@),
        r matches Err(e) ==> e == Failure::NotAnImage,
        r matches Ok(b) ==> (b.ext, bytes_of(b.data)) == sticker_encoding(fitted_image(file@)),
        decodes(file@) ==> fits_square(decoded_image(file@), fitted_image(file@), STICKER_SIDE as nat),
{
    match load_image(file.as_slice()) {
        Ok(img) => {
            let fitted = fit_to_sticker(&img);
            Ok(encode_sticker_image(&fitted))
        },
        Err(_) => Err(Failure::NotAnImage),
    }
}

} // verus!
