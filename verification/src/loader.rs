//! Decoding: the bytes of an image file turned into a bitmap. The decoders
//! are the `image` crate's; what is proved here is what becomes of their
//! answer.

use vstd::prelude::*;
use crate::bitmap::Bitmap;
use crate::error::{Failure, FailureKind};

verus! {

#[verifier::external_type_specification]
#[verifier::external_body]
pub struct ExImageError(image::ImageError);

/// `image::load_from_memory`, which guesses the format from the bytes and
/// decodes them, followed by `DynamicImage::into_rgb8`, which drops alpha
/// and brings every pixel format to 8-bit RGB. The image comes back as its
/// width, its height and its row-major buffer.
///
/// Trusted: nothing of the result. Whether the bytes decode, and to what,
/// is the decoder's matter; the caller checks the buffer against the size.
/// It is taken on trust that the decoders answer bytes that are no image
/// with an error and return.
#[verifier::external_body]
fn decode_rgb8(bytes: &[u8]) -> (decoded: Result<(u32, u32, Vec<u8>), image::ImageError>) {
    let rgb = image::load_from_memory(bytes)?.into_rgb8();
    Ok((rgb.width(), rgb.height(), rgb.into_raw()))
}

/// The `Display` text of an `image::ImageError`, through `ToString::to_string`.
///
/// Trusted: nothing about the text.
#[verifier::external_body]
fn image_error_text(error: &image::ImageError) -> (text: String) {
    error.to_string()
}

/// The cause given for a decoded buffer whose length is not three bytes a pixel.
pub open spec fn size_mismatch_text() -> Seq<char> {
    "decoded buffer does not match the image size"@
}

/// The cause given for a decoded image without pixels.
pub open spec fn empty_image_text() -> Seq<char> {
    "image has no pixels"@
}

/// Whether a decoded image is usable: it has at least one pixel and its
/// buffer holds exactly three bytes for each.
pub open spec fn usable(width: u32, height: u32, data: Seq<u8>) -> bool {
    width >= 1 && height >= 1 && data.len() == 3 * width * height
}

/// Turns a decoder's answer for `source` into a bitmap or a failure.
/// A decoded image becomes a bitmap when it has at least one pixel and a
/// buffer of the right length. Everything else is a decode failure on
/// `source`: with the decoder's own cause where it gave one, else with the
/// cause that says what is wrong with the image.
pub fn bitmap_from_decoded(decoded: Result<(u32, u32, Vec<u8>), String>, source: &str) -> (loaded:
    Result<Bitmap, Failure>)
    ensures
        match decoded {
            Ok((width, height, data)) => if usable(width, height, data@) {
                loaded matches Ok(b) && b.spec_width() == width && b.spec_height() == height
                    && b.samples() == data@
            } else {
                loaded matches Err(f) && f.kind == FailureKind::DecodeFailed && f.source@
                    == source@ && f.cause@ == (if width >= 1 && height >= 1 {
                    size_mismatch_text()
                } else {
                    empty_image_text()
                })
            },
            Err(cause) => loaded matches Err(f) && f.kind == FailureKind::DecodeFailed
                && f.source@ == source@ && f.cause@ == cause@,
        },
{
    match decoded {
        Ok((width, height, data)) => {
            if width == 0 || height == 0 {
                return Err(
                    Failure::new(
                        FailureKind::DecodeFailed,
                        source,
                        String::from_str("image has no pixels"),
                    ),
                );
            }
            match Bitmap::from_raw(width, height, data) {
                Some(bitmap) => Ok(bitmap),
                None => Err(
                    Failure::new(
                        FailureKind::DecodeFailed,
                        source,
                        String::from_str("decoded buffer does not match the image size"),
                    ),
                ),
            }
        },
        Err(cause) => Err(Failure::new(FailureKind::DecodeFailed, source, cause)),
    }
}

/// Decodes the bytes of an image that came from `source`. The format is
/// guessed from the bytes. What comes back is a bitmap with at least one
/// pixel, or a decode failure on `source`.
pub fn decode(bytes: &[u8], source: &str) -> (loaded: Result<Bitmap, Failure>)
    ensures
        loaded matches Ok(b) ==> b.spec_width() >= 1 && b.spec_height() >= 1,
        loaded matches Err(f) ==> f.kind == FailureKind::DecodeFailed && f.source@ == source@,
{
    let decoded: Result<(u32, u32, Vec<u8>), String> = match decode_rgb8(bytes) {
        Ok(parts) => Ok(parts),
        Err(error) => Err(image_error_text(&error)),
    };
    bitmap_from_decoded(decoded, source)
}

} // verus!
