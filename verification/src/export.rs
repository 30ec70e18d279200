//! Turning the selected pixels into the bytes of a PNG file.

use vstd::prelude::*;
use crate::cropper::{rgba_len, CroppedImage};

verus! {

/// Why an image could not be turned into a file.
#[derive(Clone, Copy, Debug, PartialEq, Eq, Structural)]
pub enum ExportError {
    /// The image holds no pixel.
    EmptyImage,
    /// The encoder gave up.
    EncodingFailed,
}

/// The error type of the `image` crate.
#[verifier::external_type_specification]
#[verifier::external_body]
pub struct ExImageError(image::ImageError);

/// The bytes of the PNG file that the encoder writes for an image `width`
/// by `height` with the given RGBA bytes, or `None` where it reports an
/// error.
pub uninterp spec fn png_encoding(width: u32, height: u32, pixels: Seq<u8>) -> Option<Seq<u8>>;

/// Encodes RGBA pixels with `image::codecs::png::PngEncoder`, through
/// `image::ImageEncoder::write_image`, into memory.
///
/// Trusted: what is written depends on the size and the bytes alone, so
/// it has a name, `png_encoding`. The encoder stops on a buffer whose
/// length does not match the size, which is why the length is required.
#[verifier::external_body]
fn encode_rgba(width: u32, height: u32, pixels: &Vec<u8>) -> (encoded: Result<
    Vec<u8>,
    image::ImageError,
>)
    requires
        pixels@.len() == rgba_len(width, height),
    ensures
        match encoded {
            Ok(bytes) => png_encoding(width, height, pixels@) == Some(bytes@),
            Err(_) => png_encoding(width, height, pixels@).is_none(),
        },
{
    let mut bytes: Vec<u8> = Vec::new();
    let encoder = image::codecs::png::PngEncoder::new(&mut bytes);
    image::ImageEncoder::write_image(encoder, pixels, width, height, image::ColorType::Rgba8)?;
    Ok(bytes)
}

/// The file for an image, given what the encoder makes of it: an image
/// without pixels has none, whatever the encoder says.
pub open spec fn export_spec(empty: bool, encoding: Option<Seq<u8>>) -> Result<
    Seq<u8>,
    ExportError,
> {
    if empty {
        Err(ExportError::EmptyImage)
    } else {
        match encoding {
            Some(bytes) => Ok(bytes),
            None => Err(ExportError::EncodingFailed),
        }
    }
}

/// The bytes of a file as a sequence, an error as it is.
pub open spec fn exported_view(exported: Result<Vec<u8>, ExportError>) -> Result<
    Seq<u8>,
    ExportError,
> {
    match exported {
        Ok(bytes) => Ok(bytes@),
        Err(error) => Err(error),
    }
}

/// What the encoder returned, as `png_encoding` names it.
pub open spec fn encoding_view(encoded: Result<Vec<u8>, image::ImageError>) -> Option<Seq<u8>> {
    match encoded {
        Ok(bytes) => Some(bytes@),
        Err(_) => None,
    }
}

/// Decides the outcome of an export from what the encoder returned.
pub fn finish_export(empty: bool, encoded: Result<Vec<u8>, image::ImageError>) -> (file: Result<
    Vec<u8>,
    ExportError,
>)
    ensures
        exported_view(file) == export_spec(empty, encoding_view(encoded)),
{
    if empty {
        Err(ExportError::EmptyImage)
    } else {
        match encoded {
            Ok(bytes) => Ok(bytes),
            Err(_) => Err(ExportError::EncodingFailed),
        }
    }
}

/// Encodes an image as a PNG file in memory.
///
/// An image without pixels is refused before the encoder is asked.
pub fn encode_png(image: &CroppedImage) -> (file: Result<Vec<u8>, ExportError>)
    requires
        image.well_formed(),
    ensures
        exported_view(file) == export_spec(
            image.spec_is_empty(),
            png_encoding(image.width, image.height, image.pixels@),
        ),
{
    if image.is_empty() {
        return Err(ExportError::EmptyImage);
    }
    let encoded: Result<Vec<u8>, image::ImageError> = encode_rgba(
        image.width,
        image.height,
        &image.pixels,
    );
    finish_export(false, encoded)
}

} // verus!
