//! Decoding a texture file into RGBA pixels, before the renderer uploads
//! them.

use image::ImageError;
use vstd::prelude::*;

verus! {

#[verifier::external_type_specification]
#[verifier::external_body]
pub struct ExImageError(ImageError);

/// An image as 8-bit RGBA pixels, row by row.
pub struct DecodedImage {
    pub width: u32,
    pub height: u32,
    pub rgba: Vec<u8>,
}

/// Why a texture could not be made from a file's bytes.
pub enum TextureError {
    /// The bytes are not an image in a format the decoder knows.
    Decode(ImageError),
}

/// `image::load_from_memory` (format guessed from the bytes, then decoded)
/// and `DynamicImage::to_rgba8`. What comes out is not a function of the
/// bytes alone: the `image` crate first consults format-detection and
/// decoding hooks that any code in the process may register, so the same
/// bytes may decode, fail, or decode differently from one call to the next.
/// What holds of every outcome: a decoded image holds at least four bytes
/// per pixel (`ImageBuffer::from_raw` refuses a shorter buffer, and the
/// colour conversion builds an exact one). Left unsaid: which pixels come
/// out, and that the hook registries' locks panic if poisoned.
#[verifier::external_body]
fn load_rgba(bytes: &[u8]) -> (r: Result<DecodedImage, ImageError>)
    ensures
        r matches Ok(d) ==> d.rgba@.len() >= 4 * d.width * d.height,
{
    let rgba = image::load_from_memory(bytes)?.to_rgba8();
    Ok(DecodedImage { width: rgba.width(), height: rgba.height(), rgba: rgba.into_raw() })
}

/// Decodes the bytes of an image file into RGBA pixels: `Ok` with the
/// decoded image, at least four bytes per pixel, or `Decode` with the
/// decoder's error where it refuses the bytes.
pub fn decode_image(bytes: &[u8]) -> (r: Result<DecodedImage, TextureError>)
    ensures
        r matches Ok(d) ==> d.rgba@.len() >= 4 * d.width * d.height,
{
    match load_rgba(bytes) {
        Ok(d) => Ok(d),
        Err(e) => Err(TextureError::Decode(e)),
    }
}

} // verus!
