use vstd::prelude::*;

verus! {

/// What the image crate's PNG decoder makes of `bytes`, converted to 8-bit RGBA: the pixels, the
/// width and the height; nothing where it reports an error.
pub uninterp spec fn decoded_png_rgba8(bytes: Seq<u8>) -> Option<(Seq<u8>, u32, u32)>;

#[verifier::external_type_specification]
#[verifier::external_body]
pub struct ExImageError(image::ImageError);

/// Calls the image crate's `load_from_memory_with_format(bytes, ImageFormat::Png)`, then
/// `DynamicImage::into_rgba8`, `ImageBuffer::dimensions` and `ImageBuffer::into_raw`. With the
/// format given, the reader goes straight to the built-in PNG decoder with default limits and
/// consults no registered hook, so the outcome depends on the bytes alone. Claimed: the outcome
/// is the named `decoded_png_rgba8` of the bytes, and a decoded buffer holds four bytes per pixel
/// (the decoder allocates exactly width times height pixels); which pixels, for given bytes, is
/// not stated.
#[verifier::external_body]
fn image_decode_rgba8(bytes: &[u8]) -> (res: Result<(Vec<u8>, u32, u32), image::ImageError>)
    ensures
        res is Ok <==> decoded_png_rgba8(bytes@) is Some,
        res matches Ok(v) ==> decoded_png_rgba8(bytes@) == Some((v.0@, v.1, v.2)),
        res matches Ok(v) ==> v.0@.len() == 4 * v.1 * v.2,
{
    match image::load_from_memory_with_format(bytes, image::ImageFormat::Png) {
        Ok(img) => {
            let rgba = img.into_rgba8();
            let (w, h) = rgba.dimensions();
            Ok((rgba.into_raw(), w, h))
        },
        Err(e) => Err(e),
    }
}

/// The tray icon as 8-bit RGBA pixels.
pub struct IconImage {
    pub rgba: Vec<u8>,
    pub width: u32,
    pub height: u32,
}

/// Why the icon could not be decoded: the image crate's error.
#[derive(Debug)]
pub struct IconError {
    pub cause: image::ImageError,
}

/// Decodes the tray icon from the bytes of a PNG file.
pub fn load_icon(bytes: &[u8]) -> (res: Result<IconImage, IconError>)
    ensures
        res is Ok <==> decoded_png_rgba8(bytes@) is Some,
        res matches Ok(icon) ==> decoded_png_rgba8(bytes@) == Some((icon.rgba@, icon.width, icon.height)),
        res matches Ok(icon) ==> icon.rgba@.len() == 4 * icon.width * icon.height,
{
    match image_decode_rgba8(bytes) {
        Ok((rgba, width, height)) => Ok(IconImage { rgba, width, height }),
        Err(cause) => Err(IconError { cause }),
    }
}

} // verus!
