//! The window icon, decoded from the embedded PNG image.
use vstd::prelude::*;

verus! {

/// The RGBA pixels, width and height that `image` decodes from the bytes of
/// a PNG file; none where the bytes are not a PNG image it can read.
pub uninterp spec fn decoded_rgba8(bytes: Seq<u8>) -> Option<(Seq<u8>, u32, u32)>;

/// Decodes a PNG file with `image::load_from_memory_with_format` (the format
/// is set, so no format guessing or decoding hook of `image` takes part) and
/// converts it with `DynamicImage::to_rgba8`. The contract claims only that
/// the outcome is a function of the bytes: the pixels, width and height of
/// the decoded image where decoding succeeds, and none where it fails. What
/// the pixels are is left to `image`.
#[verifier::external_body]
fn decode_rgba8(bytes: &[u8]) -> (r: Option<(Vec<u8>, u32, u32)>)
    ensures
        match r {
            Some(t) => decoded_rgba8(bytes@) == Some((t.0@, t.1, t.2)),
            None => decoded_rgba8(bytes@) is None,
        },
{
    match image::load_from_memory_with_format(bytes, image::ImageFormat::Png) {
        Ok(img) => {
            let rgba = img.to_rgba8();
            let (w, h) = rgba.dimensions();
            Some((rgba.into_raw(), w, h))
        },
        Err(_) => None,
    }
}

/// An icon image: RGBA pixels row by row.
pub struct IconData {
    pub rgba: Vec<u8>,
    pub width: u32,
    pub height: u32,
}

/// The window icon from the bytes of a PNG file; none where they cannot be
/// decoded.
pub fn load_window_icon(png: &[u8]) -> (icon: Option<IconData>)
    ensures
        match decoded_rgba8(png@) {
            Some(t) => icon matches Some(i) && i.rgba@ == t.0 && i.width == t.1 && i.height == t.2,
            None => icon is None,
        },
{
    match decode_rgba8(png) {
        Some((rgba, width, height)) => Some(IconData { rgba, width, height }),
        None => None,
    }
}

} // verus!
