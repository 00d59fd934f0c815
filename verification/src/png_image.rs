//! The PNG rendering of the frame, kept for human inspection only: an 8-bit RGB PNG
//! written by the `png` crate with its default settings.

use crate::frame::{bgra_to_rgb, frame_rgb};
use crate::snapshot::SnapshotError;
use vstd::prelude::*;

verus! {

#[verifier::external_type_specification]
#[verifier::external_body]
pub struct ExEncodingError(png::EncodingError);

/// The bytes the `png` crate writes for an 8-bit RGB image of `width` by `height`
/// pixels with these samples, under its default compression and filter settings.
pub uninterp spec fn png_rgb8_encoding(rgb: Seq<u8>, width: u32, height: u32) -> Seq<u8>;

/// Whether the `png` crate accepts these samples as an 8-bit RGB image of this size.
pub open spec fn png_rgb8_accepts(rgb: Seq<u8>, width: u32, height: u32) -> bool {
    width > 0 && height > 0 && rgb.len() == width * height * 3
}

/// Encodes through `png::Encoder::new`, `set_color(Rgb)`, `set_depth(Eight)`,
/// `write_header`, `Writer::write_image_data` and `Writer::finish`, into a `Vec<u8>`.
/// Claimed of it: the header is refused when a dimension is zero, the image data when
/// its length is not `width * height * 3`, and nothing else fails since every write
/// goes to memory; the bytes written are a function of the samples and dimensions.
#[verifier::external_body]
fn encode_rgb8_png(rgb: &[u8], width: u32, height: u32) -> (res: Result<Vec<u8>, png::EncodingError>)
    requires
        width * height * 3 <= usize::MAX,
    ensures
        res is Ok <==> png_rgb8_accepts(rgb@, width, height),
        res matches Ok(bytes) ==> bytes@ == png_rgb8_encoding(rgb@, width, height),
{
    let mut out = Vec::new();
    let mut encoder = png::Encoder::new(&mut out, width, height);
    encoder.set_color(png::ColorType::Rgb);
    encoder.set_depth(png::BitDepth::Eight);
    let mut writer = encoder.write_header()?;
    writer.write_image_data(rgb)?;
    writer.finish()?;
    Ok(out)
}

/// The PNG of a run of RGB samples, or `None` where the encoder refuses them.
pub open spec fn png_of_rgb(rgb: Seq<u8>, width: u32, height: u32) -> Option<Seq<u8>> {
    if png_rgb8_accepts(rgb, width, height) {
        Some(png_rgb8_encoding(rgb, width, height))
    } else {
        None
    }
}

/// Encode a `B,G,R,A` framebuffer (row-major, alpha padding dropped) as an 8-bit RGB
/// PNG with the crate's default settings, so that encoding the same frame twice gives
/// the same bytes. The encoder refuses a frame whose whole pixels are not exactly
/// `w * h`, or a zero dimension; `w * h * 3` must fit in a `u32`.
pub fn frame_to_png(frame: &[u8], w: u32, h: u32) -> (res: Result<Vec<u8>, SnapshotError>)
    requires
        w * h * 3 <= u32::MAX,
    ensures
        res matches Ok(bytes) ==> png_of_rgb(bgra_to_rgb(frame@), w, h) == Some(bytes@),
        res matches Err(e) ==> e == SnapshotError::PngEncoding && png_of_rgb(
            bgra_to_rgb(frame@),
            w,
            h,
        ) is None,
{
    let rgb = frame_rgb(frame);
    match encode_rgb8_png(rgb.as_slice(), w, h) {
        Ok(bytes) => Ok(bytes),
        Err(_) => Err(SnapshotError::PngEncoding),
    }
}

} // verus!
