//! PNG encoding of rendered RGBA pixmaps.

use vstd::prelude::*;

verus! {

/// The PNG file that the `png` crate writes for a `width` × `height` RGBA image with 8 bits per
/// channel and the given pixel bytes, or `None` when the encoder refuses the image.
pub uninterp spec fn png_rgba8_file(width: u32, height: u32, rgba: Seq<u8>) -> Option<Seq<u8>>;

/// The stage at which PNG encoding failed, with the encoder's error message.
pub enum PngFailure {
    /// Writing the signature and image header failed.
    Header(String),
    /// Writing the image data failed.
    Data(String),
}

/// Drives one `png::Encoder` (RGBA, 8-bit depth) writing into a byte vector: `write_header`,
/// then `Writer::write_image_data`; the writer is dropped before the bytes are handed back, which
/// completes the file. The contract claims that the outcome is a function of the arguments;
/// that the header is refused exactly for a zero width or height (`Writer::init` checks these
/// first, RGBA at 8 bits is a valid combination, and writing to a vector cannot fail); and that
/// encoding succeeds exactly when, besides, the data holds four bytes per pixel
/// (`write_image_data` compares the length with `4 * width * height`; palette, sequence and
/// compression steps cannot fail with the default options and in-memory output). That size is
/// computed in `usize` before the comparison, so the product must fit. The text of the messages
/// is not stated.
#[verifier::external_body]
fn png_encode_rgba8(width: u32, height: u32, rgba: &[u8]) -> (r: Result<Vec<u8>, PngFailure>)
    requires
        4 * (width as int) * (height as int) <= usize::MAX,
    ensures
        r is Ok <==> (width > 0 && height > 0 && rgba@.len() == 4 * (width as int) * (height
            as int)),
        match r {
            Ok(bytes) => png_rgba8_file(width, height, rgba@) == Some(bytes@),
            Err(_) => png_rgba8_file(width, height, rgba@) is None,
        },
        r matches Err(PngFailure::Header(_)) <==> (width == 0 || height == 0),
{
    let mut buf = Vec::new();
    let mut encoder = png::Encoder::new(&mut buf, width, height);
    encoder.set_color(png::ColorType::Rgba);
    encoder.set_depth(png::BitDepth::Eight);
    let outcome = match encoder.write_header() {
        Err(e) => Err(PngFailure::Header(format!("{}", e))),
        Ok(mut writer) => match writer.write_image_data(rgba) {
            Ok(()) => Ok(()),
            Err(e) => Err(PngFailure::Data(format!("{}", e))),
        },
    };
    match outcome {
        Ok(()) => Ok(buf),
        Err(failure) => Err(failure),
    }
}

/// Prefix of the error reported when the PNG header cannot be written.
pub open spec fn header_error_prefix() -> Seq<char> {
    "PNG header error: "@
}

/// Prefix of the error reported when the PNG image data cannot be written.
pub open spec fn write_error_prefix() -> Seq<char> {
    "PNG write error: "@
}

/// Encodes a `width` × `height` RGBA pixmap (8 bits per channel, rows top to bottom) as PNG.
/// It succeeds exactly for a non-empty image given four bytes per pixel.
pub fn encode_png(width: u32, height: u32, rgba: &[u8]) -> (r: Result<Vec<u8>, String>)
    requires
        4 * (width as int) * (height as int) <= usize::MAX,
    ensures
        r is Ok <==> (width > 0 && height > 0 && rgba@.len() == 4 * (width as int) * (height
            as int)),
        match r {
            Ok(bytes) => png_rgba8_file(width, height, rgba@) == Some(bytes@),
            Err(message) => {
                &&& png_rgba8_file(width, height, rgba@) is None
                &&& (width == 0 || height == 0) ==> exists|detail: Seq<char>|
                    message@ == header_error_prefix() + detail
                &&& !(width == 0 || height == 0) ==> exists|detail: Seq<char>|
                    message@ == write_error_prefix() + detail
            },
        },
{
    match png_encode_rgba8(width, height, rgba) {
        Ok(bytes) => Ok(bytes),
        Err(PngFailure::Header(detail)) => {
            let mut message = String::from_str("PNG header error: ");
            message.append(detail.as_str());
            assert(message@ == header_error_prefix() + detail@);
            Err(message)
        },
        Err(PngFailure::Data(detail)) => {
            let mut message = String::from_str("PNG write error: ");
            message.append(detail.as_str());
            assert(message@ == write_error_prefix() + detail@);
            Err(message)
        },
    }
}

} // verus!
