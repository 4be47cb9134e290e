//! Format-specific encoding: dispatch on the requested target format, encode
//! to an in-memory buffer, and reject anything that is not JPEG or PNG.

use vstd::prelude::*;
use crate::codec;
use crate::messages;

verus! {

/// A target format the engine can encode: `jpeg` or `png`.
pub open spec fn is_supported_format(format: Seq<char>) -> bool {
    format == "jpeg"@ || format == "png"@
}

/// Encodes the pixel buffer under the requested format. JPEG honours the
/// quality (0 is most lossy); PNG uses the codec's default compression policy
/// and ignores the quality. Any other format is rejected outright, before any
/// bytes are produced.
pub fn encode_image(img: &image::DynamicImage, quality: u8, format: &str) -> (r: Result<
    Vec<u8>,
    String,
>)
    ensures
        !is_supported_format(format@) ==> r is Err && r->Err_0@
            == messages::unsupported_format_msg(),
{
    if messages::str_eq(format, "jpeg") {
        codec::encode_jpeg_bytes(img, quality)
    } else if messages::str_eq(format, "png") {
        codec::encode_png_bytes(img)
    } else {
        Err(messages::unsupported_format_error())
    }
}

} // verus!
