//! The boundary to the underlying codec library: format detection, decoding a
//! byte buffer into a pixel buffer, and encoding a pixel buffer back into
//! bytes. Each item here is trusted; the recovery and dispatch logic around
//! them is verified elsewhere.

use vstd::prelude::*;

verus! {

#[verifier::external_type_specification]
#[verifier::external_body]
pub struct ExDynamicImage(image::DynamicImage);

#[verifier::external_type_specification]
#[verifier::external_body]
pub struct ExImageFormat(image::ImageFormat);

/// Whether content sniffing recognises the magic bytes at the start of
/// `data`. `image::guess_format` computes this from a fixed signature table,
/// so it is a function of the bytes alone.
pub uninterp spec fn format_detected(data: Seq<u8>) -> bool;

/// Relies on `image::guess_format`: guesses the image format from the magic
/// bytes at the start of the buffer, against a fixed signature table, and
/// fails exactly when no signature matches.
#[verifier::external_body]
pub(crate) fn detect_format(data: &[u8]) -> (r: Result<image::ImageFormat, String>)
    ensures
        r is Ok <==> format_detected(data@),
{
    image::guess_format(data).map_err(|e| e.to_string())
}

/// Relies on `image::load_from_memory_with_format`: decodes the buffer as the
/// given format into a pixel buffer, or reports the codec's error.
#[verifier::external_body]
pub(crate) fn decode_with_format(data: &[u8], format: image::ImageFormat) -> (r: Result<
    image::DynamicImage,
    String,
>) {
    image::load_from_memory_with_format(data, format).map_err(|e| e.to_string())
}

/// Relies on `image::load_from_memory`: the uniform try-all-formats decode
/// used as the recovery attempt. Its outcome may additionally depend on
/// detection hooks registered in the process, so nothing is promised of it.
#[verifier::external_body]
pub(crate) fn decode_any(data: &[u8]) -> (r: Result<image::DynamicImage, String>) {
    image::load_from_memory(data).map_err(|e| e.to_string())
}

/// Relies on `image::codecs::jpeg::JpegEncoder::encode_image`: serialises the
/// pixel buffer as JPEG at the given quality (the encoder clamps it to
/// 1..=100) into an in-memory buffer.
#[verifier::external_body]
pub(crate) fn encode_jpeg_bytes(img: &image::DynamicImage, quality: u8) -> (r: Result<
    Vec<u8>,
    String,
>) {
    let mut buf: Vec<u8> = Vec::new();
    let mut encoder = image::codecs::jpeg::JpegEncoder::new_with_quality(&mut buf, quality);
    match encoder.encode_image(img) {
        Ok(()) => Ok(buf),
        Err(e) => Err(format!("JPEG encoding failed: {e}")),
    }
}

/// Relies on `image::DynamicImage::write_to`: serialises the pixel buffer as
/// PNG, under the codec's default compression policy, into an in-memory
/// buffer.
#[verifier::external_body]
pub(crate) fn encode_png_bytes(img: &image::DynamicImage) -> (r: Result<Vec<u8>, String>) {
    let mut cursor = std::io::Cursor::new(Vec::new());
    match img.write_to(&mut cursor, image::ImageFormat::Png) {
        Ok(()) => Ok(cursor.into_inner()),
        Err(e) => Err(format!("PNG encoding failed: {e}")),
    }
}

} // verus!
