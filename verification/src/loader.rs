//! Decode-with-recovery: detect the format by content sniffing and decode as
//! that format; when that fails, make one uniform try-all-formats attempt,
//! and report both errors when the recovery also fails.

use vstd::prelude::*;
use crate::codec;
use crate::messages;

verus! {

/// Decodes `data` into a pixel buffer. First attempt: detect the format from
/// the content and decode as the detected format. On any failure there, a
/// single uniform recovery attempt with no format restriction. When both
/// fail, the error carries both messages, so callers can diagnose ambiguous
/// or corrupt files.
pub fn decode_with_recovery(data: &[u8]) -> (r: Result<image::DynamicImage, String>)
    ensures
        r is Err ==> exists|orig: Seq<char>, rec: Seq<char>|
            r->Err_0@ == messages::decode_failure_msg(orig, rec),
{
    match codec::detect_format(data) {
        Ok(format) => match codec::decode_with_format(data, format) {
            Ok(img) => Ok(img),
            Err(orig) => decode_fallback(data, orig),
        },
        Err(orig) => decode_fallback(data, orig),
    }
}

/// The uniform recovery attempt, combining the original error with the
/// recovery error when it fails too.
fn decode_fallback(data: &[u8], orig: String) -> (r: Result<image::DynamicImage, String>)
    ensures
        r is Err ==> exists|rec: Seq<char>|
            r->Err_0@ == messages::decode_failure_msg(orig@, rec),
{
    match codec::decode_any(data) {
        Ok(img) => Ok(img),
        Err(rec) => {
            let combined = messages::combine_decode_errors(orig.as_str(), rec.as_str());
            proof {
                assert(combined@ == messages::decode_failure_msg(orig@, rec@));
            }
            Err(combined)
        },
    }
}

} // verus!
