//! The per-job pipeline: given one file's read outcome, decode with recovery,
//! derive the output path, encode, and assemble the job's result.

use vstd::prelude::*;
use vstd::string::*;
use crate::encoder;
use crate::loader;
use crate::messages;
use crate::paths;

verus! {

/// One successfully processed job: where the input was, where the output
/// went, and the byte sizes of both. Created exactly once per success.
#[derive(Debug, Clone)]
pub struct CompressionResult {
    pub original_path: String,
    pub compressed_path: String,
    pub original_size: u64,
    pub compressed_size: u64,
}

/// A file as read from disk: its on-disk byte length and its raw bytes.
pub struct FileContents {
    pub size: u64,
    pub bytes: Vec<u8>,
}

/// Runs one compression job on an already-read file. `read` is the outcome of
/// fetching the file: a read failure propagates as the job's failure
/// unchanged. On success the returned result is paired with the encoded
/// bytes, which the caller writes to the result's `compressed_path`; the
/// recorded compressed size is exactly their count.
pub fn compress_file_data(
    path: &str,
    read: &Result<FileContents, String>,
    quality: u8,
    format: &str,
) -> (r: Result<(CompressionResult, Vec<u8>), String>)
    ensures
        read is Err ==> r is Err && r->Err_0@ == read->Err_0@,
        read matches Ok(fc) && fc.size == 0 ==> r is Err && r->Err_0@
            == messages::empty_file_msg(),
        !encoder::is_supported_format(format@) ==> r is Err,
        r matches Ok(p) ==> {
            &&& read is Ok
            &&& read->Ok_0.size != 0
            &&& encoder::is_supported_format(format@)
            &&& p.0.original_path@ == path@
            &&& p.0.compressed_path@ == paths::output_path_spec(path@, format@)
            &&& p.0.original_size == read->Ok_0.size
            &&& p.0.compressed_size == p.1@.len()
        },
{
    let contents = match read {
        Ok(c) => c,
        Err(e) => {
            return Err(e.clone());
        },
    };
    if contents.size == 0 {
        return Err(messages::empty_file_error());
    }
    let img = match loader::decode_with_recovery(contents.bytes.as_slice()) {
        Ok(img) => img,
        Err(e) => {
            return Err(e);
        },
    };
    let output_path = paths::generate_output_path(path, format);
    let encoded = match encoder::encode_image(&img, quality, format) {
        Ok(bytes) => bytes,
        Err(e) => {
            return Err(e);
        },
    };
    let compressed_size = encoded.len() as u64;
    let result = CompressionResult {
        original_path: String::from_str(path),
        compressed_path: output_path,
        original_size: contents.size,
        compressed_size,
    };
    Ok((result, encoded))
}

} // verus!
