use imgbatch::encoder::encode_image;
use imgbatch::loader::decode_with_recovery;
use imgbatch::worker::{compress_file_data, FileContents};

fn sample_dynimage(width: u32, height: u32) -> image::DynamicImage {
    let img = image::RgbaImage::from_fn(width, height, |x, y| {
        image::Rgba([(x * 37 % 256) as u8, (y * 91 % 256) as u8, ((x + y) % 256) as u8, 255])
    });
    image::DynamicImage::ImageRgba8(img)
}

fn png_bytes(width: u32, height: u32) -> Vec<u8> {
    let mut cursor = std::io::Cursor::new(Vec::new());
    sample_dynimage(width, height)
        .write_to(&mut cursor, image::ImageFormat::Png)
        .unwrap();
    cursor.into_inner()
}

#[test]
fn decode_valid_png() {
    let bytes = png_bytes(5, 3);
    let img = decode_with_recovery(&bytes).unwrap();
    assert_eq!(img.width(), 5);
    assert_eq!(img.height(), 3);
}

#[test]
fn decode_garbage_reports_both_attempts() {
    let bytes = vec![0x00u8, 0x01, 0x02, 0x03, 0x04, 0x05, 0x06, 0x07];
    let err = decode_with_recovery(&bytes).unwrap_err();
    assert!(err.starts_with("original error: "), "unexpected message: {err}");
    assert!(err.contains(", recovery error: "), "unexpected message: {err}");
}

#[test]
fn decode_truncated_png_reports_both_attempts() {
    // A valid PNG signature followed by nothing: detection succeeds, both
    // decode attempts fail.
    let bytes = vec![0x89u8, b'P', b'N', b'G', 0x0D, 0x0A, 0x1A, 0x0A];
    let err = decode_with_recovery(&bytes).unwrap_err();
    assert!(err.starts_with("original error: "), "unexpected message: {err}");
    assert!(err.contains(", recovery error: "), "unexpected message: {err}");
}

#[test]
fn png_round_trip_keeps_dimensions() {
    let source = png_bytes(7, 4);
    let img = decode_with_recovery(&source).unwrap();
    let out = encode_image(&img, 80, "png").unwrap();
    let reloaded = image::load_from_memory(&out).unwrap();
    assert_eq!(reloaded.width(), 7);
    assert_eq!(reloaded.height(), 4);
}

#[test]
fn jpeg_round_trip_keeps_dimensions() {
    let img = sample_dynimage(9, 6);
    let out = encode_image(&img, 80, "jpeg").unwrap();
    let reloaded = image::load_from_memory(&out).unwrap();
    assert_eq!(reloaded.width(), 9);
    assert_eq!(reloaded.height(), 6);
    assert_eq!(image::guess_format(&out).unwrap(), image::ImageFormat::Jpeg);
}

#[test]
fn jpeg_quality_changes_output() {
    let img = sample_dynimage(32, 32);
    let low = encode_image(&img, 5, "jpeg").unwrap();
    let high = encode_image(&img, 95, "jpeg").unwrap();
    assert_ne!(low, high, "quality had no effect on the encoded bytes");
}

#[test]
fn unsupported_format_rejected() {
    let img = sample_dynimage(4, 4);
    let err = encode_image(&img, 80, "bmp").unwrap_err();
    assert_eq!(err, "unsupported image format");
}

#[test]
fn job_unsupported_format_produces_no_bytes() {
    let bytes = png_bytes(4, 4);
    let read = Ok(FileContents { size: bytes.len() as u64, bytes });
    let err = compress_file_data("/pics/a.png", &read, 80, "bmp").unwrap_err();
    assert_eq!(err, "unsupported image format");
}

#[test]
fn job_success_fields() {
    let bytes = png_bytes(6, 6);
    let size = bytes.len() as u64;
    let read = Ok(FileContents { size, bytes });
    let (result, encoded) = compress_file_data("/pics/a.png", &read, 80, "jpeg").unwrap();
    assert_eq!(result.original_path, "/pics/a.png");
    assert_eq!(result.compressed_path, "/pics/a_compressed.jpeg");
    assert_eq!(result.original_size, size);
    assert_eq!(result.compressed_size, encoded.len() as u64);
    let reloaded = image::load_from_memory(&encoded).unwrap();
    assert_eq!(reloaded.width(), 6);
    assert_eq!(reloaded.height(), 6);
}

#[test]
fn job_empty_file_rejected() {
    let read = Ok(FileContents { size: 0, bytes: Vec::new() });
    let err = compress_file_data("a.png", &read, 80, "png").unwrap_err();
    assert_eq!(err, "empty file");
}

#[test]
fn job_read_failure_passes_through() {
    let read = Err(String::from("failed to read file metadata: no such file"));
    let err = compress_file_data("missing.png", &read, 80, "png").unwrap_err();
    assert_eq!(err, "failed to read file metadata: no such file");
}

#[test]
fn planned_parallelism_for_this_host_in_bounds() {
    let p = imgbatch::probe::plan_parallelism_for_host();
    assert!((1..=8).contains(&p));
}
