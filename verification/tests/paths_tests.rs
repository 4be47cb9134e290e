use imgbatch::paths::generate_output_path;

#[test]
fn derive_nested_path_jpeg() {
    assert_eq!(generate_output_path("/a/b/photo.png", "jpeg"), "/a/b/photo_compressed.jpeg");
}

#[test]
fn derive_no_extension_no_directory() {
    assert_eq!(generate_output_path("noext", "png"), "./noext_compressed.png");
}

#[test]
fn derive_file_at_root() {
    assert_eq!(generate_output_path("/photo.png", "jpeg"), "/photo_compressed.jpeg");
}

#[test]
fn derive_relative_directory() {
    assert_eq!(generate_output_path("shots/img.jpeg", "png"), "shots/img_compressed.png");
}

#[test]
fn derive_hidden_file_keeps_name() {
    assert_eq!(generate_output_path(".hidden", "png"), "./.hidden_compressed.png");
}

#[test]
fn derive_multiple_dots_drop_last_extension() {
    assert_eq!(
        generate_output_path("/tmp/archive.tar.gz", "jpeg"),
        "/tmp/archive.tar_compressed.jpeg"
    );
}

#[test]
fn derive_empty_path_falls_back() {
    assert_eq!(generate_output_path("", "png"), "./compressed_compressed.png");
}

#[test]
fn derive_trailing_slash_falls_back() {
    assert_eq!(generate_output_path("/a/b/", "png"), "/a/b/compressed_compressed.png");
}

#[test]
fn derive_trailing_dot() {
    assert_eq!(generate_output_path("photo.", "png"), "./photo_compressed.png");
}
