use file_syncer::compress_relative_path;
use file_syncer::decompress_relative_path;
use file_syncer::is_gzipped_file;
use file_syncer::original_file_name;

#[test]
fn compression_relative_path_transforms_file_names() {
    let compressed = compress_relative_path("dir/file.txt");
    assert_eq!(compressed, "dir/file.txt-gzipped.txt");

    let decompressed = decompress_relative_path("dir/file.txt-gzipped.txt");
    assert_eq!(decompressed, "dir/file.txt");

    let untouched = decompress_relative_path("dir/plain.txt");
    assert_eq!(untouched, "dir/plain.txt");
}

#[test]
fn fresh_path_round_trips_through_one_compress_pass() {
    for p in ["notes.md", "a/b/c.log", "deep/dir/file.txt", "x"] {
        let stored = compress_relative_path(p);
        assert!(is_gzipped_file(&stored));
        assert_eq!(decompress_relative_path(&stored), p);
    }
}

#[test]
fn stored_path_is_not_suffixed_a_second_time() {
    for stored in ["notes.md-gzipped.txt", "a/b-gzipped.txt"] {
        let restored = decompress_relative_path(stored);
        assert_eq!(compress_relative_path(&restored), stored);
    }
}

#[test]
fn suffix_detection_is_an_exact_trailing_match() {
    assert!(is_gzipped_file("file.txt-gzipped.txt"));
    assert!(is_gzipped_file("dir/file.txt-gzipped.txt"));
    assert!(!is_gzipped_file("file.txt"));
    assert!(!is_gzipped_file("file-gzipped.txt.bak"));
    assert!(!is_gzipped_file("gzipped.txt"));
}

#[test]
fn original_file_name_strips_only_the_marker() {
    assert_eq!(
        original_file_name("dir/file.txt-gzipped.txt"),
        Some("dir/file.txt".to_string())
    );
    assert_eq!(original_file_name("dir/file.txt"), None);
}
