use local_registry::error::{ErrorKind, VendorError};
use local_registry::layout::{
    archive_path, config_json, config_path, directory_url, download_dir, download_path,
    download_root, index_file, index_file_dir, index_root, join_path, usage_note,
};

#[test]
fn config_is_the_literal_around_the_url() {
    assert_eq!(
        config_json("file:///tmp/registry/cache"),
        "{\"dl\":\"file:///tmp/registry/cache\",\"api\":\"\"}"
    );
}

#[test]
fn config_has_no_white_space_and_no_line_end() {
    let content = config_json("file:///r/cache");
    assert_eq!(content.len(), "file:///r/cache".len() + 18);
    assert!(!content.contains(' '));
    assert!(!content.contains('\n'));
    assert!(content.starts_with("{\"dl\":\""));
    assert!(content.ends_with("\",\"api\":\"\"}"));
}

#[test]
fn config_of_an_empty_url() {
    assert_eq!(config_json(""), "{\"dl\":\"\",\"api\":\"\"}");
}

#[test]
fn roots_lie_below_the_registry_root() {
    assert_eq!(index_root("/tmp/reg"), "/tmp/reg/index");
    assert_eq!(download_root("/tmp/reg"), "/tmp/reg/cache");
    assert_eq!(config_path("/tmp/reg"), "/tmp/reg/index/config.json");
}

#[test]
fn archives_are_laid_out_by_name_and_version() {
    assert_eq!(download_dir("/tmp/reg", "serde", "1.0.3"), "/tmp/reg/cache/serde/1.0.3");
    assert_eq!(
        download_path("/tmp/reg", "serde", "1.0.3"),
        "/tmp/reg/cache/serde/1.0.3/download"
    );
}

#[test]
fn cached_archive_is_named_by_source_name_and_version() {
    assert_eq!(
        archive_path(
            "/home/u/.cargo/registry/cache",
            "github.com",
            "1ecc6299db9ec823",
            "serde",
            "1.0.3"
        ),
        "/home/u/.cargo/registry/cache/github.com-1ecc6299db9ec823/serde-1.0.3.crate"
    );
}

#[test]
fn index_files_lie_below_the_registry_root() {
    assert_eq!(index_file("/tmp/reg", "serde"), "/tmp/reg/index/se/rd/serde");
    assert_eq!(index_file_dir("/tmp/reg", "serde"), "/tmp/reg/index/se/rd");
    assert_eq!(index_file("/tmp/reg", "a"), "/tmp/reg/index/1/a");
    assert_eq!(index_file_dir("/tmp/reg", "abc"), "/tmp/reg/index/3/a");
}

#[test]
fn join_path_puts_a_slash_between() {
    assert_eq!(join_path("a", "b"), "a/b");
    assert_eq!(join_path("", "b"), "/b");
}

#[test]
fn absolute_directory_has_a_file_url() {
    assert_eq!(directory_url("/tmp/reg/index").unwrap(), "file:///tmp/reg/index");
    assert_eq!(directory_url("/tmp/with space").unwrap(), "file:///tmp/with%20space");
}

#[test]
fn relative_directory_has_no_file_url() {
    let error: VendorError = directory_url("reg/index").unwrap_err();
    assert_eq!(error.kind, ErrorKind::PathNotUrlRepresentable);
    assert_eq!(error.detail, "reg/index");
    assert!(error.package.is_none());
}

#[test]
fn usage_note_names_the_index() {
    assert_eq!(
        usage_note("file:///tmp/reg/index"),
        "Create a `.cargo/config` with this entry to use the vendor cache:\n\n    [registry]\n    index = \"file:///tmp/reg/index\"\n\n"
    );
}
