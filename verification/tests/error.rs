use local_registry::error::{kind_words, ErrorKind, VendorError};

#[test]
fn message_without_a_package() {
    let error = VendorError::new(ErrorKind::RepositoryCommitFailure, "no signature".to_string());
    assert_eq!(error.message(), "failed to commit the index: no signature");
    assert!(error.package.is_none());
}

#[test]
fn message_with_a_package() {
    let error = VendorError::new(ErrorKind::IoFailure, "disk full".to_string())
        .for_package("serde", "1.0.3");
    assert_eq!(
        error.message(),
        "failed to vendor `serde v1.0.3`: input or output failed: disk full"
    );
    assert_eq!(error.kind, ErrorKind::IoFailure);
    assert_eq!(error.detail, "disk full");
    let ident = error.package.unwrap();
    assert_eq!(ident.name, "serde");
    assert_eq!(ident.version, "1.0.3");
}

#[test]
fn every_kind_has_its_words() {
    assert_eq!(kind_words(ErrorKind::DirectoryAlreadyExists), "directory already exists");
    assert_eq!(
        kind_words(ErrorKind::PathNotUrlRepresentable),
        "path cannot be written as a URL"
    );
    assert_eq!(kind_words(ErrorKind::ArchiveNotFound), "cached archive not found");
    assert_eq!(kind_words(ErrorKind::IoFailure), "input or output failed");
    assert_eq!(kind_words(ErrorKind::SerializationFailure), "record could not be serialized");
    assert_eq!(
        kind_words(ErrorKind::RepositoryInitFailure),
        "index repository could not be created"
    );
    assert_eq!(kind_words(ErrorKind::RepositoryCommitFailure), "failed to commit the index");
}

#[test]
fn naming_a_package_again_replaces_the_first() {
    let error = VendorError::new(ErrorKind::IoFailure, "x".to_string())
        .for_package("a", "1")
        .for_package("b", "2");
    assert_eq!(error.message(), "failed to vendor `b v2`: input or output failed: x");
}
