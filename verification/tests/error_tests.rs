use rokit::RokitError;

#[test]
fn wraps_json_error() {
    let e = serde_json::from_str::<serde_json::Value>("{").unwrap_err();
    assert!(matches!(RokitError::from(e), RokitError::Json(_)));
}

#[test]
fn wraps_io_error() {
    let e = std::io::Error::new(std::io::ErrorKind::NotFound, "missing");
    assert!(matches!(RokitError::from(e), RokitError::Io(_)));
}

#[test]
fn wraps_toml_error() {
    let e = "= broken".parse::<toml_edit::DocumentMut>().unwrap_err();
    assert!(matches!(RokitError::from(e), RokitError::TomlParseError(_)));
}

#[test]
fn wraps_zip_error() {
    let e = zip::result::ZipError::FileNotFound;
    assert!(matches!(RokitError::from(e), RokitError::Zip(_)));
}

#[test]
fn wraps_join_error() {
    let rt = tokio::runtime::Builder::new_current_thread().build().unwrap();
    let handle = rt.spawn(async {});
    handle.abort();
    match rt.block_on(handle) {
        Err(e) => assert!(matches!(
            RokitError::from(e),
            RokitError::TaskJoinError(_)
        )),
        Ok(()) => {}
    }
}

#[test]
fn direct_variants() {
    let home: RokitError = RokitError::HomeNotFound;
    assert!(matches!(home, RokitError::HomeNotFound));
    let missing = RokitError::FileNotFound(std::path::PathBuf::from("tools/ripgrep"));
    match missing {
        RokitError::FileNotFound(p) => assert_eq!(p, std::path::PathBuf::from("tools/ripgrep")),
        other => panic!("unexpected error {:?}", other),
    }
    assert!(matches!(
        RokitError::ExtractUnknownFormat,
        RokitError::ExtractUnknownFormat
    ));
    assert!(matches!(
        RokitError::ExtractFileMissing,
        RokitError::ExtractFileMissing
    ));
    assert!(matches!(RokitError::InvalidUtf8, RokitError::InvalidUtf8));
}
