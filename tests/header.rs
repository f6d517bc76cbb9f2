use libcec_sys::header::{default_bindings_path, placeholder_value, CecVersion};

#[test]
fn releases_by_major_version() {
    let v4 = CecVersion::from_major("4").unwrap();
    assert_eq!((v4.major, v4.minor, v4.patch, v4.git_tag), (4, 0, 5, "libcec-4.0.5"));
    let v5 = CecVersion::from_major("5").unwrap();
    assert_eq!((v5.major, v5.minor, v5.patch, v5.git_tag), (5, 0, 0, "libcec-5.0.0"));
    let v6 = CecVersion::from_major("6").unwrap();
    assert_eq!((v6.major, v6.minor, v6.patch, v6.git_tag), (6, 0, 2, "libcec-5.0.0"));
    assert!(CecVersion::from_major("7").is_none());
    assert!(CecVersion::from_major("44").is_none());
}

#[test]
fn source_url() {
    assert_eq!(
        CecVersion::from_major("4").unwrap().source_archive_url(),
        "https://github.com/Pulse-Eight/libcec/archive/refs/tags/libcec-4.0.5.zip"
    );
}

#[test]
fn version_header_fills_placeholders() {
    let template = "#define LIBCEC_VERSION_TO_UINT @LIBCEC_VERSION_MAJOR@.@LIBCEC_VERSION_MINOR@.@LIBCEC_VERSION_PATCH@ @LIBCEC_VERSION_OTHER@ @@LIBCEC_VERSION_MAJOR@";
    let filled = CecVersion::from_major("6").unwrap().version_header(template);
    assert_eq!(filled, "#define LIBCEC_VERSION_TO_UINT 6.0.2 @LIBCEC_VERSION_OTHER@ @6");
}

#[test]
fn placeholder_names() {
    assert_eq!(placeholder_value("MAJOR", "1", "2", "3"), "1");
    assert_eq!(placeholder_value("MINOR", "1", "2", "3"), "2");
    assert_eq!(placeholder_value("PATCH", "1", "2", "3"), "3");
}

#[test]
fn default_output_path() {
    assert_eq!(
        default_bindings_path("6", "x86_64-unknown-linux-gnu"),
        "src/lib_abi6_x86_64-unknown-linux-gnu.rs"
    );
}
