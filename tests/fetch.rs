use libcec_sys::fetch::{
    bootstrap_archive_url, check_download_status, link_directives_for_target, prebuilt_declarations,
    static_archive_url, static_link_directives, FetchError,
};
use libcec_sys::gate::TargetOs;
use libcec_sys::BuildKind;

#[test]
fn archive_url_for_linux_debug() {
    let url = static_archive_url("x86_64-unknown-linux-gnu", BuildKind::Debug);
    assert_eq!(
        url,
        "https://github.com/ssalonen/libcec-static-builds/releases/download/libcec-v7.0.0-202504-1/libcec-v7.0.0-static-x86_64-unknown-linux-gnu-debug.zip"
    );
    assert!(url.ends_with("-x86_64-unknown-linux-gnu-debug.zip"));
}

#[test]
fn bootstrap_url() {
    assert_eq!(
        bootstrap_archive_url("aarch64-apple-darwin", BuildKind::Release),
        "https://github.com/opeik/owl/releases/download/libcec-v6.0.2/libcec-v6.0.2-aarch64-apple-darwin-release.zip"
    );
}

#[test]
fn build_kind_names() {
    assert_eq!(BuildKind::Debug.as_str(), "debug");
    assert_eq!(BuildKind::Release.as_str(), "release");
    assert_eq!(BuildKind::from_debug(true), BuildKind::Debug);
}

#[test]
fn download_statuses() {
    assert_eq!(check_download_status(404), Err(FetchError::NotFound));
    assert_eq!(check_download_status(500), Err(FetchError::HttpStatus(500)));
    assert_eq!(check_download_status(403), Err(FetchError::HttpStatus(403)));
    assert_eq!(check_download_status(200), Ok(()));
    assert_eq!(check_download_status(302), Ok(()));
}

#[test]
fn linux_static_links() {
    let v = static_link_directives("/out/libcec", TargetOs::Linux, false).unwrap();
    assert_eq!(
        v,
        vec![
            "cargo:rustc-link-search=native=/out/libcec",
            "cargo:rustc-link-lib=static=cec-static",
            "cargo:rustc-link-lib=static=p8-platform",
            "cargo:rustc-link-lib=dylib=stdc++"
        ]
    );
    assert_eq!(static_link_directives("/o", TargetOs::Other, true), Err(FetchError::UnsupportedTarget));
}

#[test]
fn links_by_parsed_triple() {
    let win = link_directives_for_target("C:\\o", "x86_64-pc-windows-msvc", true).unwrap();
    assert_eq!(win.last().unwrap(), "cargo:rustc-link-lib=dylib=msvcrtd");
    let mac = link_directives_for_target("/o", "aarch64-apple-darwin", false).unwrap();
    assert_eq!(mac.len(), 7);
    assert_eq!(mac[6], "cargo:rustc-link-lib=framework=IOKit");
    let linux = link_directives_for_target("/o", "armv7-unknown-linux-gnueabihf", false).unwrap();
    assert_eq!(linux[3], "cargo:rustc-link-lib=dylib=stdc++");
    assert_eq!(
        link_directives_for_target("/o", "wasm32-unknown-unknown", false),
        Err(FetchError::UnsupportedTarget)
    );
    assert_eq!(link_directives_for_target("/o", "", false), Err(FetchError::InvalidTarget));
}

#[test]
fn prebuilt_declares_revision_seven() {
    assert_eq!(
        prebuilt_declarations(),
        vec!["cargo:lib_static=true", "cargo:libcec_version_major=7", "cargo:rustc-cfg=abi7"]
    );
}
