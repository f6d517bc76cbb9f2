use libcec_sys::vendored::{
    build_info_fragment, build_info_override, built_library_dir, libcec_defines,
    patch_generate_cmd, replace_all, vendored_directives, PatchError, PlatformFamily,
};

#[test]
fn build_info_patch() {
    assert_eq!(
        build_info_fragment(PlatformFamily::Posix, "/out/vendor"),
        "/out/vendor/src/libcec/cmake/SetBuildInfo.cmake"
    );
    assert_eq!(build_info_override(), "\n            set(LIB_INFO \"\")");
}

#[test]
fn main_stage_defines() {
    let d = libcec_defines("/out/platform_build");
    assert_eq!(d.len(), 4);
    assert_eq!(d[0], ("SKIP_PYTHON_WRAPPER".to_string(), "1".to_string()));
    assert_eq!(d[1].1, "/out/platform_build/build");
    assert_eq!(d[2].1, "/out/platform_build/include");
    assert_eq!(d[3], ("p8-platform_LIBRARY".to_string(), "/out/platform_build/build/libp8-platform.a".to_string()));
}

#[test]
fn generate_cmd_patch() {
    let script = "cmake -G \"NMake\" ^\n      -DCMAKE_BUILD_TYPE=%BUILDTYPE% ^\n      %SRC%\n";
    assert_eq!(
        patch_generate_cmd(script).unwrap(),
        "cmake -G \"NMake\" ^\n      -DCMAKE_BUILD_TYPE=%BUILDTYPE% -DSKIP_PYTHON_WRAPPER=1 ^\n      %SRC%\n"
    );
    assert_eq!(patch_generate_cmd("cmake %SRC%"), Err(PatchError::PatternMissing));
}

#[test]
fn replace_matches_std() {
    for (t, f, to) in [("aaaa", "aa", "b"), ("abcabc", "bc", "XY"), ("", "a", "b"), ("xyz", "", "q")] {
        let (r, found) = replace_all(t, f, to);
        if f.is_empty() {
            assert_eq!(r, t);
        } else {
            assert_eq!(r, t.replace(f, to));
        }
        assert_eq!(found, !f.is_empty() && t.contains(f));
    }
}

#[test]
fn vendored_link_lines() {
    let lib = built_library_dir(PlatformFamily::Posix, "/out/libcec_build", "amd64");
    assert_eq!(lib, "/out/libcec_build/lib");
    assert_eq!(
        built_library_dir(PlatformFamily::Windows, "C:\\out\\libcec_build", "amd64"),
        "C:\\out\\libcec_build\\amd64"
    );
    assert_eq!(
        vendored_directives(6, &lib),
        vec![
            "cargo:lib_vendored=true",
            "cargo:libcec_version_major=6",
            "cargo:rustc-cfg=abi6",
            "cargo:rustc-link-search=native=/out/libcec_build/lib",
            "cargo:rustc-link-lib=cec"
        ]
    );
}
