use libcec_sys::fetch::{check_download_status, FetchError};
use libcec_sys::resolver::{
    dynamic_link_directives, override_is_set, resolve, AcquisitionStrategy, BuildConfig, ProbeKind,
    ResolverStep,
};
use libcec_sys::version::{AbiVersion, ProbeResult};

fn config(fv: bool, forbid: bool, fs: bool) -> BuildConfig {
    BuildConfig {
        feature_vendored: false,
        feature_static: false,
        force_vendored: fv,
        forbid_vendored: forbid,
        force_static: fs,
    }
}

#[test]
fn override_values() {
    assert!(!override_is_set(None));
    assert!(!override_is_set(Some("")));
    assert!(!override_is_set(Some("0")));
    assert!(override_is_set(Some("1")));
    assert!(override_is_set(Some("00")));
    assert!(override_is_set(Some("yes")));
}

#[test]
fn vendored_when_asked() {
    let c = config(true, false, true);
    assert_eq!(resolve(&c, None, None), ResolverStep::Decided(AcquisitionStrategy::Vendored));
    let mut f = config(false, false, false);
    f.feature_vendored = true;
    assert_eq!(resolve(&f, None, None), ResolverStep::Decided(AcquisitionStrategy::Vendored));
}

#[test]
fn forbid_vendored_dominates() {
    let probes = [
        (None, None),
        (Some(ProbeResult::NotFound), None),
        (Some(ProbeResult::Found(AbiVersion::V6)), None),
        (Some(ProbeResult::NotFound), Some(ProbeResult::Found(AbiVersion::V5))),
        (Some(ProbeResult::NotFound), Some(ProbeResult::NotFound)),
    ];
    for fs in [false, true] {
        for (m, e) in probes {
            let both = resolve(&config(true, true, fs), m, e);
            assert_eq!(both, resolve(&config(false, false, fs), m, e));
            assert_eq!(both, resolve(&config(false, true, fs), m, e));
        }
    }
    assert_eq!(
        resolve(&config(true, true, false), None, None),
        ResolverStep::RunMetadataProbe
    );
}

#[test]
fn static_override_downloads() {
    assert_eq!(
        resolve(&config(false, false, true), None, None),
        ResolverStep::Decided(AcquisitionStrategy::PrebuiltDownload)
    );
}

#[test]
fn probes_in_order() {
    let c = config(false, false, false);
    assert_eq!(resolve(&c, None, None), ResolverStep::RunMetadataProbe);
    assert_eq!(
        resolve(&c, Some(ProbeResult::Found(AbiVersion::V7)), None),
        ResolverStep::Decided(AcquisitionStrategy::DynamicLink {
            abi: AbiVersion::V7,
            probe: ProbeKind::Metadata
        })
    );
    assert_eq!(resolve(&c, Some(ProbeResult::NotFound), None), ResolverStep::RunEmpiricalProbe);
    assert_eq!(
        resolve(&c, Some(ProbeResult::NotFound), Some(ProbeResult::Found(AbiVersion::V4))),
        ResolverStep::Decided(AcquisitionStrategy::DynamicLink {
            abi: AbiVersion::V4,
            probe: ProbeKind::Empirical
        })
    );
}

#[test]
fn nothing_found_downloads_and_missing_archive_is_fatal() {
    let c = config(false, false, false);
    let step = resolve(&c, Some(ProbeResult::NotFound), Some(ProbeResult::NotFound));
    assert_eq!(step, ResolverStep::Decided(AcquisitionStrategy::PrebuiltDownload));
    assert_eq!(check_download_status(404), Err(FetchError::NotFound));
    assert_eq!(check_download_status(200), Ok(()));
}

#[test]
fn dynamic_directives() {
    assert_eq!(
        dynamic_link_directives(AbiVersion::V6, ProbeKind::Metadata),
        vec!["cargo:libcec_version_major=6".to_string(), "cargo:rustc-cfg=abi6".to_string()]
    );
    assert_eq!(
        dynamic_link_directives(AbiVersion::V5, ProbeKind::Empirical),
        vec![
            "cargo:rustc-link-lib=cec".to_string(),
            "cargo:libcec_version_major=5".to_string(),
            "cargo:rustc-cfg=abi5".to_string()
        ]
    );
}
