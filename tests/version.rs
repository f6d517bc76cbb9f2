use libcec_sys::version::{
    candidates, metadata_version_range, parse_major_version, probe_outcome, smoke_test_source,
    AbiVersion, DescriptorError, ProbeResult,
};

#[test]
fn parses_declared_major_version() {
    let text = "cmake_minimum_required(VERSION 3.12.0)\nproject(libcec)\n\nset(LIBCEC_VERSION_MAJOR 6)\nset(LIBCEC_VERSION_MINOR 0)\nset(LIBCEC_VERSION_PATCH 2)\n";
    assert_eq!(parse_major_version(text), Ok(6));
}

#[test]
fn indented_and_crlf_declaration() {
    let text = "project(libcec)\r\n   set(LIBCEC_VERSION_MAJOR 12)\r\n";
    assert_eq!(parse_major_version(text), Ok(12));
}

#[test]
fn missing_declaration_fails() {
    let text = "project(libcec)\nset(LIBCEC_VERSION_MINOR 0)\n";
    assert_eq!(parse_major_version(text), Err(DescriptorError::MissingDeclaration));
    assert_eq!(parse_major_version(""), Err(DescriptorError::MissingDeclaration));
}

#[test]
fn malformed_declaration_fails() {
    assert_eq!(
        parse_major_version("set(LIBCEC_VERSION_MAJOR x)\nset(LIBCEC_VERSION_MAJOR 4)"),
        Err(DescriptorError::MalformedNumber)
    );
    assert_eq!(
        parse_major_version("set(LIBCEC_VERSION_MAJOR 99999999999)"),
        Err(DescriptorError::MalformedNumber)
    );
    assert_eq!(parse_major_version("set(LIBCEC_VERSION_MAJOR 4294967295)"), Ok(4294967295));
}

#[test]
fn preference_order_is_newest_first() {
    assert_eq!(candidates(), vec![AbiVersion::V7, AbiVersion::V6, AbiVersion::V5, AbiVersion::V4]);
}

#[test]
fn probe_takes_first_success() {
    assert_eq!(probe_outcome(&vec![]), ProbeResult::NotFound);
    assert_eq!(probe_outcome(&vec![false, false, false, false]), ProbeResult::NotFound);
    assert_eq!(probe_outcome(&vec![false, true]), ProbeResult::Found(AbiVersion::V6));
    assert_eq!(probe_outcome(&vec![false, false, false, true]), ProbeResult::Found(AbiVersion::V4));
}

#[test]
fn probe_inputs() {
    let (low, high) = metadata_version_range(AbiVersion::V7);
    assert_eq!(low, "7.0.0");
    assert_eq!(high, "8.0.0");
    assert_eq!(smoke_test_source(AbiVersion::V5), "build/smoke_abi5.c");
}

#[test]
fn revisions_by_major_number() {
    assert_eq!(AbiVersion::from_major(4), Some(AbiVersion::V4));
    assert_eq!(AbiVersion::from_major(7), Some(AbiVersion::V7));
    assert_eq!(AbiVersion::from_major(3), None);
    assert_eq!(AbiVersion::from_major(8), None);
    assert_eq!(AbiVersion::V6.major(), 6);
}
