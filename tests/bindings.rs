use libcec_sys::gate::{
    select_bindings, BindingModule, BindingPlatform, SelectError, TargetArch, TargetDesc, TargetEnv,
    TargetOs,
};
use libcec_sys::version::{AbiVersion, GateError, VersionGates};

fn linux_x86_64() -> TargetDesc {
    TargetDesc { os: TargetOs::Linux, arch: TargetArch::X86_64, env: TargetEnv::Gnu }
}

fn module_for(abi: AbiVersion) -> BindingModule {
    select_bindings(&VersionGates::declared(abi), &linux_x86_64()).unwrap()
}

#[test]
fn test_abi4() {
    assert_eq!(module_for(AbiVersion::V4).cec_lib_version_major(), 4);
}

#[test]
fn test_abi5() {
    assert_eq!(module_for(AbiVersion::V5).cec_lib_version_major(), 5);
}

#[test]
fn test_abi6() {
    assert_eq!(module_for(AbiVersion::V6).cec_lib_version_major(), 6);
}

#[test]
fn declared_revision_sets_exactly_its_gate() {
    for abi in [AbiVersion::V4, AbiVersion::V5, AbiVersion::V6, AbiVersion::V7] {
        let gates = VersionGates::declared(abi);
        let set = [gates.abi4, gates.abi5, gates.abi6, gates.abi7].iter().filter(|g| **g).count();
        assert_eq!(set, 1);
        assert_eq!(gates.active(), Ok(abi));
    }
}

#[test]
fn zero_or_two_gates_are_rejected() {
    let none = VersionGates { abi4: false, abi5: false, abi6: false, abi7: false };
    let two = VersionGates { abi4: true, abi5: false, abi6: true, abi7: false };
    assert_eq!(none.active(), Err(GateError::NoGate));
    assert_eq!(two.active(), Err(GateError::ConflictingGates));
    assert_eq!(select_bindings(&none, &linux_x86_64()), Err(SelectError::Gate(GateError::NoGate)));
    assert_eq!(
        select_bindings(&two, &linux_x86_64()),
        Err(SelectError::Gate(GateError::ConflictingGates))
    );
}

#[test]
fn unknown_platform_is_rejected() {
    let target = TargetDesc { os: TargetOs::Windows, arch: TargetArch::Aarch64, env: TargetEnv::Msvc };
    assert_eq!(
        select_bindings(&VersionGates::declared(AbiVersion::V5), &target),
        Err(SelectError::UnsupportedPlatform)
    );
    assert_eq!(
        select_bindings(&VersionGates::declared(AbiVersion::V7), &linux_x86_64()),
        Err(SelectError::UnsupportedPlatform)
    );
}

#[test]
fn arm_linux_uses_armv7_bindings() {
    let target = TargetDesc { os: TargetOs::Linux, arch: TargetArch::Arm, env: TargetEnv::Gnu };
    let m = select_bindings(&VersionGates::declared(AbiVersion::V6), &target).unwrap();
    assert_eq!(m.platform, BindingPlatform::Armv7UnknownLinuxGnueabihf);
    assert_eq!(m.file_name(), "lib_abi6_armv7-unknown-linux-gnueabihf.rs");
}

#[test]
fn macos_matches_on_architecture() {
    let target = TargetDesc { os: TargetOs::Darwin, arch: TargetArch::Aarch64, env: TargetEnv::Other };
    let m = select_bindings(&VersionGates::declared(AbiVersion::V4), &target).unwrap();
    assert_eq!(m.file_name(), "lib_abi4_aarch64-apple-darwin.rs");
}
