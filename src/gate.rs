//! The consumption side: of the pre-generated binding modules, one per
//! (revision, platform) pair, the one that matches the declared revision and
//! the target is selected; any other combination is an error.

use vstd::prelude::*;
use crate::text::{decimal, push_decimal};
use crate::version::{AbiVersion, GateError, VersionGates};

verus! {

/// The operating system of a target, as far as the build tells them apart.
#[derive(Clone, Copy, Debug, PartialEq, Eq, Structural)]
pub enum TargetOs {
    Windows,
    Darwin,
    Linux,
    Other,
}

/// The processor architecture of a target.
#[derive(Clone, Copy, Debug, PartialEq, Eq, Structural)]
pub enum TargetArch {
    X86_64,
    Arm,
    Aarch64,
    Other,
}

/// The target environment (C library and ABI family).
#[derive(Clone, Copy, Debug, PartialEq, Eq, Structural)]
pub enum TargetEnv {
    Msvc,
    Gnu,
    Other,
}

/// The ambient target: operating system, architecture and environment.
#[derive(Clone, Copy, Debug, PartialEq, Eq, Structural)]
pub struct TargetDesc {
    pub os: TargetOs,
    pub arch: TargetArch,
    pub env: TargetEnv,
}

/// The platforms for which binding modules were generated.
#[derive(Clone, Copy, Debug, PartialEq, Eq, Structural)]
pub enum BindingPlatform {
    X86_64PcWindowsMsvc,
    X86_64UnknownLinuxGnu,
    Armv7UnknownLinuxGnueabihf,
    Aarch64UnknownLinuxGnu,
    Aarch64AppleDarwin,
}

impl BindingPlatform {
    pub open spec fn spec_triple(&self) -> Seq<char> {
        match self {
            BindingPlatform::X86_64PcWindowsMsvc => "x86_64-pc-windows-msvc"@,
            BindingPlatform::X86_64UnknownLinuxGnu => "x86_64-unknown-linux-gnu"@,
            BindingPlatform::Armv7UnknownLinuxGnueabihf => "armv7-unknown-linux-gnueabihf"@,
            BindingPlatform::Aarch64UnknownLinuxGnu => "aarch64-unknown-linux-gnu"@,
            BindingPlatform::Aarch64AppleDarwin => "aarch64-apple-darwin"@,
        }
    }

    /// The target triple that names the platform's binding files.
    pub fn triple(&self) -> (r: &'static str)
        ensures
            r@ == self.spec_triple(),
    {
        match self {
            BindingPlatform::X86_64PcWindowsMsvc => "x86_64-pc-windows-msvc",
            BindingPlatform::X86_64UnknownLinuxGnu => "x86_64-unknown-linux-gnu",
            BindingPlatform::Armv7UnknownLinuxGnueabihf => "armv7-unknown-linux-gnueabihf",
            BindingPlatform::Aarch64UnknownLinuxGnu => "aarch64-unknown-linux-gnu",
            BindingPlatform::Aarch64AppleDarwin => "aarch64-apple-darwin",
        }
    }
}

/// The platform whose bindings serve `target`: 32-bit ARM Linux targets,
/// hard- and soft-float alike, share the `armv7` bindings; macOS is matched
/// on its architecture alone.
pub open spec fn platform_of(target: TargetDesc) -> Option<BindingPlatform> {
    match (target.os, target.arch, target.env) {
        (TargetOs::Windows, TargetArch::X86_64, TargetEnv::Msvc) => Some(
            BindingPlatform::X86_64PcWindowsMsvc,
        ),
        (TargetOs::Linux, TargetArch::X86_64, TargetEnv::Gnu) => Some(
            BindingPlatform::X86_64UnknownLinuxGnu,
        ),
        (TargetOs::Linux, TargetArch::Arm, TargetEnv::Gnu) => Some(
            BindingPlatform::Armv7UnknownLinuxGnueabihf,
        ),
        (TargetOs::Linux, TargetArch::Aarch64, TargetEnv::Gnu) => Some(
            BindingPlatform::Aarch64UnknownLinuxGnu,
        ),
        (TargetOs::Darwin, TargetArch::Aarch64, _) => Some(BindingPlatform::Aarch64AppleDarwin),
        _ => None,
    }
}

/// Binding modules were generated for revisions 4, 5 and 6.
pub open spec fn has_bindings(abi: AbiVersion) -> bool {
    abi != AbiVersion::V7
}

/// One pre-generated binding module.
#[derive(Clone, Copy, Debug, PartialEq, Eq, Structural)]
pub struct BindingModule {
    pub abi: AbiVersion,
    pub platform: BindingPlatform,
}

impl BindingModule {
    /// The major version that the module's bindings were generated for.
    pub fn cec_lib_version_major(&self) -> (r: u32)
        ensures
            r == self.abi.spec_major(),
    {
        self.abi.major()
    }

    /// The module's file: `lib_abi<major>_<triple>.rs`.
    pub fn file_name(&self) -> (r: String)
        ensures
            r@ == "lib_abi"@ + decimal(self.abi.spec_major() as nat) + "_"@
                + self.platform.spec_triple() + ".rs"@,
    {
        let mut s = String::from_str("lib_abi");
        push_decimal(&mut s, self.abi.major());
        s.append("_");
        s.append(self.platform.triple());
        s.append(".rs");
        s
    }
}

/// Why no binding module fits.
#[derive(Clone, Copy, Debug, PartialEq, Eq, Structural)]
pub enum SelectError {
    /// The version gates do not name exactly one revision.
    Gate(GateError),
    /// No module was generated for this revision and target.
    UnsupportedPlatform,
}

/// The module that `gates` and `target` select, or why there is none.
pub open spec fn selected_module(gates: VersionGates, target: TargetDesc) -> Result<
    BindingModule,
    SelectError,
> {
    if gates.count() == 0 {
        Err(SelectError::Gate(GateError::NoGate))
    } else if gates.count() > 1 {
        Err(SelectError::Gate(GateError::ConflictingGates))
    } else {
        let abi = gates.set_version();
        match platform_of(target) {
            Some(platform) if has_bindings(abi) => Ok(BindingModule { abi, platform }),
            _ => Err(SelectError::UnsupportedPlatform),
        }
    }
}

/// Selects the binding module for the declared revision and the target.
pub fn select_bindings(gates: &VersionGates, target: &TargetDesc) -> (r: Result<
    BindingModule,
    SelectError,
>)
    ensures
        r == selected_module(*gates, *target),
{
    let abi = match gates.active() {
        Ok(v) => v,
        Err(e) => {
            return Err(SelectError::Gate(e));
        },
    };
    let platform = match (target.os, target.arch, target.env) {
        (TargetOs::Windows, TargetArch::X86_64, TargetEnv::Msvc) => BindingPlatform::X86_64PcWindowsMsvc,
        (TargetOs::Linux, TargetArch::X86_64, TargetEnv::Gnu) => BindingPlatform::X86_64UnknownLinuxGnu,
        (TargetOs::Linux, TargetArch::Arm, TargetEnv::Gnu) => BindingPlatform::Armv7UnknownLinuxGnueabihf,
        (TargetOs::Linux, TargetArch::Aarch64, TargetEnv::Gnu) => BindingPlatform::Aarch64UnknownLinuxGnu,
        (TargetOs::Darwin, TargetArch::Aarch64, _) => BindingPlatform::Aarch64AppleDarwin,
        _ => {
            return Err(SelectError::UnsupportedPlatform);
        },
    };
    if abi == AbiVersion::V7 {
        return Err(SelectError::UnsupportedPlatform);
    }
    Ok(BindingModule { abi, platform })
}

} // verus!
