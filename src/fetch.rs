//! The prebuilt-artifact fetcher: where an archive is published, how the
//! answer to its download is judged, and how the extracted static library is
//! linked on each platform.

use vstd::prelude::*;
use crate::gate::TargetOs;
use crate::text::{views};
use crate::version::{push_version_directives, version_directive_lines};

verus! {

/// The build profile of a prebuilt archive.
#[derive(Clone, Copy, Debug, PartialEq, Eq, Structural)]
pub enum BuildKind {
    Debug,
    Release,
}

impl BuildKind {
    pub open spec fn spec_name(&self) -> Seq<char> {
        match self {
            BuildKind::Debug => "debug"@,
            BuildKind::Release => "release"@,
        }
    }

    /// `debug` or `release`, as archive names spell the profile.
    pub fn as_str(&self) -> (r: &'static str)
        ensures
            r@ == self.spec_name(),
    {
        match self {
            BuildKind::Debug => "debug",
            BuildKind::Release => "release",
        }
    }

    /// The profile of a debug or a release build.
    pub fn from_debug(debug: bool) -> (r: BuildKind)
        ensures
            r == (if debug { BuildKind::Debug } else { BuildKind::Release }),
    {
        if debug {
            BuildKind::Debug
        } else {
            BuildKind::Release
        }
    }
}

/// Where the static archives of the pinned release are published, up to the
/// target triple.
pub open spec fn static_archive_base() -> Seq<char> {
    "https://github.com/ssalonen/libcec-static-builds/releases/download/libcec-v7.0.0-202504-1/libcec-v7.0.0-static-"@
}

/// The URL of the static archive for `target` and `kind`:
/// `<release>/libcec-v7.0.0-static-<target>-<kind>.zip`.
pub open spec fn static_archive_url_of(target: Seq<char>, kind: BuildKind) -> Seq<char> {
    static_archive_base() + target + "-"@ + kind.spec_name() + ".zip"@
}

pub fn static_archive_url(target: &str, kind: BuildKind) -> (r: String)
    ensures
        r@ == static_archive_url_of(target@, kind),
{
    let mut s = String::from_str(
        "https://github.com/ssalonen/libcec-static-builds/releases/download/libcec-v7.0.0-202504-1/libcec-v7.0.0-static-",
    );
    s.append(target);
    s.append("-");
    s.append(kind.as_str());
    s.append(".zip");
    s
}

/// Where the bootstrap archives of the pinned release are published, up to
/// the target triple.
pub open spec fn bootstrap_archive_base() -> Seq<char> {
    "https://github.com/opeik/owl/releases/download/libcec-v6.0.2/libcec-v6.0.2-"@
}

/// The URL of the bootstrap archive for `target` and `kind`:
/// `<release>/libcec-v6.0.2-<target>-<kind>.zip`.
pub open spec fn bootstrap_archive_url_of(target: Seq<char>, kind: BuildKind) -> Seq<char> {
    bootstrap_archive_base() + target + "-"@ + kind.spec_name() + ".zip"@
}

pub fn bootstrap_archive_url(target: &str, kind: BuildKind) -> (r: String)
    ensures
        r@ == bootstrap_archive_url_of(target@, kind),
{
    let mut s = String::from_str(
        "https://github.com/opeik/owl/releases/download/libcec-v6.0.2/libcec-v6.0.2-",
    );
    s.append(target);
    s.append("-");
    s.append(kind.as_str());
    s.append(".zip");
    s
}

/// Why a prebuilt artifact cannot be used.
#[derive(Clone, Copy, Debug, PartialEq, Eq, Structural)]
pub enum FetchError {
    /// The server has no archive for this target and profile.
    NotFound,
    /// The server answered with another client or server error status.
    HttpStatus(u16),
    /// The target triple could not be read.
    InvalidTarget,
    /// No prebuilt archive links on this operating system.
    UnsupportedTarget,
}

/// How the status of the download's answer is judged: 404 is told apart
/// from the other client and server errors; any other status lets the body
/// be read.
pub open spec fn status_verdict(status: u16) -> Result<(), FetchError> {
    if status == 404 {
        Err(FetchError::NotFound)
    } else if 400 <= status && status <= 599 {
        Err(FetchError::HttpStatus(status))
    } else {
        Ok(())
    }
}

pub fn check_download_status(status: u16) -> (r: Result<(), FetchError>)
    ensures
        r == status_verdict(status),
{
    if status == 404 {
        Err(FetchError::NotFound)
    } else if 400 <= status && status <= 599 {
        Err(FetchError::HttpStatus(status))
    } else {
        Ok(())
    }
}

/// The directives that link the extracted static library in `lib_dir`:
/// its search path, the library and its platform companion, then the
/// system and runtime libraries of the operating system; `None` where
/// there are none for it.
pub open spec fn static_link_lines(lib_dir: Seq<char>, os: TargetOs, debug: bool) -> Option<
    Seq<Seq<char>>,
> {
    let common = seq![
        "cargo:rustc-link-search=native="@ + lib_dir,
        "cargo:rustc-link-lib=static=cec-static"@,
        "cargo:rustc-link-lib=static=p8-platform"@,
    ];
    match os {
        TargetOs::Windows => Some(
            common + seq![
                if debug {
                    "cargo:rustc-link-lib=dylib=msvcrtd"@
                } else {
                    "cargo:rustc-link-lib=dylib=msvcrt"@
                },
            ],
        ),
        TargetOs::Darwin => Some(
            common + seq![
                "cargo:rustc-link-search=framework=/Library/Frameworks"@,
                "cargo:rustc-link-lib=dylib=c++"@,
                "cargo:rustc-link-lib=framework=CoreVideo"@,
                "cargo:rustc-link-lib=framework=IOKit"@,
            ],
        ),
        TargetOs::Linux => Some(common + seq!["cargo:rustc-link-lib=dylib=stdc++"@]),
        TargetOs::Other => None,
    }
}

pub fn static_link_directives(lib_dir: &str, os: TargetOs, debug: bool) -> (r: Result<
    Vec<String>,
    FetchError,
>)
    ensures
        match static_link_lines(lib_dir@, os, debug) {
            Some(lines) => r matches Ok(v) && views(v@) == lines,
            None => r == Err::<Vec<String>, FetchError>(FetchError::UnsupportedTarget),
        },
{
    let mut v: Vec<String> = Vec::new();
    let mut search = String::from_str("cargo:rustc-link-search=native=");
    search.append(lib_dir);
    v.push(search);
    v.push(String::from_str("cargo:rustc-link-lib=static=cec-static"));
    v.push(String::from_str("cargo:rustc-link-lib=static=p8-platform"));
    match os {
        TargetOs::Windows => {
            if debug {
                v.push(String::from_str("cargo:rustc-link-lib=dylib=msvcrtd"));
            } else {
                v.push(String::from_str("cargo:rustc-link-lib=dylib=msvcrt"));
            }
        },
        TargetOs::Darwin => {
            v.push(String::from_str("cargo:rustc-link-search=framework=/Library/Frameworks"));
            v.push(String::from_str("cargo:rustc-link-lib=dylib=c++"));
            v.push(String::from_str("cargo:rustc-link-lib=framework=CoreVideo"));
            v.push(String::from_str("cargo:rustc-link-lib=framework=IOKit"));
        },
        TargetOs::Linux => {
            v.push(String::from_str("cargo:rustc-link-lib=dylib=stdc++"));
        },
        TargetOs::Other => {
            return Err(FetchError::UnsupportedTarget);
        },
    }
    assert(views(v@) =~= static_link_lines(lib_dir@, os, debug).unwrap());
    Ok(v)
}

/// What `target_lexicon`'s parser reads as the operating system of a target
/// triple; `None` where the triple does not parse.
pub uninterp spec fn triple_os_of(triple: Seq<char>) -> Option<TargetOs>;

/// Relies on `<target_lexicon::Triple as FromStr>::from_str`, which parses a
/// target triple (its result depends on the text alone), and on its
/// `operating_system` field, of which Windows, Darwin and Linux are told apart.
#[verifier::external_body]
fn parse_target_os(triple: &str) -> (r: Option<TargetOs>)
    ensures
        r == triple_os_of(triple@),
{
    match <target_lexicon::Triple as std::str::FromStr>::from_str(triple) {
        Ok(t) => Some(
            match t.operating_system {
                target_lexicon::OperatingSystem::Windows => TargetOs::Windows,
                target_lexicon::OperatingSystem::Darwin => TargetOs::Darwin,
                target_lexicon::OperatingSystem::Linux => TargetOs::Linux,
                _ => TargetOs::Other,
            },
        ),
        Err(_) => None,
    }
}

/// The link directives of the static library for the target named by the
/// triple `target`.
pub fn link_directives_for_target(lib_dir: &str, target: &str, debug: bool) -> (r: Result<
    Vec<String>,
    FetchError,
>)
    ensures
        match triple_os_of(target@) {
            None => r == Err::<Vec<String>, FetchError>(FetchError::InvalidTarget),
            Some(os) => match static_link_lines(lib_dir@, os, debug) {
                Some(lines) => r matches Ok(v) && views(v@) == lines,
                None => r == Err::<Vec<String>, FetchError>(FetchError::UnsupportedTarget),
            },
        },
{
    match parse_target_os(target) {
        None => Err(FetchError::InvalidTarget),
        Some(os) => static_link_directives(lib_dir, os, debug),
    }
}

/// What the prebuilt archive declares: that the library is linked
/// statically, and its revision, 7.
pub open spec fn prebuilt_declaration_lines() -> Seq<Seq<char>> {
    seq!["cargo:lib_static=true"@] + version_directive_lines(7)
}

pub fn prebuilt_declarations() -> (r: Vec<String>)
    ensures
        views(r@) == prebuilt_declaration_lines(),
{
    let mut v: Vec<String> = Vec::new();
    v.push(String::from_str("cargo:lib_static=true"));
    assert(views(v@) =~= seq!["cargo:lib_static=true"@]);
    push_version_directives(&mut v, 7);
    v
}

} // verus!
