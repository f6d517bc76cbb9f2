//! The vendored build: the bundled source tree is staged, patched and
//! compiled in two stages. This module holds what that build decides (paths,
//! patches, configuration values, directives); running the tools is left to
//! the caller.

use vstd::prelude::*;
use crate::gate::TargetOs;
use crate::text::{has_prefix, starts_with, views};
use crate::version::{push_version_directives, version_directive_lines};

verus! {

/// The two families of platforms whose vendored builds differ.
#[derive(Clone, Copy, Debug, PartialEq, Eq, Structural)]
pub enum PlatformFamily {
    /// Two stages, each configured and built on its own.
    Posix,
    /// Both stages run through the bundled toolchain scripts.
    Windows,
}

impl PlatformFamily {
    pub open spec fn spec_separator(&self) -> char {
        match self {
            PlatformFamily::Posix => '/',
            PlatformFamily::Windows => '\\',
        }
    }

    /// The family of the operating system `os`.
    pub fn of(os: TargetOs) -> (r: PlatformFamily)
        ensures
            r == (if os == TargetOs::Windows {
                PlatformFamily::Windows
            } else {
                PlatformFamily::Posix
            }),
    {
        match os {
            TargetOs::Windows => PlatformFamily::Windows,
            _ => PlatformFamily::Posix,
        }
    }

    /// `dir` and `name` joined by the family's path separator.
    pub fn join(&self, dir: &str, name: &str) -> (r: String)
        ensures
            r@ == dir@ + seq![self.spec_separator()] + name@,
    {
        let mut s = String::from_str(dir);
        match self {
            PlatformFamily::Posix => {
                proof {
                    reveal_strlit("/");
                }
                s.append("/");
            },
            PlatformFamily::Windows => {
                proof {
                    reveal_strlit("\\");
                }
                s.append("\\");
            },
        }
        s.append(name);
        s
    }
}

/// The top-level build descriptor whose presence shows that the bundled
/// source tree was fetched.
pub fn source_descriptor() -> (r: &'static str)
    ensures
        r@ == "vendor/CMakeLists.txt"@,
{
    "vendor/CMakeLists.txt"
}

/// The staged copy of the source tree under the scratch directory `dst`.
pub fn staged_source_dir(family: PlatformFamily, dst: &str) -> (r: String)
    ensures
        r@ == dst@ + seq![family.spec_separator()] + "vendor"@,
{
    family.join(dst, "vendor")
}

/// The build-information fragment of the staged tree, which the patch
/// overwrites.
pub fn build_info_fragment(family: PlatformFamily, staged: &str) -> (r: String)
    ensures
        ({
            let s = seq![family.spec_separator()];
            r@ == staged@ + s + "src"@ + s + "libcec"@ + s + "cmake"@ + s
                + "SetBuildInfo.cmake"@
        }),
{
    let a = family.join(staged, "src");
    let b = family.join(a.as_str(), "libcec");
    let c = family.join(b.as_str(), "cmake");
    family.join(c.as_str(), "SetBuildInfo.cmake")
}

/// The whole new content of the build-information fragment: an empty,
/// constant build description in place of the revision and time stamps.
pub fn build_info_override() -> (r: &'static str)
    ensures
        r@ == "\n            set(LIB_INFO \"\")"@,
{
    "\n            set(LIB_INFO \"\")"
}

/// The output directory of the platform-abstraction stage.
pub fn platform_build_dir(family: PlatformFamily, dst: &str) -> (r: String)
    ensures
        r@ == dst@ + seq![family.spec_separator()] + "platform_build"@,
{
    family.join(dst, "platform_build")
}

/// The output directory of the main library stage.
pub fn libcec_build_dir(family: PlatformFamily, dst: &str) -> (r: String)
    ensures
        r@ == dst@ + seq![family.spec_separator()] + "libcec_build"@,
{
    family.join(dst, "libcec_build")
}

/// The environment variable through which both POSIX stages find the
/// platform-abstraction build.
pub fn platform_root_variable() -> (r: &'static str)
    ensures
        r@ == "p8-platform_ROOT"@,
{
    "p8-platform_ROOT"
}

/// The configuration values of the main POSIX stage: the language wrapper
/// is skipped, and the abstraction library's descriptor directory, headers
/// and archive under `platform_build` are named explicitly.
pub open spec fn libcec_define_lines(platform_build: Seq<char>) -> Seq<(Seq<char>, Seq<char>)> {
    seq![
        ("SKIP_PYTHON_WRAPPER"@, "1"@),
        ("p8-platform_DIR"@, platform_build + "/build"@),
        ("p8-platform_INCLUDE_DIRS"@, platform_build + "/include"@),
        ("p8-platform_LIBRARY"@, platform_build + "/build/libp8-platform.a"@),
    ]
}

pub open spec fn pair_views(v: Seq<(String, String)>) -> Seq<(Seq<char>, Seq<char>)> {
    v.map_values(|p: (String, String)| (p.0@, p.1@))
}

fn define(name: &str, value: String) -> (r: (String, String))
    ensures
        r.0@ == name@,
        r.1@ == value@,
{
    (String::from_str(name), value)
}

fn suffixed(s: &str, suffix: &str) -> (r: String)
    ensures
        r@ == s@ + suffix@,
{
    let mut r = String::from_str(s);
    r.append(suffix);
    r
}

pub fn libcec_defines(platform_build: &str) -> (r: Vec<(String, String)>)
    ensures
        pair_views(r@) == libcec_define_lines(platform_build@),
{
    let mut v: Vec<(String, String)> = Vec::new();
    v.push(define("SKIP_PYTHON_WRAPPER", String::from_str("1")));
    v.push(define("p8-platform_DIR", suffixed(platform_build, "/build")));
    v.push(define("p8-platform_INCLUDE_DIRS", suffixed(platform_build, "/include")));
    v.push(
        define("p8-platform_LIBRARY", suffixed(platform_build, "/build/libp8-platform.a")),
    );
    assert(pair_views(v@) =~= libcec_define_lines(platform_build@));
    v
}

/// The toolchain architecture name of the Windows scripts.
pub fn windows_architecture(pointer_width_64: bool) -> (r: &'static str)
    ensures
        r@ == (if pointer_width_64 { "amd64"@ } else { "x86"@ }),
{
    if pointer_width_64 {
        "amd64"
    } else {
        "x86"
    }
}

/// The configuration name of the Windows scripts for a debug or release
/// build.
pub fn windows_configuration(debug: bool) -> (r: &'static str)
    ensures
        r@ == (if debug { "Debug"@ } else { "Release"@ }),
{
    if debug {
        "Debug"
    } else {
        "Release"
    }
}

/// `t` with the occurrences of `from` replaced by `to`, scanning from the
/// left as `str::replace` does for a non-empty `from`; replaced text is not
/// scanned again, and an empty `from` replaces nothing.
pub open spec fn replaced(t: Seq<char>, from: Seq<char>, to: Seq<char>) -> Seq<char>
    decreases t.len(),
{
    if t.len() == 0 {
        seq![]
    } else if from.len() > 0 && has_prefix(t, from) {
        to + replaced(t.skip(from.len() as int), from, to)
    } else {
        seq![t[0]] + replaced(t.drop_first(), from, to)
    }
}

/// How many occurrences `replaced` replaces.
pub open spec fn replacement_count(t: Seq<char>, from: Seq<char>) -> nat
    decreases t.len(),
{
    if t.len() == 0 {
        0
    } else if from.len() > 0 && has_prefix(t, from) {
        1 + replacement_count(t.skip(from.len() as int), from)
    } else {
        replacement_count(t.drop_first(), from)
    }
}

/// Replaces the occurrences of `from` in `t` by `to`; also says whether
/// there was any.
pub fn replace_all(t: &str, from: &str, to: &str) -> (r: (String, bool))
    ensures
        r.0@ == replaced(t@, from@, to@),
        r.1 == (replacement_count(t@, from@) > 0),
{
    let n = t.unicode_len();
    let m = from.unicode_len();
    let mut out = String::new();
    let mut found = false;
    let mut i: usize = 0;
    assert(t@.skip(0) =~= t@);
    while i < n
        invariant
            i <= n,
            n == t@.len(),
            m == from@.len(),
            replaced(t@, from@, to@) == out@ + replaced(t@.skip(i as int), from@, to@),
            (replacement_count(t@, from@) > 0) == (found || replacement_count(
                t@.skip(i as int),
                from@,
            ) > 0),
        decreases n - i,
    {
        let rest = t.substring_char(i, n);
        assert(rest@ =~= t@.skip(i as int));
        if m > 0 && starts_with(rest, from) {
            assert(t@.skip(i as int).skip(m as int) =~= t@.skip(i + m));
            out.append(to);
            found = true;
            i = i + m;
        } else {
            let c = t.substring_char(i, i + 1);
            assert(t@.skip(i as int).drop_first() =~= t@.skip(i + 1));
            assert(c@ =~= seq![t@.skip(i as int)[0]]);
            out.append(c);
            i = i + 1;
        }
        assert(out@ + replaced(t@.skip(i as int), from@, to@) =~= replaced(t@, from@, to@));
    }
    assert(t@.skip(n as int) =~= Seq::<char>::empty());
    assert(out@ + Seq::<char>::empty() =~= out@);
    (out, found)
}

/// Why a bundled file could not be patched.
#[derive(Clone, Copy, Debug, PartialEq, Eq, Structural)]
pub enum PatchError {
    /// The line that the patch extends is not in the file.
    PatternMissing,
}

pub open spec fn generate_cmd_pattern() -> Seq<char> {
    "-DCMAKE_BUILD_TYPE=%BUILDTYPE% ^"@
}

pub open spec fn generate_cmd_replacement() -> Seq<char> {
    "-DCMAKE_BUILD_TYPE=%BUILDTYPE% -DSKIP_PYTHON_WRAPPER=1 ^"@
}

/// The Windows generation script with the language wrapper disabled: the
/// build-type option line gains `-DSKIP_PYTHON_WRAPPER=1`; an error where the
/// script has no such line.
pub fn patch_generate_cmd(contents: &str) -> (r: Result<String, PatchError>)
    ensures
        replacement_count(contents@, generate_cmd_pattern()) == 0 <==> r is Err,
        r matches Ok(s) ==> s@ == replaced(
            contents@,
            generate_cmd_pattern(),
            generate_cmd_replacement(),
        ),
{
    let (patched, found) = replace_all(
        contents,
        "-DCMAKE_BUILD_TYPE=%BUILDTYPE% ^",
        "-DCMAKE_BUILD_TYPE=%BUILDTYPE% -DSKIP_PYTHON_WRAPPER=1 ^",
    );
    if found {
        Ok(patched)
    } else {
        Err(PatchError::PatternMissing)
    }
}

/// What the vendored build declares and links: that it is vendored, the
/// revision that the bundled descriptor states, the search path of the built
/// library and the library itself.
pub open spec fn vendored_directive_lines(major: nat, lib_dir: Seq<char>) -> Seq<Seq<char>> {
    seq!["cargo:lib_vendored=true"@] + version_directive_lines(major) + seq![
        "cargo:rustc-link-search=native="@ + lib_dir,
        "cargo:rustc-link-lib=cec"@,
    ]
}

pub fn vendored_directives(major: u32, lib_dir: &str) -> (r: Vec<String>)
    ensures
        views(r@) == vendored_directive_lines(major as nat, lib_dir@),
{
    let mut v: Vec<String> = Vec::new();
    v.push(String::from_str("cargo:lib_vendored=true"));
    assert(views(v@) =~= seq!["cargo:lib_vendored=true"@]);
    push_version_directives(&mut v, major);
    let ghost before = v@;
    let mut search = String::from_str("cargo:rustc-link-search=native=");
    search.append(lib_dir);
    v.push(search);
    v.push(String::from_str("cargo:rustc-link-lib=cec"));
    assert(views(v@) =~= views(before) + seq![
        "cargo:rustc-link-search=native="@ + lib_dir@,
        "cargo:rustc-link-lib=cec"@,
    ]);
    v
}

/// The directory that holds the built library: `lib` under the main
/// stage's output on POSIX, the architecture's directory on Windows.
pub fn built_library_dir(family: PlatformFamily, libcec_build: &str, architecture: &str) -> (r:
    String)
    ensures
        r@ == libcec_build@ + seq![family.spec_separator()] + (if family
            == PlatformFamily::Posix {
            "lib"@
        } else {
            architecture@
        }),
{
    match family {
        PlatformFamily::Posix => family.join(libcec_build, "lib"),
        PlatformFamily::Windows => family.join(libcec_build, architecture),
    }
}

} // verus!
