//! The offline binding generator's own logic: which native release serves an
//! ABI revision, where its sources are published, how its version header is
//! filled in, and where the generated bindings are written.

use vstd::prelude::*;
use crate::text::{decimal, has_prefix, push_decimal, starts_with};

verus! {

/// The native release whose headers the bindings of one revision are
/// generated from.
#[derive(Clone, Copy, Debug)]
pub struct CecVersion {
    pub major: u32,
    pub minor: u32,
    pub patch: u32,
    /// The source-control tag of the release.
    pub git_tag: &'static str,
}

/// The release for the revision written `major_version`: major, minor,
/// patch and tag.
pub open spec fn release_for(major_version: Seq<char>) -> Option<(u32, u32, u32, Seq<char>)> {
    if major_version == seq!['4'] {
        Some((4, 0, 5, "libcec-4.0.5"@))
    } else if major_version == seq!['5'] {
        Some((5, 0, 0, "libcec-5.0.0"@))
    } else if major_version == seq!['6'] {
        Some((6, 0, 2, "libcec-5.0.0"@))
    } else {
        None
    }
}

impl CecVersion {
    pub open spec fn parts(&self) -> (u32, u32, u32, Seq<char>) {
        (self.major, self.minor, self.patch, self.git_tag@)
    }

    /// The release for the revision written `major_version` (`"4"`, `"5"`
    /// or `"6"`); `None` for any other text.
    pub fn from_major(major_version: &str) -> (r: Option<CecVersion>)
        ensures
            match release_for(major_version@) {
                Some(parts) => r matches Some(v) && v.parts() == parts,
                None => r is None,
            },
    {
        if major_version.unicode_len() != 1 {
            return None;
        }
        let c = major_version.get_char(0);
        assert(major_version@ =~= seq![c]);
        if c == '4' {
            Some(CecVersion { major: 4, minor: 0, patch: 5, git_tag: "libcec-4.0.5" })
        } else if c == '5' {
            Some(CecVersion { major: 5, minor: 0, patch: 0, git_tag: "libcec-5.0.0" })
        } else if c == '6' {
            Some(CecVersion { major: 6, minor: 0, patch: 2, git_tag: "libcec-5.0.0" })
        } else {
            None
        }
    }

    /// The URL of the release's source archive.
    pub fn source_archive_url(&self) -> (r: String)
        ensures
            r@ == "https://github.com/Pulse-Eight/libcec/archive/refs/tags/"@ + self.git_tag@
                + ".zip"@,
    {
        let mut s = String::from_str("https://github.com/Pulse-Eight/libcec/archive/refs/tags/");
        s.append(self.git_tag);
        s.append(".zip");
        s
    }

    /// The release's version header, from its template (see `filled_from`).
    pub fn version_header(&self, template: &str) -> (r: String)
        ensures
            r@ == filled_from(
                template@,
                decimal(self.major as nat),
                decimal(self.minor as nat),
                decimal(self.patch as nat),
            ),
    {
        let mut major = String::new();
        push_decimal(&mut major, self.major);
        let mut minor = String::new();
        push_decimal(&mut minor, self.minor);
        let mut patch = String::new();
        push_decimal(&mut patch, self.patch);
        fill_placeholders(template, major.as_str(), minor.as_str(), patch.as_str())
    }
}

/// `t` with every `@LIBCEC_VERSION_MAJOR@`, `@LIBCEC_VERSION_MINOR@` and
/// `@LIBCEC_VERSION_PATCH@` replaced by `major`, `minor` and `patch`,
/// scanning from the left; replaced text is not scanned again.
pub open spec fn filled_from(t: Seq<char>, major: Seq<char>, minor: Seq<char>, patch: Seq<char>) -> Seq<
    char,
>
    decreases t.len(),
{
    if t.len() == 0 {
        seq![]
    } else if "@LIBCEC_VERSION_MAJOR@"@.len() > 0 && has_prefix(t, "@LIBCEC_VERSION_MAJOR@"@) {
        major + filled_from(t.skip("@LIBCEC_VERSION_MAJOR@"@.len() as int), major, minor, patch)
    } else if "@LIBCEC_VERSION_MINOR@"@.len() > 0 && has_prefix(t, "@LIBCEC_VERSION_MINOR@"@) {
        minor + filled_from(t.skip("@LIBCEC_VERSION_MINOR@"@.len() as int), major, minor, patch)
    } else if "@LIBCEC_VERSION_PATCH@"@.len() > 0 && has_prefix(t, "@LIBCEC_VERSION_PATCH@"@) {
        patch + filled_from(t.skip("@LIBCEC_VERSION_PATCH@"@.len() as int), major, minor, patch)
    } else {
        seq![t[0]] + filled_from(t.drop_first(), major, minor, patch)
    }
}

/// The value that replaces the placeholder whose name (the part between
/// `@LIBCEC_VERSION_` and `@`) is `name`.
pub fn placeholder_value(name: &str, major: &str, minor: &str, patch: &str) -> (r: String)
    ensures
        name@ == "MAJOR"@ ==> r@ == major@,
        name@ == "MINOR"@ ==> r@ == minor@,
        name@ == "PATCH"@ ==> r@ == patch@,
{
    proof {
        reveal_strlit("MAJOR");
        reveal_strlit("MINOR");
        reveal_strlit("PATCH");
        assert(name@.subrange(0, name@.len() as int) =~= name@);
        if name@ == "MINOR"@ {
            assert(name@.subrange(0, 5)[1] != "MAJOR"@[1]);
        }
        if name@ == "PATCH"@ {
            assert(name@.subrange(0, 5)[0] != "MAJOR"@[0]);
            assert(name@.subrange(0, 5)[0] != "MINOR"@[0]);
        }
    }
    if starts_with(name, "MAJOR") {
        String::from_str(major)
    } else if starts_with(name, "MINOR") {
        String::from_str(minor)
    } else {
        String::from_str(patch)
    }
}

/// Relies on `regex::Regex::replace_all` with the pattern
/// `@LIBCEC_VERSION_(MAJOR|MINOR|PATCH)@`: it replaces the successive
/// non-overlapping leftmost-first matches, each by what the closure returns
/// for its first group. The pattern is a constant and compiles.
#[verifier::external_body]
fn fill_placeholders(template: &str, major: &str, minor: &str, patch: &str) -> (r: String)
    ensures
        r@ == filled_from(template@, major@, minor@, patch@),
{
    let re = regex::Regex::new(r"@LIBCEC_VERSION_(MAJOR|MINOR|PATCH)@").unwrap();
    re.replace_all(
        template,
        |caps: &regex::Captures| placeholder_value(&caps[1], major, minor, patch),
    ).into_owned()
}

/// Where the bindings generated for `major_version` on the host `host` are
/// written by default: `src/lib_abi<major_version>_<host>.rs`.
pub fn default_bindings_path(major_version: &str, host: &str) -> (r: String)
    ensures
        r@ == "src/lib_abi"@ + major_version@ + "_"@ + host@ + ".rs"@,
{
    let mut s = String::from_str("src/lib_abi");
    s.append(major_version);
    s.append("_");
    s.append(host);
    s.append(".rs");
    s
}

} // verus!
