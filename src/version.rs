//! The ABI revisions of the native library: which ones are supported, in
//! which order they are tried, how the active one is declared to the build,
//! and how the bundled source tree states its own major version.

use vstd::prelude::*;
use crate::text::{decimal, has_prefix, is_ascii_digit, push_decimal, starts_with, trim, trimmed, views};

verus! {

/// A supported major ABI revision of the native library.
#[derive(Clone, Copy, Debug, PartialEq, Eq, Structural)]
pub enum AbiVersion {
    V4,
    V5,
    V6,
    V7,
}

impl AbiVersion {
    pub open spec fn spec_major(&self) -> u32 {
        match self {
            AbiVersion::V4 => 4,
            AbiVersion::V5 => 5,
            AbiVersion::V6 => 6,
            AbiVersion::V7 => 7,
        }
    }

    /// The canonical major number of the revision.
    #[verifier::when_used_as_spec(spec_major)]
    pub fn major(&self) -> (r: u32)
        ensures
            r == self.spec_major(),
    {
        match self {
            AbiVersion::V4 => 4,
            AbiVersion::V5 => 5,
            AbiVersion::V6 => 6,
            AbiVersion::V7 => 7,
        }
    }

    /// The revision whose major number is `major`, if it is supported.
    pub fn from_major(major: u32) -> (r: Option<AbiVersion>)
        ensures
            r matches Some(v) ==> v.spec_major() == major,
            r is None <==> !(4 <= major <= 7),
    {
        match major {
            4 => Some(AbiVersion::V4),
            5 => Some(AbiVersion::V5),
            6 => Some(AbiVersion::V6),
            7 => Some(AbiVersion::V7),
            _ => None,
        }
    }
}

/// The supported revisions, newest first: the order in which probes try them.
pub open spec fn preference_order() -> Seq<AbiVersion> {
    seq![AbiVersion::V7, AbiVersion::V6, AbiVersion::V5, AbiVersion::V4]
}

/// The supported revisions in preference order.
pub fn candidates() -> (r: Vec<AbiVersion>)
    ensures
        r@ == preference_order(),
{
    let r = vec![AbiVersion::V7, AbiVersion::V6, AbiVersion::V5, AbiVersion::V4];
    assert(r@ =~= preference_order());
    r
}

/// What a probe for an installed library reports.
#[derive(Clone, Copy, Debug, PartialEq, Eq, Structural)]
pub enum ProbeResult {
    NotFound,
    Found(AbiVersion),
}

/// The outcome of a probe whose checks, one per candidate in preference
/// order, gave `checks`: the first candidate whose check succeeded.
pub open spec fn first_success(checks: Seq<bool>) -> ProbeResult
    decreases checks.len(),
{
    first_success_from(checks, 0)
}

pub open spec fn first_success_from(checks: Seq<bool>, i: nat) -> ProbeResult
    decreases 4 - i,
{
    if i >= 4 || i >= checks.len() {
        ProbeResult::NotFound
    } else if checks[i as int] {
        ProbeResult::Found(preference_order()[i as int])
    } else {
        first_success_from(checks, i + 1)
    }
}

/// A probe selects the newest revision whose check succeeded: its check
/// succeeded and every newer candidate's failed; and it finds nothing only
/// where no candidate's check succeeded.
pub proof fn lemma_probe_selects_newest_available(checks: Seq<bool>)
    ensures
        first_success(checks) matches ProbeResult::Found(v) ==> exists|i: int|
            0 <= i < 4 && i < checks.len() && #[trigger] checks[i] && preference_order()[i] == v
                && forall|j: int| 0 <= j < i ==> !#[trigger] checks[j],
        first_success(checks) == ProbeResult::NotFound ==> forall|i: int|
            0 <= i < 4 && i < checks.len() ==> !#[trigger] checks[i],
{
    lemma_first_success_from(checks, 0);
}

proof fn lemma_first_success_from(checks: Seq<bool>, k: nat)
    requires
        k <= 4,
    ensures
        first_success_from(checks, k) matches ProbeResult::Found(v) ==> exists|i: int|
            k <= i < 4 && i < checks.len() && #[trigger] checks[i] && preference_order()[i] == v
                && forall|j: int| k <= j < i ==> !#[trigger] checks[j],
        first_success_from(checks, k) == ProbeResult::NotFound ==> forall|i: int|
            k <= i < 4 && i < checks.len() ==> !#[trigger] checks[i],
    decreases 4 - k,
{
    if k < 4 && k < checks.len() {
        if checks[k as int] {
            assert(checks[k as int]);
        } else {
            lemma_first_success_from(checks, k + 1);
            match first_success_from(checks, k + 1) {
                ProbeResult::Found(v) => {
                    let i = choose|i: int|
                        k + 1 <= i < 4 && i < checks.len() && #[trigger] checks[i]
                            && preference_order()[i] == v && forall|j: int|
                            k + 1 <= j < i ==> !#[trigger] checks[j];
                    assert(k <= i < 4 && i < checks.len() && checks[i] && preference_order()[i]
                        == v);
                    assert forall|j: int| k <= j < i implies !#[trigger] checks[j] by {}
                },
                ProbeResult::NotFound => {},
            }
        }
    }
}

/// The result of a probe from the outcomes of its checks so far, taken in
/// preference order; checks past the fourth have no candidate.
pub fn probe_outcome(checks: &Vec<bool>) -> (r: ProbeResult)
    ensures
        r == first_success(checks@),
{
    let order = candidates();
    let n = checks.len();
    let mut i: usize = 0;
    while i < 4 && i < n
        invariant
            i <= 4,
            n == checks@.len(),
            order@ == preference_order(),
            first_success(checks@) == first_success_from(checks@, i as nat),
        decreases 4 - i,
    {
        if checks[i] {
            return ProbeResult::Found(order[i]);
        }
        i = i + 1;
    }
    ProbeResult::NotFound
}

/// The version range, lowest included and next major excluded, that the
/// metadata probe asks for: `"<major>.0.0"` and `"<major + 1>.0.0"`.
pub fn metadata_version_range(abi: AbiVersion) -> (r: (String, String))
    ensures
        r.0@ == decimal(abi.spec_major() as nat) + ".0.0"@,
        r.1@ == decimal(abi.spec_major() as nat + 1) + ".0.0"@,
{
    let m = abi.major();
    let mut low = String::new();
    push_decimal(&mut low, m);
    low.append(".0.0");
    let mut high = String::new();
    push_decimal(&mut high, m + 1);
    high.append(".0.0");
    (low, high)
}

/// The minimal program that the compile-and-link probe builds for `abi`.
pub fn smoke_test_source(abi: AbiVersion) -> (r: String)
    ensures
        r@ == "build/smoke_abi"@ + decimal(abi.spec_major() as nat) + ".c"@,
{
    let mut s = String::from_str("build/smoke_abi");
    push_decimal(&mut s, abi.major());
    s.append(".c");
    s
}

/// The build directives that declare `major` as the active major version:
/// the numeric fact and its gate flag.
pub open spec fn version_directive_lines(major: nat) -> Seq<Seq<char>> {
    seq!["cargo:libcec_version_major="@ + decimal(major), "cargo:rustc-cfg=abi"@ + decimal(major)]
}

/// Appends the directives that declare `major` (see `version_directive_lines`).
pub fn push_version_directives(out: &mut Vec<String>, major: u32)
    ensures
        views(final(out)@) == views(old(out)@) + version_directive_lines(major as nat),
{
    let mut fact = String::from_str("cargo:libcec_version_major=");
    push_decimal(&mut fact, major);
    let mut gate = String::from_str("cargo:rustc-cfg=abi");
    push_decimal(&mut gate, major);
    let ghost before = out@;
    out.push(fact);
    out.push(gate);
    assert(views(out@) =~= views(before) + version_directive_lines(major as nat));
}

/// One gate flag per supported revision, as the build declares them.
#[derive(Clone, Copy, Debug, PartialEq, Eq, Structural)]
pub struct VersionGates {
    pub abi4: bool,
    pub abi5: bool,
    pub abi6: bool,
    pub abi7: bool,
}

/// Why the gates name no single revision.
#[derive(Clone, Copy, Debug, PartialEq, Eq, Structural)]
pub enum GateError {
    NoGate,
    ConflictingGates,
}

impl VersionGates {
    pub open spec fn is_set(self, v: AbiVersion) -> bool {
        match v {
            AbiVersion::V4 => self.abi4,
            AbiVersion::V5 => self.abi5,
            AbiVersion::V6 => self.abi6,
            AbiVersion::V7 => self.abi7,
        }
    }

    /// The first revision, oldest first, whose gate is set.
    pub open spec fn set_version(self) -> AbiVersion {
        if self.abi4 {
            AbiVersion::V4
        } else if self.abi5 {
            AbiVersion::V5
        } else if self.abi6 {
            AbiVersion::V6
        } else {
            AbiVersion::V7
        }
    }

    /// How many gates are set.
    pub open spec fn count(self) -> nat {
        (if self.abi4 { 1nat } else { 0nat }) + (if self.abi5 { 1nat } else { 0nat }) + (if self.abi6 {
            1nat
        } else {
            0nat
        }) + (if self.abi7 { 1nat } else { 0nat })
    }

    /// The gates after `v` was declared: its own alone.
    pub fn declared(v: AbiVersion) -> (r: VersionGates)
        ensures
            forall|w: AbiVersion| #[trigger] r.is_set(w) <==> w == v,
            r.count() == 1,
            r.set_version() == v,
    {
        VersionGates {
            abi4: v == AbiVersion::V4,
            abi5: v == AbiVersion::V5,
            abi6: v == AbiVersion::V6,
            abi7: v == AbiVersion::V7,
        }
    }

    /// The one revision whose gate is set; an error where none or several are.
    pub fn active(&self) -> (r: Result<AbiVersion, GateError>)
        ensures
            self.count() == 0 <==> r == Err::<AbiVersion, GateError>(GateError::NoGate),
            self.count() > 1 <==> r == Err::<AbiVersion, GateError>(GateError::ConflictingGates),
            self.count() == 1 ==> r == Ok::<AbiVersion, GateError>(self.set_version()),
            r matches Ok(v) ==> self.is_set(v),
    {
        let n: u8 = (if self.abi4 { 1u8 } else { 0u8 }) + (if self.abi5 { 1u8 } else { 0u8 }) + (
        if self.abi6 {
            1u8
        } else {
            0u8
        }) + (if self.abi7 { 1u8 } else { 0u8 });
        if n == 0 {
            Err(GateError::NoGate)
        } else if n > 1 {
            Err(GateError::ConflictingGates)
        } else if self.abi4 {
            Ok(AbiVersion::V4)
        } else if self.abi5 {
            Ok(AbiVersion::V5)
        } else if self.abi6 {
            Ok(AbiVersion::V6)
        } else {
            Ok(AbiVersion::V7)
        }
    }
}

/// Whichever revision a strategy declared, exactly one gate is set, it is
/// that revision's, and reading the gates gives the revision back.
pub proof fn lemma_declared_gate_is_unique(v: AbiVersion, gates: VersionGates)
    requires
        forall|w: AbiVersion| #[trigger] gates.is_set(w) <==> w == v,
    ensures
        gates.count() == 1,
        gates.is_set(v),
        gates.set_version() == v,
{
    assert(gates.is_set(AbiVersion::V4) <==> v == AbiVersion::V4);
    assert(gates.is_set(AbiVersion::V5) <==> v == AbiVersion::V5);
    assert(gates.is_set(AbiVersion::V6) <==> v == AbiVersion::V6);
    assert(gates.is_set(AbiVersion::V7) <==> v == AbiVersion::V7);
}


/// A line of the bundled build descriptor that declares the major version:
/// trimmed, it begins with `set(LIBCEC_VERSION_MAJOR `.
pub open spec fn is_major_declaration(line: Seq<char>) -> bool {
    has_prefix(trimmed(line), "set(LIBCEC_VERSION_MAJOR "@)
}

/// The decimal digits of `line`, in order.
pub open spec fn digits_of(line: Seq<char>) -> Seq<char>
    decreases line.len(),
{
    if line.len() == 0 {
        seq![]
    } else if is_ascii_digit(line.last()) {
        digits_of(line.drop_last()).push(line.last())
    } else {
        digits_of(line.drop_last())
    }
}

pub open spec fn digit_value(c: char) -> int {
    (c as u32) as int - 48
}

/// The number that the digits `ds` write in base ten.
pub open spec fn decimal_value(ds: Seq<char>) -> int
    decreases ds.len(),
{
    if ds.len() == 0 {
        0
    } else {
        decimal_value(ds.drop_last()) * 10 + digit_value(ds.last())
    }
}

/// The first declaring line of a text whose lines so far are done and whose
/// current line holds `line`, with `rest` still to read; lines end at `\n`.
pub open spec fn declaration_from(rest: Seq<char>, line: Seq<char>) -> Option<Seq<char>>
    decreases rest.len(),
{
    if rest.len() == 0 {
        if is_major_declaration(line) {
            Some(line)
        } else {
            None
        }
    } else if rest[0] == '\n' {
        if is_major_declaration(line) {
            Some(line)
        } else {
            declaration_from(rest.drop_first(), seq![])
        }
    } else {
        declaration_from(rest.drop_first(), line.push(rest[0]))
    }
}

/// The first line of `text` that declares the major version.
pub open spec fn declaration_line(text: Seq<char>) -> Option<Seq<char>> {
    declaration_from(text, seq![])
}

/// Why no major version could be read from the build descriptor.
#[derive(Clone, Copy, Debug, PartialEq, Eq, Structural)]
pub enum DescriptorError {
    /// No line declares the major version.
    MissingDeclaration,
    /// The declaring line holds no digits, or more than a `u32` can hold.
    MalformedNumber,
}

/// The major version that the build descriptor `text` declares: the digits
/// of its first declaring line, read as one decimal number.
pub open spec fn declared_major(text: Seq<char>) -> Result<u32, DescriptorError> {
    match declaration_line(text) {
        None => Err(DescriptorError::MissingDeclaration),
        Some(line) => {
            let ds = digits_of(line);
            if ds.len() == 0 || decimal_value(ds) > u32::MAX {
                Err(DescriptorError::MalformedNumber)
            } else {
                Ok(decimal_value(ds) as u32)
            }
        },
    }
}

pub proof fn lemma_decimal_value_nonneg(ds: Seq<char>)
    requires
        forall|i: int| 0 <= i < ds.len() ==> is_ascii_digit(#[trigger] ds[i]),
    ensures
        decimal_value(ds) >= 0,
    decreases ds.len(),
{
    if ds.len() > 0 {
        lemma_decimal_value_nonneg(ds.drop_last());
    }
}

pub proof fn lemma_digits_are_digits(line: Seq<char>)
    ensures
        forall|i: int| 0 <= i < digits_of(line).len() ==> is_ascii_digit(#[trigger] digits_of(line)[i]),
    decreases line.len(),
{
    if line.len() > 0 {
        let d = digits_of(line.drop_last());
        lemma_digits_are_digits(line.drop_last());
        if is_ascii_digit(line.last()) {
            assert forall|i: int| 0 <= i < d.push(line.last()).len() implies is_ascii_digit(
                #[trigger] d.push(line.last())[i],
            ) by {
                if i < d.len() {
                    assert(d.push(line.last())[i] == d[i]);
                }
            }
        }
    }
}

fn is_declaration(line: &str) -> (r: bool)
    ensures
        r == is_major_declaration(line@),
{
    starts_with(trim(line), "set(LIBCEC_VERSION_MAJOR ")
}

/// The number that the digits of `line` write, read as `declared_major` says.
fn line_value(line: &str) -> (r: Result<u32, DescriptorError>)
    ensures
        ({
            let ds = digits_of(line@);
            if ds.len() == 0 || decimal_value(ds) > u32::MAX {
                r == Err::<u32, DescriptorError>(DescriptorError::MalformedNumber)
            } else {
                r == Ok::<u32, DescriptorError>(decimal_value(ds) as u32)
            }
        }),
{
    let m = line.unicode_len();
    let mut acc: u64 = 0;
    let mut seen = false;
    let mut overflow = false;
    let mut k: usize = 0;
    while k < m
        invariant
            k <= m,
            m == line@.len(),
            seen <==> digits_of(line@.subrange(0, k as int)).len() > 0,
            overflow <==> decimal_value(digits_of(line@.subrange(0, k as int))) > u32::MAX,
            !overflow ==> acc == decimal_value(digits_of(line@.subrange(0, k as int))),
            acc <= u32::MAX,
        decreases m - k,
    {
        let c = line.get_char(k);
        let ghost before = line@.subrange(0, k as int);
        let ghost after = line@.subrange(0, k + 1);
        assert(after.drop_last() =~= before);
        assert(after.last() == c);
        proof {
            lemma_digits_are_digits(before);
            lemma_decimal_value_nonneg(digits_of(before));
            let ds = digits_of(before);
            assert(ds.push(c).drop_last() =~= ds);
            assert(ds.push(c).last() == c);
        }
        if '0' <= c && c <= '9' {
            seen = true;
            if !overflow {
                let next: u64 = acc * 10 + (c as u64 - 48);
                if next > 0xffff_ffffu64 {
                    overflow = true;
                } else {
                    acc = next;
                }
            }
        }
        k = k + 1;
    }
    assert(line@.subrange(0, m as int) =~= line@);
    if !seen || overflow {
        Err(DescriptorError::MalformedNumber)
    } else {
        Ok(acc as u32)
    }
}

/// Reads the major version that the bundled build descriptor declares.
pub fn parse_major_version(text: &str) -> (r: Result<u32, DescriptorError>)
    ensures
        r == declared_major(text@),
{
    let n = text.unicode_len();
    let mut start: usize = 0;
    let mut i: usize = 0;
    assert(text@.skip(0) =~= text@);
    assert(text@.subrange(0, 0) =~= Seq::<char>::empty());
    while i < n
        invariant
            start <= i <= n,
            n == text@.len(),
            declaration_line(text@) == declaration_from(
                text@.skip(i as int),
                text@.subrange(start as int, i as int),
            ),
        decreases n - i,
    {
        let ghost rest = text@.skip(i as int);
        assert(rest.drop_first() =~= text@.skip(i + 1));
        assert(rest[0] == text@[i as int]);
        if text.get_char(i) == '\n' {
            let line = text.substring_char(start, i);
            if is_declaration(line) {
                return line_value(line);
            }
            start = i + 1;
            assert(text@.subrange(start as int, start as int) =~= Seq::<char>::empty());
        } else {
            assert(text@.subrange(start as int, i + 1) =~= text@.subrange(
                start as int,
                i as int,
            ).push(text@[i as int]));
        }
        i = i + 1;
    }
    let line = text.substring_char(start, n);
    if is_declaration(line) {
        line_value(line)
    } else {
        Err(DescriptorError::MissingDeclaration)
    }
}

} // verus!
