//! Renaming of the enumerated constants that the header binding generator emits, so
//! that one constant keeps one short name across the library's ABI revisions.

use vstd::prelude::*;
use vstd::string::is_ascii_spec_bytes;
use vstd::utf8::is_ascii_chars;
use crate::text::{
    has_prefix, is_ascii_digit, opt_str_view, opt_view, strip_prefix, strip_prefix_or_keep, trim, trimmed,
};

verus! {

/// The bytes of an ASCII character sequence.
pub open spec fn ascii_bytes(s: Seq<char>) -> Seq<u8> {
    Seq::new(s.len(), |i: int| s[i] as u8)
}

/// `a[p..p + len]` and `b[q..q + len]` are the same bytes.
pub open spec fn is_common_run(a: Seq<u8>, b: Seq<u8>, p: int, q: int, len: int) -> bool {
    &&& 0 <= p && 0 <= q && 0 <= len
    &&& p + len <= a.len() && q + len <= b.len()
    &&& a.subrange(p, p + len) == b.subrange(q, q + len)
}

/// `a` and `b` share a run of at least two bytes.
pub open spec fn shares_pair(a: Seq<u8>, b: Seq<u8>) -> bool {
    exists|p: int, q: int| #[trigger] is_common_run(a, b, p, q, 2)
}

/// `(p, q, len)` is the longest common run of `a` and `b` that starts first in
/// `b`, and then first in `a`; or `(0, 0, 0)` where they share no two bytes.
pub open spec fn is_first_longest_run(a: Seq<u8>, b: Seq<u8>, p: int, q: int, len: int) -> bool {
    if shares_pair(a, b) {
        &&& len >= 2
        &&& is_common_run(a, b, p, q, len)
        &&& forall|p2: int, q2: int, l2: int| #[trigger]
            is_common_run(a, b, p2, q2, l2) ==> l2 <= len
        &&& forall|p2: int, q2: int| #[trigger]
            is_common_run(a, b, p2, q2, len) ==> q < q2 || (q == q2 && p <= p2)
    } else {
        p == 0 && q == 0 && len == 0
    }
}

/// The run that `is_first_longest_run` describes (there is exactly one).
pub open spec fn first_longest_run(a: Seq<u8>, b: Seq<u8>) -> (int, int, int) {
    choose|p: int, q: int, len: int| is_first_longest_run(a, b, p, q, len)
}

/// There is at most one first longest run.
pub proof fn lemma_first_longest_run_unique(
    a: Seq<u8>,
    b: Seq<u8>,
    p: int,
    q: int,
    len: int,
    p2: int,
    q2: int,
    len2: int,
)
    requires
        is_first_longest_run(a, b, p, q, len),
        is_first_longest_run(a, b, p2, q2, len2),
    ensures
        p == p2 && q == q2 && len == len2,
{
    if shares_pair(a, b) {
        assert(is_common_run(a, b, p2, q2, len2));
        assert(is_common_run(a, b, p, q, len));
    }
}

pub proof fn lemma_first_longest_run_is(a: Seq<u8>, b: Seq<u8>, p: int, q: int, len: int)
    requires
        is_first_longest_run(a, b, p, q, len),
    ensures
        first_longest_run(a, b) == (p, q, len),
{
    let (p2, q2, l2) = first_longest_run(a, b);
    lemma_first_longest_run_unique(a, b, p, q, len, p2, q2, l2);
}

/// Relies on bcmp::longest_common_substring with `AlgoSpec::HashMatch(2)`.
/// Its `HashMatchIterator` walks `second` position by position and, at each,
/// the positions of `first` with the same two-byte window in increasing
/// order, extending each match as far as the bytes agree; a longest run is
/// never inside an earlier match on its diagonal, so each is reported from
/// its start. `longest_common_substring` keeps a match only when strictly
/// longer than the one it holds, starting from `Match::new(0, 0, 0)`. Both
/// inputs need two bytes: the window counts are `len - 2 + 1`.
#[verifier::external_body]
fn longest_common_run(first: &[u8], second: &[u8]) -> (r: (usize, usize, usize))
    requires
        first@.len() >= 2,
        second@.len() >= 2,
    ensures
        is_first_longest_run(first@, second@, r.0 as int, r.1 as int, r.2 as int),
{
    let m = bcmp::longest_common_substring(first, second, bcmp::AlgoSpec::HashMatch(2));
    (m.first_pos, m.second_pos, m.length)
}

/// What `str::to_uppercase` returns for a character sequence.
pub uninterp spec fn upper_of(s: Seq<char>) -> Seq<char>;

/// Relies on str::to_uppercase: its result depends on the characters alone.
#[verifier::external_body]
fn to_uppercase(s: &str) -> (r: String)
    ensures
        r@ == upper_of(s@),
{
    s.to_uppercase()
}

/// A remainder that would start with a digit gets a leading `_`.
pub open spec fn guard_leading_digit(rest: Seq<char>) -> Seq<char> {
    if rest.len() > 0 && is_ascii_digit(rest[0]) {
        seq!['_'] + rest
    } else {
        rest
    }
}

/// The short name of `variant` within an enum whose upper-cased name is
/// `upper_enum`: the longest run that the two names share, followed by `_`,
/// is removed from the front of the trimmed variant name. `None` where the
/// variant does not begin with that prefix, or where either name is not ASCII.
pub open spec fn without_instance_prefix(variant: Seq<char>, upper_enum: Seq<char>) -> Option<
    Seq<char>,
> {
    let v = trimmed(variant);
    if !(is_ascii_chars(v) && is_ascii_chars(upper_enum)) {
        None
    } else {
        let (p, q, len) = first_longest_run(ascii_bytes(v), ascii_bytes(upper_enum));
        let prefix = v.subrange(p, p + len).push('_');
        if has_prefix(v, prefix) {
            Some(guard_leading_digit(v.skip(prefix.len() as int)))
        } else {
            None
        }
    }
}

/// `_` followed by `rest`, or `rest` itself, as `guard_leading_digit` says.
fn guarded(rest: &str) -> (r: String)
    ensures
        r@ == guard_leading_digit(rest@),
{
    let n = rest.unicode_len();
    if n > 0 {
        let c = rest.get_char(0);
        if '0' <= c && c <= '9' {
            let mut s = String::from_str("_");
            proof {
                reveal_strlit("_");
            }
            s.append(rest);
            return s;
        }
    }
    String::from_str(rest)
}

/// Removes from `variant_name` the prefix that it shares with the
/// upper-cased enum name `upper_enum` (see `without_instance_prefix`).
pub fn strip_instance_prefix(variant_name: &str, upper_enum: &str) -> (r: Option<String>)
    ensures
        opt_view(r) == without_instance_prefix(variant_name@, upper_enum@),
        r matches Some(s) ==> !(s@.len() > 0 && is_ascii_digit(s@[0])),
{
    let v = trim(variant_name);
    if !v.is_ascii() || !upper_enum.is_ascii() {
        return None;
    }
    let vb = v.as_bytes();
    let ub = upper_enum.as_bytes();
    proof {
        is_ascii_spec_bytes(v);
        is_ascii_spec_bytes(upper_enum);
        assert(vb@ =~= ascii_bytes(v@));
        assert(ub@ =~= ascii_bytes(upper_enum@));
    }
    let (p, q, len) = if vb.len() >= 2 && ub.len() >= 2 {
        longest_common_run(vb, ub)
    } else {
        proof {
            if shares_pair(vb@, ub@) {
                let (x, y) = choose|x: int, y: int| #[trigger] is_common_run(vb@, ub@, x, y, 2);
                assert(is_common_run(vb@, ub@, x, y, 2));
            }
            assert(vb@.subrange(0, 0) =~= ub@.subrange(0, 0));
        }
        (0, 0, 0)
    };
    proof {
        lemma_first_longest_run_is(vb@, ub@, p as int, q as int, len as int);
    }
    let n = v.unicode_len();
    let ghost prefix = v@.subrange(p as int, p + len).push('_');
    // does `v` begin with `v[p..p + len]` followed by `_`?
    if len >= n || v.get_char(len) != '_' {
        assert(!has_prefix(v@, prefix)) by {
            if has_prefix(v@, prefix) {
                assert(v@.subrange(0, prefix.len() as int)[len as int] == prefix[len as int]);
            }
        }
        return None;
    }
    let mut k: usize = 0;
    while k < len
        invariant
            k <= len,
            len < n,
            n == v@.len(),
            p + len <= n,
            forall|i: int| 0 <= i < k ==> #[trigger] v@[i] == v@[p + i],
            prefix == v@.subrange(p as int, p + len).push('_'),
            v@ == trimmed(variant_name@),
            is_ascii_chars(v@) && is_ascii_chars(upper_enum@),
            first_longest_run(ascii_bytes(v@), ascii_bytes(upper_enum@)) == (
                p as int,
                q as int,
                len as int,
            ),
        decreases len - k,
    {
        if v.get_char(k) != v.get_char(p + k) {
            assert(!has_prefix(v@, prefix)) by {
                if has_prefix(v@, prefix) {
                    assert(v@.subrange(0, prefix.len() as int)[k as int] == prefix[k as int]);
                }
            }
            return None;
        }
        k = k + 1;
    }
    assert(v@.subrange(0, prefix.len() as int) =~= prefix);
    let rest = v.substring_char(len + 1, n);
    assert(rest@ =~= v@.skip(prefix.len() as int));
    Some(guarded(rest))
}

/// The remainder after the longest of the irregular family prefixes that
/// `variant` begins with; the table is listed longest first.
pub open spec fn exceptional_remainder(variant: Seq<char>) -> Option<Seq<char>> {
    if has_prefix(variant, "CEC_DEVICE_STATUS_"@) {
        Some(variant.skip("CEC_DEVICE_STATUS_"@.len() as int))
    } else if has_prefix(variant, "CEC_AUDIO_RATE_"@) {
        Some(variant.skip("CEC_AUDIO_RATE_"@.len() as int))
    } else if has_prefix(variant, "ADAPTERTYPE_"@) {
        Some(variant.skip("ADAPTERTYPE_"@.len() as int))
    } else if has_prefix(variant, "CEC_VENDOR_"@) {
        Some(variant.skip("CEC_VENDOR_"@.len() as int))
    } else if has_prefix(variant, "CEC_AUDIO_"@) {
        Some(variant.skip("CEC_AUDIO_"@.len() as int))
    } else if has_prefix(variant, "CECDEVICE_"@) {
        Some(variant.skip("CECDEVICE_"@.len() as int))
    } else {
        None
    }
}

/// An enum's declared name without the `enum ` keyword and the `LIB` prefix.
pub open spec fn bare_type_name(enum_name: Seq<char>) -> Seq<char> {
    strip_prefix_or_keep(strip_prefix_or_keep(enum_name, "enum "@), "LIB"@)
}

/// The short name of a constant `variant` of the enum `enum_name`.
pub open spec fn short_name(enum_name: Option<Seq<char>>, variant: Seq<char>) -> Option<Seq<char>> {
    match exceptional_remainder(variant) {
        Some(rest) => Some(rest),
        None => match enum_name {
            Some(e) => without_instance_prefix(variant, upper_of(bare_type_name(e))),
            None => None,
        },
    }
}

fn exceptional(variant_name: &str) -> (r: Option<String>)
    ensures
        opt_view(r) == exceptional_remainder(variant_name@),
{
    if let Some(rest) = strip_prefix(variant_name, "CEC_DEVICE_STATUS_") {
        return Some(String::from_str(rest));
    }
    if let Some(rest) = strip_prefix(variant_name, "CEC_AUDIO_RATE_") {
        return Some(String::from_str(rest));
    }
    if let Some(rest) = strip_prefix(variant_name, "ADAPTERTYPE_") {
        return Some(String::from_str(rest));
    }
    if let Some(rest) = strip_prefix(variant_name, "CEC_VENDOR_") {
        return Some(String::from_str(rest));
    }
    if let Some(rest) = strip_prefix(variant_name, "CEC_AUDIO_") {
        return Some(String::from_str(rest));
    }
    if let Some(rest) = strip_prefix(variant_name, "CECDEVICE_") {
        return Some(String::from_str(rest));
    }
    None
}

/// Removes the `enum ` keyword and then the `LIB` prefix, where present.
pub fn bare_type(enum_name: &str) -> (r: &str)
    ensures
        r@ == bare_type_name(enum_name@),
{
    let mut e = enum_name;
    if let Some(x) = strip_prefix(e, "enum ") {
        e = x;
    }
    if let Some(x) = strip_prefix(e, "LIB") {
        e = x;
    }
    e
}

/// The renaming applied to every enumerated constant of the generated
/// bindings.
pub struct TidySymbols;

impl TidySymbols {
    /// The short name for the constant `variant_name` of the enum
    /// `enum_name`, or `None` where the raw name is to be kept.
    pub fn enum_variant_name(&self, enum_name: Option<&str>, variant_name: &str) -> (r: Option<
        String,
    >)
        ensures
            opt_view(r) == short_name(opt_str_view(enum_name), variant_name@),
            exceptional_remainder(variant_name@) is None ==> (r matches Some(s) ==> !(s@.len() > 0
                && is_ascii_digit(s@[0]))),
    {
        let exception = exceptional(variant_name);
        if exception.is_some() {
            return exception;
        }
        match enum_name {
            None => None,
            Some(e) => {
                let upper = to_uppercase(bare_type(e));
                strip_instance_prefix(variant_name, upper.as_str())
            },
        }
    }
}

} // verus!
