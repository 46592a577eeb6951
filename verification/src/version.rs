//! Reading, comparing and reporting the local Tailscale version.
//!
//! Stable releases carry even minor numbers; odd minors are the development
//! track. The floor below is a statement about what this server models, not
//! about what Tailscale supports.

use vstd::prelude::*;

use crate::text::{
    cat3, cat5, chars_of, decimal, decimal_text, is_digit, lines_seq, slice, split_seq, trim,
    trim_seq,
};

verus! {

/// A Tailscale version.
#[derive(Debug, Clone, Copy, PartialEq, Eq, PartialOrd, Ord, Hash, Structural)]
pub struct Version {
    pub major: u32,
    pub minor: u32,
    pub patch: u32,
}

/// The oldest release this server models faithfully: the newest release that
/// introduced a command belonging to the default preset (`tailscale metrics`,
/// 1.78).
pub fn supported_floor() -> (r: Version)
    ensures
        r == (Version { major: 1, minor: 78, patch: 0 }),
{
    Version { major: 1, minor: 78, patch: 0 }
}

/// `a` is older than `b`: compared by major, then minor, then patch.
pub open spec fn version_lt(a: Version, b: Version) -> bool {
    ||| a.major < b.major
    ||| (a.major == b.major && a.minor < b.minor)
    ||| (a.major == b.major && a.minor == b.minor && a.patch < b.patch)
}

// ---------------------------------------------------------------------------
// The grammar `from_str` accepts
// ---------------------------------------------------------------------------

/// Leading `v`s removed, as `trim_start_matches('v')` does.
pub open spec fn strip_vs(s: Seq<char>) -> Seq<char>
    decreases s.len(),
{
    if s.len() > 0 && s[0] == 'v' {
        strip_vs(s.drop_first())
    } else {
        s
    }
}

pub open spec fn is_version_char(c: char) -> bool {
    is_digit(c) || c == '.'
}

/// The characters up to the first one that cannot be part of a version, so
/// that a build suffix or trailing prose does not defeat the parse.
pub open spec fn version_head(s: Seq<char>) -> Seq<char>
    decreases s.len(),
{
    if s.len() > 0 && is_version_char(s[0]) {
        seq![s[0]] + version_head(s.drop_first())
    } else {
        seq![]
    }
}

/// The number a string of decimal digits spells.
pub open spec fn digits_value(p: Seq<char>) -> nat
    decreases p.len(),
{
    if p.len() == 0 {
        0
    } else {
        digits_value(p.drop_last()) * 10 + ((p.last() as nat) - 48) as nat
    }
}

/// `str::parse::<u32>` on a string of digits: nothing for an empty string or
/// a number that does not fit.
pub open spec fn parse_u32(p: Seq<char>) -> Option<u32> {
    if p.len() > 0 && digits_value(p) <= u32::MAX {
        Some(digits_value(p) as u32)
    } else {
        None
    }
}

/// What `"…".parse::<Version>()` makes of a string.
///
/// The first two dotted numbers are required; a third is the patch, and reads
/// as 0 when it is absent or does not parse; a fourth refuses the whole.
pub open spec fn parse_version(s: Seq<char>) -> Option<Version> {
    let parts = split_seq(version_head(strip_vs(trim_seq(s))), '.');
    let patch: u32 = if parts.len() >= 3 {
        match parse_u32(parts[2]) {
            Some(p) => p,
            None => 0,
        }
    } else {
        0
    };
    if parts.len() >= 2 && parse_u32(parts[0]) is Some && parse_u32(parts[1]) is Some
        && parts.len() <= 3 {
        Some(Version { major: parse_u32(parts[0])->0, minor: parse_u32(parts[1])->0, patch })
    } else {
        None
    }
}

/// The first line, trimmed, that reads as a version.
pub open spec fn first_version(ls: Seq<Seq<char>>) -> Option<Version>
    decreases ls.len(),
{
    if ls.len() == 0 {
        None
    } else {
        match parse_version(trim_seq(ls[0])) {
            Some(v) => Some(v),
            None => first_version(ls.drop_first()),
        }
    }
}

pub open spec fn version_text(v: Version) -> Seq<char> {
    decimal(v.major as nat) + "."@ + decimal(v.minor as nat) + "."@ + decimal(v.patch as nat)
}

/// Whether `found` satisfies a tool's minimum version. An unknown or
/// unreadable version on either side satisfies everything.
pub open spec fn spec_satisfies(found: Option<Version>, required: Option<Seq<char>>) -> bool {
    match (found, required) {
        (Some(f), Some(r)) => match parse_version(r) {
            Some(req) => !version_lt(f, req),
            None => true,
        },
        _ => true,
    }
}

fn strip_leading_vs(s: &str) -> (r: String)
    ensures
        r@ == strip_vs(s@),
{
    let x = chars_of(s);
    let n = x.len();
    let mut i: usize = 0;
    assert(x@.subrange(0, n as int) =~= x@);
    while i < n && x[i] == 'v'
        invariant
            n == x@.len(),
            x@ == s@,
            i <= n,
            strip_vs(s@) == strip_vs(x@.subrange(i as int, n as int)),
        decreases n - i,
    {
        assert(x@.subrange(i as int, n as int).drop_first() =~= x@.subrange(i + 1, n as int));
        i = i + 1;
    }
    slice(s, i, n)
}

proof fn lemma_head_prefix(s: Seq<char>, i: int)
    requires
        0 <= i <= s.len(),
        forall|k: int| 0 <= k < i ==> is_version_char(#[trigger] s[k]),
        i == s.len() || !is_version_char(s[i]),
    ensures
        version_head(s) == s.take(i),
    decreases i,
{
    if i > 0 {
        lemma_head_prefix(s.drop_first(), i - 1);
        assert(s.take(i) =~= seq![s[0]] + s.drop_first().take(i - 1));
    } else {
        assert(s.take(0) =~= Seq::<char>::empty());
    }
}

fn head(s: &str) -> (r: String)
    ensures
        r@ == version_head(s@),
{
    let x = chars_of(s);
    let n = x.len();
    let mut i: usize = 0;
    while i < n && (('0' <= x[i] && x[i] <= '9') || x[i] == '.')
        invariant
            n == x@.len(),
            x@ == s@,
            i <= n,
            forall|k: int| 0 <= k < i ==> is_version_char(#[trigger] x@[k]),
        decreases n - i,
    {
        i = i + 1;
    }
    proof {
        lemma_head_prefix(s@, i as int);
    }
    slice(s, 0, i)
}

/// `str::parse::<u32>` on a string of digits.
fn number(p: &str) -> (r: Option<u32>)
    requires
        forall|k: int| 0 <= k < p@.len() ==> is_digit(#[trigger] p@[k]),
    ensures
        r == parse_u32(p@),
{
    let x = chars_of(p);
    let n = x.len();
    let mut acc: u64 = 0;
    let mut over = false;
    let mut i: usize = 0;
    assert(x@.take(0) =~= Seq::<char>::empty());
    while i < n
        invariant
            n == x@.len(),
            x@ == p@,
            i <= n,
            forall|k: int| 0 <= k < n ==> is_digit(#[trigger] x@[k]),
            over ==> digits_value(x@.take(i as int)) > u32::MAX,
            !over ==> acc == digits_value(x@.take(i as int)) && acc <= u32::MAX,
        decreases n - i,
    {
        assert(x@.take(i + 1).drop_last() =~= x@.take(i as int));
        assert(x@.take(i + 1).last() == x@[i as int]);
        let d: u64 = (x[i] as u32 - 48) as u64;
        if !over {
            let next = acc * 10 + d;
            if next > 4294967295 {
                over = true;
            } else {
                acc = next;
            }
        }
        i = i + 1;
    }
    assert(x@.take(n as int) =~= x@);
    if n == 0 || over {
        None
    } else {
        Some(acc as u32)
    }
}

proof fn lemma_parts_are_digits(h: Seq<char>)
    requires
        forall|k: int| 0 <= k < h.len() ==> is_version_char(#[trigger] h[k]),
    ensures
        forall|j: int, k: int|
            0 <= j < split_seq(h, '.').len() && 0 <= k < split_seq(h, '.')[j].len() ==> is_digit(
                #[trigger] split_seq(h, '.')[j][k],
            ),
    decreases h.len(),
{
    if h.len() > 0 {
        lemma_parts_are_digits(h.drop_last());
        crate::text::lemma_split_nonempty(h.drop_last(), '.');
    }
}

proof fn lemma_head_chars(s: Seq<char>)
    ensures
        forall|k: int| 0 <= k < version_head(s).len() ==> is_version_char(#[trigger] version_head(s)[k]),
    decreases s.len(),
{
    if s.len() > 0 && is_version_char(s[0]) {
        lemma_head_chars(s.drop_first());
        assert forall|k: int| 0 <= k < version_head(s).len() implies is_version_char(
            #[trigger] version_head(s)[k],
        ) by {
            if k > 0 {
                assert(version_head(s)[k] == version_head(s.drop_first())[k - 1]);
            }
        }
    }
}


// ---------------------------------------------------------------------------
// What a written version reads back as
// ---------------------------------------------------------------------------

proof fn lemma_digits_value(n: nat)
    ensures
        digits_value(decimal(n)) == n,
    decreases n,
{
    let d = n % 10;
    assert((crate::text::digit_char(d) as nat) == d + 48);
    if n >= 10 {
        lemma_digits_value(n / 10);
        assert(decimal(n).drop_last() =~= decimal(n / 10));
        assert(decimal(n).last() == crate::text::digit_char(d));
        assert(digits_value(decimal(n)) == digits_value(decimal(n).drop_last()) * 10 + ((
        decimal(n).last() as nat) - 48) as nat);
        assert(n == (n / 10) * 10 + d);
    } else {
        assert(decimal(n).drop_last() =~= Seq::<char>::empty());
        assert(decimal(n).last() == crate::text::digit_char(n));
        assert(digits_value(decimal(n)) == digits_value(decimal(n).drop_last()) * 10 + ((
        decimal(n).last() as nat) - 48) as nat);
    }
}

proof fn lemma_no_dot(n: nat)
    ensures
        !decimal(n).contains('.'),
{
    crate::text::lemma_decimal(n);
    if decimal(n).contains('.') {
        let k = choose|k: int| 0 <= k < decimal(n).len() && decimal(n)[k] == '.';
        assert(is_digit(decimal(n)[k]));
    }
}

proof fn lemma_split_three(a: Seq<char>, b: Seq<char>, c: Seq<char>)
    requires
        !a.contains('.'),
        !b.contains('.'),
        !c.contains('.'),
    ensures
        split_seq(a + seq!['.'] + b + seq!['.'] + c, '.') == seq![a, b, c],
{
    let e: Seq<char> = seq![];
    crate::text::lemma_split_append(e, a, '.');
    assert(e + a =~= a);
    assert(split_seq(e, '.') =~= seq![e]);
    assert(split_seq(a, '.') =~= seq![a]);
    crate::text::lemma_split_separator(a, '.');
    crate::text::lemma_split_append(a.push('.'), b, '.');
    assert(split_seq(a.push('.') + b, '.') =~= seq![a, b]);
    crate::text::lemma_split_separator(a.push('.') + b, '.');
    crate::text::lemma_split_append((a.push('.') + b).push('.'), c, '.');
    assert((a.push('.') + b).push('.') + c =~= a + seq!['.'] + b + seq!['.'] + c);
    assert(split_seq(a + seq!['.'] + b + seq!['.'] + c, '.') =~= seq![a, b, c]);
}

proof fn lemma_all_version_chars(a: Seq<char>, b: Seq<char>, c: Seq<char>)
    requires
        forall|k: int| 0 <= k < a.len() ==> is_digit(#[trigger] a[k]),
        forall|k: int| 0 <= k < b.len() ==> is_digit(#[trigger] b[k]),
        forall|k: int| 0 <= k < c.len() ==> is_digit(#[trigger] c[k]),
    ensures
        ({
            let t = a + seq!['.'] + b + seq!['.'] + c;
            forall|k: int| 0 <= k < t.len() ==> is_version_char(#[trigger] t[k])
        }),
{
    let t = a + seq!['.'] + b + seq!['.'] + c;
    assert forall|k: int| 0 <= k < t.len() implies is_version_char(#[trigger] t[k]) by {
        if k < a.len() {
            assert(t[k] == a[k]);
        } else if k == a.len() {
        } else if k < a.len() + 1 + b.len() {
            assert(t[k] == b[k - a.len() - 1]);
        } else if k == a.len() + 1 + b.len() {
        } else {
            assert(t[k] == c[k - a.len() - 2 - b.len()]);
        }
    }
}

/// A version written out reads back as the same version: `to_text` and
/// `parse` undo each other.
pub proof fn written_version_reads_back(v: Version)
    ensures
        parse_version(version_text(v)) == Some(v),
{
    let a = decimal(v.major as nat);
    let b = decimal(v.minor as nat);
    let c = decimal(v.patch as nat);
    crate::text::lemma_decimal(v.major as nat);
    crate::text::lemma_decimal(v.minor as nat);
    crate::text::lemma_decimal(v.patch as nat);
    lemma_no_dot(v.major as nat);
    lemma_no_dot(v.minor as nat);
    lemma_no_dot(v.patch as nat);
    lemma_digits_value(v.major as nat);
    lemma_digits_value(v.minor as nat);
    lemma_digits_value(v.patch as nat);
    reveal_strlit(".");
    let t = a + seq!['.'] + b + seq!['.'] + c;
    assert(version_text(v) =~= t);
    assert(t[0] == a[0]);
    assert(t.last() == c[c.len() - 1]);
    crate::text::lemma_trim_unchanged(t);
    assert(strip_vs(t) == t);
    lemma_all_version_chars(a, b, c);
    lemma_head_prefix(t, t.len() as int);
    assert(t.take(t.len() as int) =~= t);
    lemma_split_three(a, b, c);
}

impl Version {
    pub fn new(major: u32, minor: u32, patch: u32) -> (r: Version)
        ensures
            r == (Version { major, minor, patch }),
    {
        Version { major, minor, patch }
    }

    /// Whether this is a development build: odd minor numbers are the
    /// unstable track.
    pub fn is_unstable(self) -> (r: bool)
        ensures
            r == (self.minor % 2 == 1),
    {
        self.minor % 2 == 1
    }

    /// Read a version, as `tailscale version` and a tool's minimum spell it.
    /// A build with a suffix — `1.102.2-t01a2b3c4` — reads as its release.
    pub fn parse(s: &str) -> (r: Option<Version>)
        ensures
            r == parse_version(s@),
    {
        let t = trim(s);
        let stripped = strip_leading_vs(t.as_str());
        let h = head(stripped.as_str());
        proof {
            lemma_head_chars(stripped@);
            lemma_parts_are_digits(h@);
            crate::text::lemma_split_nonempty(h@, '.');
        }
        let parts = crate::text::split(h.as_str(), '.');
        let ghost ps = parts.deep_view();
        assert(forall|j: int| 0 <= j < ps.len() ==> ps[j] == parts[j]@);
        if parts.len() < 2 || parts.len() > 3 {
            return None;
        }
        let major = match number(parts[0].as_str()) {
            Some(m) => m,
            None => {
                return None;
            },
        };
        let minor = match number(parts[1].as_str()) {
            Some(m) => m,
            None => {
                return None;
            },
        };
        let patch = if parts.len() == 3 {
            match number(parts[2].as_str()) {
                Some(p) => p,
                None => 0,
            }
        } else {
            0
        };
        Some(Version { major, minor, patch })
    }

    /// Read the version out of what `tailscale version` prints: the first
    /// line that reads as one, which is the client version.
    pub fn parse_cli_output(output: &str) -> (r: Option<Version>)
        ensures
            r == first_version(lines_seq(output@)),
    {
        let ls = crate::text::lines(output);
        let ghost lv = ls.deep_view();
        let mut i: usize = 0;
        assert(lv.skip(0) =~= lv);
        while i < ls.len()
            invariant
                lv == ls.deep_view(),
                lv == lines_seq(output@),
                i <= lv.len(),
                first_version(lv) == first_version(lv.skip(i as int)),
            decreases ls.len() - i,
        {
            assert(lv.skip(i as int)[0] == ls[i as int]@);
            assert(lv.skip(i as int).drop_first() =~= lv.skip(i + 1));
            let line = trim(ls[i].as_str());
            let found = Version::parse(line.as_str());
            if found.is_some() {
                return found;
            }
            i = i + 1;
        }
        None
    }

    /// `self` is older than `other`.
    pub fn older_than(&self, other: &Version) -> (r: bool)
        ensures
            r == version_lt(*self, *other),
    {
        self.major < other.major || (self.major == other.major && self.minor < other.minor) || (
        self.major == other.major && self.minor == other.minor && self.patch < other.patch)
    }

    /// The version as `major.minor.patch`.
    pub fn to_text(&self) -> (r: String)
        ensures
            r@ == version_text(*self),
    {
        let major = decimal_text(self.major as u64);
        let minor = decimal_text(self.minor as u64);
        let patch = decimal_text(self.patch as u64);
        let r = cat5(major.as_str(), ".", minor.as_str(), ".", patch.as_str());
        r
    }
}

/// Whether `found` satisfies a tool's `min_version`.
///
/// An unparseable or unknown version satisfies everything: a command the CLI
/// refuses is better than a command refused on a version string this server
/// could not read.
pub fn satisfies(found: Option<Version>, required: Option<&str>) -> (r: bool)
    ensures
        r == spec_satisfies(found, crate::common::opt_view(required)),
{
    match (found, required) {
        (Some(f), Some(r)) => match Version::parse(r) {
            Some(req) => !f.older_than(&req),
            None => true,
        },
        _ => true,
    }
}


/// Versions are ordered component by component: no version is older than
/// itself, the order is transitive, and of two different versions one is the
/// older.
pub proof fn versions_are_totally_ordered(a: Version, b: Version, c: Version)
    ensures
        !version_lt(a, a),
        version_lt(a, b) && version_lt(b, c) ==> version_lt(a, c),
        a != b ==> version_lt(a, b) || version_lt(b, a),
        !(version_lt(a, b) && version_lt(b, a)),
{
}

/// A requirement met by one release is met by every later one, and an
/// unknown version on either side blocks nothing.
pub proof fn a_newer_release_still_satisfies(
    found: Version,
    newer: Version,
    required: Option<Seq<char>>,
)
    ensures
        spec_satisfies(Some(found), required) && !version_lt(newer, found) ==> spec_satisfies(
            Some(newer),
            required,
        ),
        spec_satisfies(None, required),
        spec_satisfies(Some(found), None),
{
}

} // verus!
