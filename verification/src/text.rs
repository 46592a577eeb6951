//! Character and string primitives, each stated over the characters of its
//! input.
//!
//! Every function here works on `char` positions rather than bytes, so a view
//! of a `&str` (a `Seq<char>`) is all a contract needs to speak of.

use vstd::prelude::*;

verus! {

// ---------------------------------------------------------------------------
// Character classes
// ---------------------------------------------------------------------------

/// Unicode `White_Space`, the property `char::is_whitespace` and `str::trim`
/// go by.
pub open spec fn is_space(c: char) -> bool {
    ||| ('\u{9}' <= c && c <= '\u{d}')
    ||| c == ' '
    ||| c == '\u{85}'
    ||| c == '\u{a0}'
    ||| c == '\u{1680}'
    ||| ('\u{2000}' <= c && c <= '\u{200a}')
    ||| c == '\u{2028}'
    ||| c == '\u{2029}'
    ||| c == '\u{202f}'
    ||| c == '\u{205f}'
    ||| c == '\u{3000}'
}

pub fn space(c: char) -> (r: bool)
    ensures
        r == is_space(c),
{
    ('\u{9}' <= c && c <= '\u{d}') || c == ' ' || c == '\u{85}' || c == '\u{a0}' || c
        == '\u{1680}' || ('\u{2000}' <= c && c <= '\u{200a}') || c == '\u{2028}' || c
        == '\u{2029}' || c == '\u{202f}' || c == '\u{205f}' || c == '\u{3000}'
}

pub open spec fn is_digit(c: char) -> bool {
    '0' <= c && c <= '9'
}

pub open spec fn is_alnum(c: char) -> bool {
    ||| is_digit(c)
    ||| ('a' <= c && c <= 'z')
    ||| ('A' <= c && c <= 'Z')
}

pub fn alnum(c: char) -> (r: bool)
    ensures
        r == is_alnum(c),
{
    ('0' <= c && c <= '9') || ('a' <= c && c <= 'z') || ('A' <= c && c <= 'Z')
}

pub open spec fn is_hex(c: char) -> bool {
    ||| is_digit(c)
    ||| ('a' <= c && c <= 'f')
    ||| ('A' <= c && c <= 'F')
}

pub fn hex(c: char) -> (r: bool)
    ensures
        r == is_hex(c),
{
    ('0' <= c && c <= '9') || ('a' <= c && c <= 'f') || ('A' <= c && c <= 'F')
}

/// `char::to_ascii_lowercase`: ASCII capitals lowered, everything else kept.
pub open spec fn lower(c: char) -> char {
    if 'A' <= c && c <= 'Z' {
        ((c as u32) + 32) as char
    } else {
        c
    }
}

pub open spec fn lower_seq(s: Seq<char>) -> Seq<char> {
    s.map_values(|c: char| lower(c))
}

// ---------------------------------------------------------------------------
// Reading a string one character at a time
// ---------------------------------------------------------------------------

/// The characters of `s`, in order.
pub fn chars_of(s: &str) -> (v: Vec<char>)
    ensures
        v@ == s@,
{
    let n = s.unicode_len();
    let mut v: Vec<char> = Vec::new();
    let mut i: usize = 0;
    while i < n
        invariant
            n == s@.len(),
            i <= n,
            v@ == s@.take(i as int),
        decreases n - i,
    {
        let c = s.get_char(i);
        v.push(c);
        i = i + 1;
        assert(v@ =~= s@.take(i as int));
    }
    assert(v@ =~= s@);
    v
}

/// The characters of `s` from `from` up to `to`, as a string of their own.
pub fn slice(s: &str, from: usize, to: usize) -> (r: String)
    requires
        from <= to <= s@.len(),
    ensures
        r@ == s@.subrange(from as int, to as int),
{
    s.substring_char(from, to).to_owned()
}

pub fn owned(s: &str) -> (r: String)
    ensures
        r@ == s@,
{
    s.to_owned()
}

/// Two strings hold the same characters.
pub fn same(a: &str, b: &str) -> (r: bool)
    ensures
        r == (a@ == b@),
{
    let x = chars_of(a);
    let y = chars_of(b);
    if x.len() != y.len() {
        return false;
    }
    let mut i: usize = 0;
    while i < x.len()
        invariant
            x@ == a@,
            y@ == b@,
            x@.len() == y@.len(),
            i <= x@.len(),
            forall|k: int| 0 <= k < i ==> x@[k] == y@[k],
        decreases x.len() - i,
    {
        if x[i] != y[i] {
            return false;
        }
        i = i + 1;
    }
    assert(a@ =~= b@);
    true
}

/// `prefix` is how `s` begins.
pub fn starts_with(s: &str, prefix: &str) -> (r: bool)
    ensures
        r == prefix@.is_prefix_of(s@),
{
    let x = chars_of(s);
    let p = chars_of(prefix);
    if p.len() > x.len() {
        return false;
    }
    let mut i: usize = 0;
    while i < p.len()
        invariant
            x@ == s@,
            p@ == prefix@,
            p@.len() <= x@.len(),
            i <= p@.len(),
            forall|k: int| 0 <= k < i ==> x@[k] == p@[k],
        decreases p.len() - i,
    {
        if x[i] != p[i] {
            assert(p@[i as int] != s@.subrange(0, p@.len() as int)[i as int]);
            return false;
        }
        i = i + 1;
    }
    assert(prefix@ =~= s@.subrange(0, prefix@.len() as int));
    true
}

/// `suffix` is how `s` ends.
pub fn ends_with(s: &str, suffix: &str) -> (r: bool)
    ensures
        r == suffix@.is_suffix_of(s@),
{
    let x = chars_of(s);
    let p = chars_of(suffix);
    if p.len() > x.len() {
        return false;
    }
    let off = x.len() - p.len();
    let mut i: usize = 0;
    while i < p.len()
        invariant
            x@ == s@,
            p@ == suffix@,
            p@.len() <= x@.len(),
            off + p@.len() == x@.len(),
            off + p.len() == x.len(),
            i <= p@.len(),
            forall|k: int| 0 <= k < i ==> x@[off + k] == p@[k],
        decreases p.len() - i,
    {
        if x[off + i] != p[i] {
            assert(p@[i as int] != s@.subrange(off as int, s@.len() as int)[i as int]);
            return false;
        }
        i = i + 1;
    }
    assert(suffix@ =~= s@.subrange(off as int, s@.len() as int));
    true
}

/// `c` occurs somewhere in `s`.
pub fn has_char(s: &str, c: char) -> (r: bool)
    ensures
        r == s@.contains(c),
{
    let x = chars_of(s);
    let mut i: usize = 0;
    while i < x.len()
        invariant
            x@ == s@,
            i <= x@.len(),
            forall|k: int| 0 <= k < i ==> x@[k] != c,
        decreases x.len() - i,
    {
        if x[i] == c {
            assert(s@[i as int] == c);
            return true;
        }
        i = i + 1;
    }
    false
}

// ---------------------------------------------------------------------------
// Trimming
// ---------------------------------------------------------------------------

pub open spec fn trim_start_seq(s: Seq<char>) -> Seq<char>
    decreases s.len(),
{
    if s.len() > 0 && is_space(s[0]) {
        trim_start_seq(s.drop_first())
    } else {
        s
    }
}

pub open spec fn trim_end_seq(s: Seq<char>) -> Seq<char>
    decreases s.len(),
{
    if s.len() > 0 && is_space(s.last()) {
        trim_end_seq(s.drop_last())
    } else {
        s
    }
}

/// `str::trim`: white space removed from both ends.
pub open spec fn trim_seq(s: Seq<char>) -> Seq<char> {
    trim_end_seq(trim_start_seq(s))
}

/// Where the characters that `trim` keeps begin and end.
fn trim_bounds(x: &Vec<char>) -> (r: (usize, usize))
    ensures
        r.0 <= r.1 <= x@.len(),
        trim_seq(x@) == x@.subrange(r.0 as int, r.1 as int),
        trim_start_seq(x@) == x@.subrange(r.0 as int, x@.len() as int),
{
    let n = x.len();
    let mut i: usize = 0;
    assert(x@.subrange(0, n as int) =~= x@);
    while i < n && space(x[i])
        invariant
            n == x@.len(),
            i <= n,
            trim_start_seq(x@) == trim_start_seq(x@.subrange(i as int, n as int)),
        decreases n - i,
    {
        assert(x@.subrange(i as int, n as int).drop_first() =~= x@.subrange(i + 1, n as int));
        i = i + 1;
    }
    let ghost t = x@.subrange(i as int, n as int);
    assert(trim_start_seq(t) == t);
    let mut j: usize = n;
    while j > i && space(x[j - 1])
        invariant
            n == x@.len(),
            i <= j <= n,
            t == x@.subrange(i as int, n as int),
            trim_end_seq(t) == trim_end_seq(x@.subrange(i as int, j as int)),
        decreases j,
    {
        assert(x@.subrange(i as int, j as int).drop_last() =~= x@.subrange(i as int, j - 1));
        j = j - 1;
    }
    (i, j)
}

pub fn trim(s: &str) -> (r: String)
    ensures
        r@ == trim_seq(s@),
{
    let x = chars_of(s);
    let (i, j) = trim_bounds(&x);
    slice(s, i, j)
}


pub fn trim_end(s: &str) -> (r: String)
    ensures
        r@ == trim_end_seq(s@),
{
    let x = chars_of(s);
    let n = x.len();
    let mut j: usize = n;
    assert(x@.subrange(0, n as int) =~= x@);
    while j > 0 && space(x[j - 1])
        invariant
            n == x@.len(),
            j <= n,
            trim_end_seq(x@) == trim_end_seq(x@.subrange(0, j as int)),
        decreases j,
    {
        assert(x@.subrange(0, j as int).drop_last() =~= x@.subrange(0, j - 1));
        j = j - 1;
    }
    slice(s, 0, j)
}

/// `trim_end_matches(['.', ','])`: sentence punctuation taken off the end.
pub open spec fn trim_punct_seq(s: Seq<char>) -> Seq<char>
    decreases s.len(),
{
    if s.len() > 0 && (s.last() == '.' || s.last() == ',') {
        trim_punct_seq(s.drop_last())
    } else {
        s
    }
}

pub fn trim_punct(s: &str) -> (r: String)
    ensures
        r@ == trim_punct_seq(s@),
{
    let x = chars_of(s);
    let n = x.len();
    let mut j: usize = n;
    assert(x@.subrange(0, n as int) =~= x@);
    while j > 0 && (x[j - 1] == '.' || x[j - 1] == ',')
        invariant
            n == x@.len(),
            j <= n,
            trim_punct_seq(x@) == trim_punct_seq(x@.subrange(0, j as int)),
        decreases j,
    {
        assert(x@.subrange(0, j as int).drop_last() =~= x@.subrange(0, j - 1));
        j = j - 1;
    }
    slice(s, 0, j)
}

// ---------------------------------------------------------------------------
// Splitting
// ---------------------------------------------------------------------------

/// `str::split(c)`: the pieces between occurrences of `c`, empty ones
/// included, so there is always at least one.
pub open spec fn split_seq(s: Seq<char>, c: char) -> Seq<Seq<char>>
    decreases s.len(),
{
    if s.len() == 0 {
        seq![seq![]]
    } else {
        let before = split_seq(s.drop_last(), c);
        if s.last() == c {
            before.push(seq![])
        } else {
            before.update(before.len() - 1, before.last().push(s.last()))
        }
    }
}

pub proof fn lemma_split_nonempty(s: Seq<char>, c: char)
    ensures
        split_seq(s, c).len() >= 1,
    decreases s.len(),
{
    if s.len() > 0 {
        lemma_split_nonempty(s.drop_last(), c);
    }
}

pub fn split(s: &str, c: char) -> (r: Vec<String>)
    ensures
        r.deep_view() == split_seq(s@, c),
{
    let x = chars_of(s);
    let n = x.len();
    let mut pieces: Vec<String> = Vec::new();
    let mut start: usize = 0;
    let mut i: usize = 0;
    assert(x@.take(0) =~= Seq::<char>::empty());
    assert(pieces.deep_view().push(x@.subrange(0, 0)) =~= split_seq(x@.take(0), c));
    while i < n
        invariant
            n == x@.len(),
            x@ == s@,
            start <= i <= n,
            pieces.deep_view().push(x@.subrange(start as int, i as int)) == split_seq(
                x@.take(i as int),
                c,
            ),
        decreases n - i,
    {
        let ghost before = pieces.deep_view();
        assert(x@.take(i + 1).drop_last() =~= x@.take(i as int));
        assert(x@.take(i + 1).last() == x@[i as int]);
        proof {
            lemma_split_nonempty(x@.take(i as int), c);
        }
        if x[i] == c {
            let ghost old_start = start;
            pieces.push(slice(s, start, i));
            assert(pieces.deep_view() =~= before.push(x@.subrange(old_start as int, i as int)));
            assert(split_seq(x@.take(i + 1), c) == split_seq(x@.take(i as int), c).push(seq![]));
            start = i + 1;
            assert(x@.subrange(start as int, i + 1) =~= Seq::<char>::empty());
        } else {
            assert(x@.subrange(start as int, i + 1) =~= x@.subrange(start as int, i as int).push(x@[i as int]));
            let ghost prev = split_seq(x@.take(i as int), c);
            assert(split_seq(x@.take(i + 1), c) == prev.update(prev.len() - 1, prev.last().push(x@[i as int])));
            assert(prev.update(prev.len() - 1, prev.last().push(x@[i as int])) =~= before.push(x@.subrange(start as int, i + 1)));
        }
        i = i + 1;
        assert(pieces.deep_view().push(x@.subrange(start as int, i as int)) =~= split_seq(x@.take(i as int), c));
    }
    assert(x@.take(n as int) =~= x@);
    pieces.push(slice(s, start, n));
    pieces
}

pub open spec fn strip_cr(l: Seq<char>) -> Seq<char> {
    if l.len() > 0 && l.last() == '\r' {
        l.drop_last()
    } else {
        l
    }
}

/// `str::lines`: split at `\n`, a `\r` before the `\n` removed, and no empty
/// last line for text that ends in a line break.
pub open spec fn lines_seq(s: Seq<char>) -> Seq<Seq<char>> {
    let p = split_seq(s, '\n');
    let init = p.drop_last().map_values(|l: Seq<char>| strip_cr(l));
    if p.last().len() == 0 {
        init
    } else {
        init.push(p.last())
    }
}

pub fn lines(s: &str) -> (r: Vec<String>)
    ensures
        r.deep_view() == lines_seq(s@),
{
    let p = split(s, '\n');
    proof {
        lemma_split_nonempty(s@, '\n');
    }
    let ghost ps = p.deep_view();
    let last = p.len() - 1;
    let mut r: Vec<String> = Vec::new();
    let mut i: usize = 0;
    while i < last
        invariant
            ps == p.deep_view(),
            ps == split_seq(s@, '\n'),
            last + 1 == ps.len(),
            i <= last,
            r.deep_view() =~= ps.drop_last().take(i as int).map_values(|l: Seq<char>| strip_cr(l)),
        decreases last - i,
    {
        let piece = p[i].as_str();
        assert(piece@ == ps[i as int]);
        let x = chars_of(piece);
        let k = x.len();
        let ghost before = r.deep_view();
        if k > 0 && x[k - 1] == '\r' {
            r.push(slice(piece, 0, k - 1));
            assert(piece@.subrange(0, k - 1) =~= strip_cr(piece@));
        } else {
            r.push(owned(piece));
        }
        assert(r.deep_view() =~= before.push(strip_cr(ps[i as int])));
        assert(ps.drop_last().take(i + 1) =~= ps.drop_last().take(i as int).push(ps[i as int]));
        i = i + 1;
    }
    assert(ps.drop_last().take(last as int) =~= ps.drop_last());
    let tail = p[last].as_str();
    if tail.unicode_len() > 0 {
        r.push(owned(tail));
    }
    r
}

/// `str::split_whitespace`: the runs of characters that are not white space.
pub open spec fn words_seq(s: Seq<char>) -> Seq<Seq<char>>
    decreases s.len(),
{
    if s.len() == 0 {
        seq![]
    } else {
        let w = words_seq(s.drop_last());
        let c = s.last();
        if is_space(c) {
            w
        } else if s.len() >= 2 && !is_space(s[s.len() - 2]) {
            w.update(w.len() - 1, w.last().push(c))
        } else {
            w.push(seq![c])
        }
    }
}

pub fn words(s: &str) -> (r: Vec<String>)
    ensures
        r.deep_view() == words_seq(s@),
{
    let x = chars_of(s);
    let n = x.len();
    let mut found: Vec<String> = Vec::new();
    let mut start: usize = 0;
    let mut in_word = false;
    let mut i: usize = 0;
    assert(x@.take(0) =~= Seq::<char>::empty());
    while i < n
        invariant
            n == x@.len(),
            x@ == s@,
            start <= i <= n,
            in_word <==> (i > 0 && !is_space(x@[i - 1])),
            in_word ==> start < i,
            in_word ==> found.deep_view().push(x@.subrange(start as int, i as int)) == words_seq(
                x@.take(i as int),
            ),
            !in_word ==> found.deep_view() == words_seq(x@.take(i as int)),
        decreases n - i,
    {
        assert(x@.take(i + 1).drop_last() =~= x@.take(i as int));
        assert(x@.take(i + 1).last() == x@[i as int]);
        if space(x[i]) {
            if in_word {
                found.push(slice(s, start, i));
            }
            in_word = false;
        } else if in_word {
            assert(x@.take(i + 1)[i - 1] == x@[i - 1]);
            assert(x@.subrange(start as int, i + 1) =~= x@.subrange(start as int, i as int).push(
                x@[i as int],
            ));
        } else {
            start = i;
            assert(x@.subrange(start as int, i + 1) =~= seq![x@[i as int]]);
            if i > 0 {
                assert(x@.take(i + 1)[i - 1] == x@[i - 1]);
            }
            in_word = true;
        }
        i = i + 1;
        if in_word {
            assert(found.deep_view().push(x@.subrange(start as int, i as int)) =~= words_seq(
                x@.take(i as int),
            ));
        } else {
            assert(found.deep_view() =~= words_seq(x@.take(i as int)));
        }
    }
    assert(x@.take(n as int) =~= x@);
    if in_word {
        found.push(slice(s, start, n));
    }
    found
}


// ---------------------------------------------------------------------------
// Finding a separator
// ---------------------------------------------------------------------------

/// `p` stands in `s` at position `i`.
pub open spec fn occurs_at(s: Seq<char>, p: Seq<char>, i: int) -> bool {
    0 <= i && i + p.len() <= s.len() && s.subrange(i, i + p.len()) == p
}

/// `i` is the last position `p` stands at in `s`.
pub open spec fn last_at(s: Seq<char>, p: Seq<char>, i: int) -> bool {
    occurs_at(s, p, i) && forall|j: int| i < j ==> !#[trigger] occurs_at(s, p, j)
}

/// `str::rsplit_once(p)`: what comes before and after the last `p`.
pub open spec fn rsplit_once_seq(s: Seq<char>, p: Seq<char>) -> Option<(Seq<char>, Seq<char>)> {
    if exists|i: int| last_at(s, p, i) {
        let i = choose|i: int| last_at(s, p, i);
        Some((s.take(i), s.skip(i + p.len())))
    } else {
        None
    }
}

pub fn occurs_at_exec(x: &Vec<char>, p: &Vec<char>, i: usize) -> (r: bool)
    requires
        i + p@.len() <= x@.len(),
    ensures
        r == occurs_at(x@, p@, i as int),
{
    let mut k: usize = 0;
    while k < p.len()
        invariant
            i + p@.len() <= x@.len(),
            i + p.len() <= x.len(),
            k <= p@.len(),
            forall|j: int| 0 <= j < k ==> x@[i + j] == p@[j],
        decreases p.len() - k,
    {
        if x[i + k] != p[k] {
            assert(x@.subrange(i as int, i + p@.len())[k as int] != p@[k as int]);
            return false;
        }
        k = k + 1;
    }
    assert(x@.subrange(i as int, i + p@.len()) =~= p@);
    true
}

/// `str::rsplit_once`, for a separator that is not empty.
pub fn rsplit_once(s: &str, p: &str) -> (r: Option<(String, String)>)
    requires
        p@.len() > 0,
    ensures
        match rsplit_once_seq(s@, p@) {
            Some((a, b)) => r matches Some((x, y)) && x@ == a && y@ == b,
            None => r is None,
        },
{
    let x = chars_of(s);
    let q = chars_of(p);
    if q.len() > x.len() {
        assert forall|i: int| !last_at(s@, p@, i) by {}
        return None;
    }
    let mut i: usize = x.len() - q.len() + 1;
    while i > 0
        invariant
            x@ == s@,
            q@ == p@,
            q@.len() <= x@.len(),
            q.len() <= x.len(),
            i <= x@.len() - q@.len() + 1,
            forall|j: int| i <= j ==> !#[trigger] occurs_at(s@, p@, j),
        decreases i,
    {
        i = i - 1;
        if occurs_at_exec(&x, &q, i) {
            proof {
                assert(last_at(s@, p@, i as int));
                let c = choose|c: int| last_at(s@, p@, c);
                assert(c == i) by {
                    if c < i {
                        assert(occurs_at(s@, p@, i as int));
                    } else if c > i {
                        assert(!occurs_at(s@, p@, c));
                    }
                }
            }
            let before = slice(s, 0, i);
            let after = slice(s, i + q.len(), x.len());
            return Some((before, after));
        }
    }
    assert forall|i: int| !last_at(s@, p@, i) by {
        if i >= 0 {
            assert(!occurs_at(s@, p@, i));
        }
    }
    None
}

// ---------------------------------------------------------------------------
// Numbers
// ---------------------------------------------------------------------------

pub open spec fn digit_char(d: nat) -> char {
    ((d % 10) + 48) as char
}

/// A natural number in decimal, as `u64::to_string` writes it.
pub open spec fn decimal(n: nat) -> Seq<char>
    decreases n,
{
    if n < 10 {
        seq![digit_char(n)]
    } else {
        decimal(n / 10).push(digit_char(n % 10))
    }
}

/// A signed number in decimal, with a leading `-` when it is negative.
pub open spec fn signed_decimal(n: int) -> Seq<char> {
    if n < 0 {
        seq!['-'] + decimal((-n) as nat)
    } else {
        decimal(n as nat)
    }
}

fn digit_text(d: u64) -> (r: &'static str)
    requires
        d < 10,
    ensures
        r@ == seq![digit_char(d as nat)],
{
    proof {
        reveal_strlit("0");
        reveal_strlit("1");
        reveal_strlit("2");
        reveal_strlit("3");
        reveal_strlit("4");
        reveal_strlit("5");
        reveal_strlit("6");
        reveal_strlit("7");
        reveal_strlit("8");
        reveal_strlit("9");
    }
    if d == 0 {
        "0"
    } else if d == 1 {
        "1"
    } else if d == 2 {
        "2"
    } else if d == 3 {
        "3"
    } else if d == 4 {
        "4"
    } else if d == 5 {
        "5"
    } else if d == 6 {
        "6"
    } else if d == 7 {
        "7"
    } else if d == 8 {
        "8"
    } else {
        "9"
    }
}

pub fn decimal_text(n: u64) -> (r: String)
    ensures
        r@ == decimal(n as nat),
    decreases n,
{
    if n < 10 {
        owned(digit_text(n))
    } else {
        let mut r = decimal_text(n / 10);
        r.append(digit_text(n % 10));
        r
    }
}

pub fn signed_text(n: i64) -> (r: String)
    ensures
        r@ == signed_decimal(n as int),
{
    if n < 0 {
        let m: u64 = (0i128 - (n as i128)) as u64;
        let mut r = owned("-");
        proof {
            reveal_strlit("-");
        }
        r.append(decimal_text(m).as_str());
        r
    } else {
        decimal_text(n as u64)
    }
}


// ---------------------------------------------------------------------------
// Facts about the definitions above
// ---------------------------------------------------------------------------

/// Text that begins and ends with something other than white space is left
/// as it is by `trim`.
pub proof fn lemma_trim_unchanged(s: Seq<char>)
    requires
        s.len() > 0,
        !is_space(s[0]),
        !is_space(s.last()),
    ensures
        trim_seq(s) == s,
{
}

/// What `trim_start` keeps begins with something other than white space.
pub proof fn lemma_trim_start_first(s: Seq<char>)
    ensures
        trim_start_seq(s).len() > 0 ==> !is_space(trim_start_seq(s)[0]),
    decreases s.len(),
{
    if s.len() > 0 && is_space(s[0]) {
        lemma_trim_start_first(s.drop_first());
    }
}

/// What `trim_end` keeps is a prefix, and ends with something other than
/// white space.
pub proof fn lemma_trim_end_prefix(s: Seq<char>)
    ensures
        trim_end_seq(s).len() <= s.len(),
        trim_end_seq(s) == s.subrange(0, trim_end_seq(s).len() as int),
        trim_end_seq(s).len() > 0 ==> !is_space(trim_end_seq(s).last()),
    decreases s.len(),
{
    if s.len() > 0 && is_space(s.last()) {
        lemma_trim_end_prefix(s.drop_last());
        assert(s.drop_last().subrange(0, trim_end_seq(s).len() as int) =~= s.subrange(
            0,
            trim_end_seq(s).len() as int,
        ));
    } else {
        assert(s.subrange(0, s.len() as int) =~= s);
    }
}

/// What `trim` keeps begins and ends with something other than white space.
pub proof fn lemma_trim_ends(s: Seq<char>)
    ensures
        trim_seq(s).len() > 0 ==> !is_space(trim_seq(s)[0]) && !is_space(trim_seq(s).last()),
{
    lemma_trim_start_first(s);
    lemma_trim_end_prefix(trim_start_seq(s));
    if trim_seq(s).len() > 0 {
        assert(trim_seq(s)[0] == trim_start_seq(s)[0]);
    }
}

/// Trimming twice is trimming once.
pub proof fn lemma_trim_idempotent(s: Seq<char>)
    ensures
        trim_seq(trim_seq(s)) == trim_seq(s),
{
    lemma_trim_ends(s);
    if trim_seq(s).len() > 0 {
        lemma_trim_unchanged(trim_seq(s));
    }
}

/// Pieces without the separator in them are split back out as they were.
pub proof fn lemma_split_append(x: Seq<char>, y: Seq<char>, c: char)
    requires
        !y.contains(c),
    ensures
        split_seq(x + y, c) == split_seq(x, c).update(
            split_seq(x, c).len() - 1,
            split_seq(x, c).last() + y,
        ),
    decreases y.len(),
{
    lemma_split_nonempty(x, c);
    if y.len() == 0 {
        assert(x + y =~= x);
        assert(split_seq(x, c).last() + y =~= split_seq(x, c).last());
        assert(split_seq(x, c).update(split_seq(x, c).len() - 1, split_seq(x, c).last())
            =~= split_seq(x, c));
    } else {
        let y0 = y.drop_last();
        assert(!y0.contains(c)) by {
            if y0.contains(c) {
                let k = choose|k: int| 0 <= k < y0.len() && y0[k] == c;
                assert(y[k] == c);
            }
        }
        assert(y.last() != c) by {
            assert(y[y.len() - 1] == y.last());
        }
        lemma_split_append(x, y0, c);
        assert((x + y).drop_last() =~= x + y0);
        assert((x + y).last() == y.last());
        lemma_split_nonempty(x + y0, c);
        assert(split_seq(x, c).last() + y0 + seq![y.last()] =~= split_seq(x, c).last() + y);
        assert((split_seq(x, c).last() + y0).push(y.last()) =~= split_seq(x, c).last() + y);
        assert(split_seq(x + y, c) =~= split_seq(x, c).update(
            split_seq(x, c).len() - 1,
            split_seq(x, c).last() + y,
        ));
    }
}

/// A separator ends the piece before it and starts an empty one.
pub proof fn lemma_split_separator(x: Seq<char>, c: char)
    ensures
        split_seq(x.push(c), c) == split_seq(x, c).push(seq![]),
{
    assert(x.push(c).drop_last() =~= x);
}

/// `decimal` writes only digits, at least one, and they spell the number.
pub proof fn lemma_decimal(n: nat)
    ensures
        decimal(n).len() > 0,
        forall|k: int| 0 <= k < decimal(n).len() ==> is_digit(#[trigger] decimal(n)[k]),
        decimal(n)[0] != '-',
    decreases n,
{
    if n >= 10 {
        lemma_decimal(n / 10);
        assert forall|k: int| 0 <= k < decimal(n).len() implies is_digit(#[trigger] decimal(n)[k]) by {
            if k < decimal(n / 10).len() {
                assert(decimal(n)[k] == decimal(n / 10)[k]);
            }
        }
        assert(decimal(n)[0] == decimal(n / 10)[0]);
    }
}

// ---------------------------------------------------------------------------
// Joining
// ---------------------------------------------------------------------------

/// The pieces in order, with `sep` between each neighbouring pair.
pub open spec fn join_seq(parts: Seq<Seq<char>>, sep: Seq<char>) -> Seq<char>
    decreases parts.len(),
{
    if parts.len() == 0 {
        seq![]
    } else if parts.len() == 1 {
        parts[0]
    } else {
        join_seq(parts.drop_last(), sep) + sep + parts.last()
    }
}

pub fn join(parts: &Vec<String>, sep: &str) -> (r: String)
    ensures
        r@ == join_seq(parts.deep_view(), sep@),
{
    let mut r = String::new();
    let mut i: usize = 0;
    while i < parts.len()
        invariant
            i <= parts@.len(),
            r@ == join_seq(parts.deep_view().take(i as int), sep@),
        decreases parts.len() - i,
    {
        proof {
            assert(parts.deep_view().take(i + 1).drop_last() =~= parts.deep_view().take(i as int));
        }
        if i > 0 {
            r.append(sep);
        }
        r.append(parts[i].as_str());
        i = i + 1;
    }
    assert(parts.deep_view().take(i as int) =~= parts.deep_view());
    r
}



/// Calls `String::push`. The contract claims what its documentation says:
/// the string afterwards is the one before with `c` added at the end.
#[verifier::external_body]
pub(crate) fn push_char(s: &mut String, c: char)
    ensures
        final(s)@ == old(s)@.push(c),
{
    s.push(c);
}

/// `str::to_ascii_lowercase`.
pub fn lower_text(s: &str) -> (r: String)
    ensures
        r@ == lower_seq(s@),
{
    let x = chars_of(s);
    let mut r = String::new();
    let mut i: usize = 0;
    while i < x.len()
        invariant
            x@ == s@,
            i <= x@.len(),
            r@ == lower_seq(s@).take(i as int),
        decreases x.len() - i,
    {
        let c = x[i];
        let l = if 'A' <= c && c <= 'Z' {
            ((c as u8) + 32) as char
        } else {
            c
        };
        push_char(&mut r, l);
        assert(lower_seq(s@).take(i + 1) =~= lower_seq(s@).take(i as int).push(lower(x@[i as int])));
        i = i + 1;
    }
    assert(lower_seq(s@).take(i as int) =~= lower_seq(s@));
    r
}

// ---------------------------------------------------------------------------
// Building sentences
// ---------------------------------------------------------------------------

pub fn cat2(a: &str, b: &str) -> (r: String)
    ensures
        r@ == a@ + b@,
{
    let mut r = owned(a);
    r.append(b);
    r
}

pub fn cat3(a: &str, b: &str, c: &str) -> (r: String)
    ensures
        r@ == a@ + b@ + c@,
{
    let mut r = owned(a);
    r.append(b);
    r.append(c);
    r
}

pub fn cat4(a: &str, b: &str, c: &str, d: &str) -> (r: String)
    ensures
        r@ == a@ + b@ + c@ + d@,
{
    let mut r = owned(a);
    r.append(b);
    r.append(c);
    r.append(d);
    r
}

pub fn cat5(a: &str, b: &str, c: &str, d: &str, e: &str) -> (r: String)
    ensures
        r@ == a@ + b@ + c@ + d@ + e@,
{
    let mut r = owned(a);
    r.append(b);
    r.append(c);
    r.append(d);
    r.append(e);
    r
}

} // verus!
