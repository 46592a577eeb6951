//! The small things every toolset does the same way: building an argument,
//! checking what a caller sent, and reading what a command printed.

use vstd::prelude::*;

use crate::error::{ErrorCode, ToolError, ToolResult};
use crate::meta::Tier;
use crate::path_policy::PathPolicy;
use crate::json::{json_read, parse_json};
use crate::text::{
    cat2, cat3, cat4, cat5, chars_of, is_alnum, join_seq, lines_seq, owned, same, starts_with,
    trim, trim_punct_seq, trim_seq, words_seq,
};

verus! {

// ---------------------------------------------------------------------------
// Arguments
// ---------------------------------------------------------------------------

pub open spec fn bool_seq(value: bool) -> Seq<char> {
    if value {
        "true"@
    } else {
        "false"@
    }
}

/// `--name=value`, the one spelling Go's flag package cannot mistake for a
/// positional argument.
pub open spec fn flag_seq(name: Seq<char>, value: Seq<char>) -> Seq<char> {
    "--"@ + name + "="@ + value
}

/// A flag name as every one here is spelled: without an `=`, so that the
/// `=` after it is where its value begins.
pub open spec fn flag_name_ok(name: Seq<char>) -> bool {
    forall|k: int| 0 <= k < name.len() ==> name[k] != '='
}

/// Flags of two different names are different arguments, whatever their
/// values.
pub proof fn lemma_flags_of_different_names_differ(m: Seq<char>, n: Seq<char>, x: Seq<char>, y: Seq<char>)
    requires
        m != n,
        flag_name_ok(m),
        flag_name_ok(n),
    ensures
        flag_seq(m, x) != flag_seq(n, y),
{
    reveal_strlit("--");
    reveal_strlit("=");
    let a = flag_seq(m, x);
    let b = flag_seq(n, y);
    if a == b {
        if m.len() == n.len() {
            assert forall|k: int| 0 <= k < m.len() implies m[k] == n[k] by {
                assert(a[k + 2] == m[k]);
                assert(b[k + 2] == n[k]);
            }
            assert(m =~= n);
        } else if m.len() < n.len() {
            assert(a[m.len() + 2int] == '=');
            assert(b[m.len() + 2int] == n[m.len() as int]);
        } else {
            assert(b[n.len() + 2int] == '=');
            assert(a[n.len() + 2int] == m[n.len() as int]);
        }
    }
}

/// A flag's value is read back from it.
pub proof fn lemma_flag_value_read_back(n: Seq<char>, x: Seq<char>, y: Seq<char>)
    requires
        flag_seq(n, x) == flag_seq(n, y),
    ensures
        x == y,
{
    reveal_strlit("--");
    reveal_strlit("=");
    assert(x =~= flag_seq(n, x).skip(n.len() + 3int));
    assert(y =~= flag_seq(n, y).skip(n.len() + 3int));
}

/// An optional flag carries a flag of name `n` and value `w` exactly when it
/// is that name and was given that value.
pub proof fn lemma_optional_flag_carries(m: Seq<char>, value: Option<Seq<char>>, n: Seq<char>, w: Seq<char>)
    requires
        flag_name_ok(m),
        flag_name_ok(n),
    ensures
        opt_text(m, value).contains(flag_seq(n, w)) <==> (m == n && value == Some(w)),
{
    match value {
        Some(v) => {
            assert(opt_text(m, value)[0] == flag_seq(m, v));
            if m != n {
                lemma_flags_of_different_names_differ(m, n, v, w);
            } else if flag_seq(m, v) == flag_seq(n, w) {
                lemma_flag_value_read_back(n, v, w);
            }
            if m == n && v == w {
                assert(opt_text(m, value).contains(flag_seq(n, w)));
            }
        },
        None => {},
    }
}

pub open spec fn opt_bool(name: Seq<char>, value: Option<bool>) -> Seq<Seq<char>> {
    match value {
        Some(v) => seq![flag_seq(name, bool_seq(v))],
        None => seq![],
    }
}

pub open spec fn opt_text(name: Seq<char>, value: Option<Seq<char>>) -> Seq<Seq<char>> {
    match value {
        Some(v) => seq![flag_seq(name, v)],
        None => seq![],
    }
}

pub open spec fn opt_list(name: Seq<char>, value: Option<Seq<Seq<char>>>) -> Seq<Seq<char>> {
    match value {
        Some(vs) => seq![flag_seq(name, join_seq(vs, ","@))],
        None => seq![],
    }
}

/// The view of an optional borrowed string.
pub open spec fn opt_view(value: Option<&str>) -> Option<Seq<char>> {
    match value {
        Some(v) => Some(v@),
        None => None,
    }
}

pub open spec fn opt_string_view(value: Option<String>) -> Option<Seq<char>> {
    match value {
        Some(v) => Some(v@),
        None => None,
    }
}

pub open spec fn opt_list_view(value: Option<Vec<String>>) -> Option<Seq<Seq<char>>> {
    match value {
        Some(v) => Some(v.deep_view()),
        None => None,
    }
}

fn bool_text(value: bool) -> (r: &'static str)
    ensures
        r@ == bool_seq(value),
{
    if value {
        "true"
    } else {
        "false"
    }
}

/// `--name=value` for any value.
pub fn flag_text(name: &str, value: &str) -> (r: String)
    ensures
        r@ == flag_seq(name@, value@),
{
    cat4("--", name, "=", value)
}

/// Render a boolean flag the way Go's flag package needs it: joined to its
/// value, so that it cannot be mistaken for a positional argument.
pub fn flag(name: &str, value: bool) -> (r: String)
    ensures
        r@ == flag_seq(name@, bool_seq(value)),
{
    flag_text(name, bool_text(value))
}

/// Add `--name=value` when the caller gave a value, and nothing when it did
/// not. This is what keeps a call that changes one thing from restating the
/// rest.
pub fn push_bool(args: &mut Vec<String>, name: &str, value: Option<bool>)
    ensures
        final(args).deep_view() == old(args).deep_view() + opt_bool(name@, value),
{
    let ghost before = args.deep_view();
    if let Some(v) = value {
        args.push(flag(name, v));
    }
    assert(args.deep_view() =~= before + opt_bool(name@, value));
}

pub fn push_text(args: &mut Vec<String>, name: &str, value: Option<&str>)
    ensures
        final(args).deep_view() == old(args).deep_view() + opt_text(name@, opt_view(value)),
{
    let ghost before = args.deep_view();
    if let Some(v) = value {
        args.push(flag_text(name, v));
    }
    assert(args.deep_view() =~= before + opt_text(name@, opt_view(value)));
}

/// The client takes repeated values as one comma-separated argument, and an
/// empty list as an empty value.
pub fn push_list(args: &mut Vec<String>, name: &str, value: Option<&Vec<String>>)
    ensures
        final(args).deep_view() == old(args).deep_view() + opt_list(
            name@,
            match value {
                Some(v) => Some(v.deep_view()),
                None => None,
            },
        ),
{
    let ghost before = args.deep_view();
    if let Some(values) = value {
        let joined = crate::text::join(values, ",");
        args.push(flag_text(name, joined.as_str()));
    }
    assert(args.deep_view() =~= before + opt_list(
        name@,
        match value {
            Some(v) => Some(v.deep_view()),
            None => None,
        },
    ));
}



/// A secret given as `file:<path>` is a path, not a secret: the client reads
/// the file itself, so the reference can go on a command line as it stands.
pub open spec fn by_reference(value: Seq<char>) -> bool {
    "file:"@.is_prefix_of(value)
}

/// Whether a secret was given by reference rather than as itself. One given
/// as itself is written to a private file before the client runs, and the
/// file's reference is passed instead.
pub fn is_reference(value: &str) -> (r: bool)
    ensures
        r == by_reference(value@),
{
    crate::text::starts_with(value, "file:")
}

/// Borrow the string inside an optional one.
pub fn opt_str(value: &Option<String>) -> (r: Option<&str>)
    ensures
        opt_view(r) == opt_string_view(*value),
{
    match value {
        Some(s) => Some(s.as_str()),
        None => None,
    }
}

/// Borrow the list inside an optional one.
pub fn opt_list_ref(value: &Option<Vec<String>>) -> (r: Option<&Vec<String>>)
    ensures
        r matches Some(v) ==> value matches Some(w) && v.deep_view() == w.deep_view(),
        r is None <==> value is None,
{
    match value {
        Some(v) => Some(v),
        None => None,
    }
}

/// Add one argument at the end.
pub fn arg(args: &mut Vec<String>, value: &str)
    ensures
        final(args).deep_view() == old(args).deep_view().push(value@),
{
    let ghost before = args.deep_view();
    args.push(owned(value));
    assert(args.deep_view() =~= before.push(value@));
}

/// An argument list made of fixed words.
pub fn command(words: &[&str]) -> (r: Vec<String>)
    ensures
        r.deep_view() == views(words@),
{
    let mut r: Vec<String> = Vec::new();
    let mut i: usize = 0;
    while i < words.len()
        invariant
            i <= words@.len(),
            r.deep_view() == views(words@).take(i as int),
        decreases words.len() - i,
    {
        arg(&mut r, words[i]);
        assert(views(words@).take(i + 1) =~= views(words@).take(i as int).push(words@[i as int]@));
        i = i + 1;
    }
    assert(views(words@).take(i as int) =~= views(words@));
    r
}

/// Append every string of `more` to `args`, in order.
pub fn extend(args: &mut Vec<String>, more: &Vec<String>)
    ensures
        final(args).deep_view() == old(args).deep_view() + more.deep_view(),
{
    let ghost before = args.deep_view();
    let mut i: usize = 0;
    while i < more.len()
        invariant
            i <= more@.len(),
            args.deep_view() == before + more.deep_view().take(i as int),
        decreases more.len() - i,
    {
        let ghost old_dv = args.deep_view();
        args.push(owned(more[i].as_str()));
        assert(args.deep_view() =~= old_dv.push(more[i as int]@));
        assert(more.deep_view().take(i + 1) =~= more.deep_view().take(i as int).push(more[i as int]@));
        i = i + 1;
        assert(args.deep_view() =~= before + more.deep_view().take(i as int));
    }
    assert(more.deep_view().take(i as int) =~= more.deep_view());
}

/// A copy of a list of strings.
pub fn copy_all(given: &Vec<String>) -> (r: Vec<String>)
    ensures
        r.deep_view() == given.deep_view(),
{
    let mut r: Vec<String> = Vec::new();
    extend(&mut r, given);
    assert(r.deep_view() =~= given.deep_view());
    r
}

// ---------------------------------------------------------------------------
// Waiting
// ---------------------------------------------------------------------------

/// How much longer the client is given than the caller asked to wait, so that
/// a timeout is this server's own and not a command killed mid-sentence.
pub const GRACE: u64 = 5;

pub open spec fn clamp(value: int, low: int, high: int) -> int {
    if value < low {
        low
    } else if value > high {
        high
    } else {
        value
    }
}

pub open spec fn wait_seconds(requested: Option<u64>, default: u64, longest: u64) -> int {
    clamp(
        match requested {
            Some(r) => r as int,
            None => default as int,
        },
        1,
        longest as int,
    )
}

/// Bound a caller's wait, and give the client a little longer than we wait.
///
/// Answers with the bound the caller is told about and the one the child is
/// given, in seconds, which differ by the grace above.
pub fn bounded_wait(requested: Option<u64>, default: u64, longest: u64) -> (r: (u64, u64))
    requires
        1 <= longest,
        longest + GRACE <= u64::MAX,
    ensures
        r.0 == wait_seconds(requested, default, longest),
        r.1 == r.0 + GRACE,
        1 <= r.0 <= longest,
{
    let asked = match requested {
        Some(r) => r,
        None => default,
    };
    let seconds = if asked < 1 {
        1
    } else if asked > longest {
        longest
    } else {
        asked
    };
    (seconds, seconds + GRACE)
}

// ---------------------------------------------------------------------------
// Reading what a command printed
// ---------------------------------------------------------------------------

/// The lines that carry something: trimmed, with blank lines and `#`
/// comments dropped.
pub open spec fn content_lines(ls: Seq<Seq<char>>) -> Seq<Seq<char>>
    decreases ls.len(),
{
    if ls.len() == 0 {
        seq![]
    } else {
        let before = content_lines(ls.drop_last());
        let line = trim_seq(ls.last());
        if line.len() > 0 && line[0] != '#' {
            before.push(line)
        } else {
            before
        }
    }
}

/// The text a command printed, with blank lines and comment lines dropped.
pub fn lines(text: &str) -> (r: Vec<String>)
    ensures
        r.deep_view() == content_lines(lines_seq(text@)),
{
    let all = crate::text::lines(text);
    let ghost ls = all.deep_view();
    let mut kept: Vec<String> = Vec::new();
    let mut i: usize = 0;
    while i < all.len()
        invariant
            ls == all.deep_view(),
            i <= ls.len(),
            kept.deep_view() == content_lines(ls.take(i as int)),
        decreases all.len() - i,
    {
        assert(ls.take(i + 1).drop_last() =~= ls.take(i as int));
        assert(ls.take(i + 1).last() == all[i as int]@);
        let line = trim(all[i].as_str());
        let c = chars_of(line.as_str());
        let ghost before = kept.deep_view();
        if c.len() > 0 && c[0] != '#' {
            kept.push(line);
        }
        assert(kept.deep_view() =~= content_lines(ls.take(i + 1)));
        i = i + 1;
    }
    assert(ls.take(i as int) =~= ls);
    kept
}

pub open spec fn any_prefix(word: Seq<char>, prefixes: Seq<Seq<char>>) -> bool {
    exists|k: int| 0 <= k < prefixes.len() && (#[trigger] prefixes[k]).is_prefix_of(word)
}

/// The words beginning with one of `prefixes`, sentence punctuation removed.
pub open spec fn prefixed_tokens(ws: Seq<Seq<char>>, prefixes: Seq<Seq<char>>) -> Seq<Seq<char>>
    decreases ws.len(),
{
    if ws.len() == 0 {
        seq![]
    } else {
        let before = prefixed_tokens(ws.drop_last(), prefixes);
        if any_prefix(ws.last(), prefixes) {
            before.push(trim_punct_seq(ws.last()))
        } else {
            before
        }
    }
}

pub open spec fn views(strs: Seq<&str>) -> Seq<Seq<char>> {
    strs.map_values(|s: &str| s@)
}

fn begins_with_any(word: &str, prefixes: &[&str]) -> (r: bool)
    ensures
        r == any_prefix(word@, views(prefixes@)),
{
    let mut k: usize = 0;
    while k < prefixes.len()
        invariant
            k <= prefixes@.len(),
            forall|j: int| 0 <= j < k ==> !(#[trigger] views(prefixes@)[j]).is_prefix_of(word@),
        decreases prefixes.len() - k,
    {
        if starts_with(word, prefixes[k]) {
            assert(views(prefixes@)[k as int] == prefixes@[k as int]@);
            return true;
        }
        k = k + 1;
    }
    false
}

/// Every whitespace-separated token beginning with one of `prefixes`, in the
/// order the text printed them and with trailing sentence punctuation
/// removed.
///
/// The client hands back its products inside prose written for a person: a
/// login URL, the disablement secrets `lock init` minted, the auth key `lock
/// sign` countersigned. Each is recognisable by its own prefix, whereas the
/// sentence around it changes between releases.
pub fn tokens_with_prefix(text: &str, prefixes: &[&str]) -> (r: Vec<String>)
    ensures
        r.deep_view() == prefixed_tokens(words_seq(text@), views(prefixes@)),
{
    let ws = crate::text::words(text);
    let ghost wv = ws.deep_view();
    let mut found: Vec<String> = Vec::new();
    let mut i: usize = 0;
    while i < ws.len()
        invariant
            wv == ws.deep_view(),
            wv == words_seq(text@),
            i <= wv.len(),
            found.deep_view() == prefixed_tokens(wv.take(i as int), views(prefixes@)),
        decreases ws.len() - i,
    {
        assert(wv.take(i + 1).drop_last() =~= wv.take(i as int));
        assert(wv.take(i + 1).last() == ws[i as int]@);
        if begins_with_any(ws[i].as_str(), prefixes) {
            found.push(crate::text::trim_punct(ws[i].as_str()));
        }
        assert(found.deep_view() =~= prefixed_tokens(wv.take(i + 1), views(prefixes@)));
        i = i + 1;
    }
    assert(wv.take(i as int) =~= wv);
    found
}

pub open spec fn url_prefixes() -> Seq<Seq<char>> {
    seq!["https://"@, "http://"@]
}

pub open spec fn first_of(found: Seq<Seq<char>>) -> Option<Seq<char>> {
    if found.len() > 0 {
        Some(found[0])
    } else {
        None
    }
}

/// The first URL in a block of text: a login URL, or the address `serve`
/// says a handler is reachable at.
pub fn find_url(text: &str) -> (r: Option<String>)
    ensures
        opt_string_view(r) == first_of(prefixed_tokens(words_seq(text@), url_prefixes())),
{
    let prefixes: [&str; 2] = ["https://", "http://"];
    let slice: &[&str] = &prefixes;
    assert(views(slice@) =~= url_prefixes());
    let mut found = tokens_with_prefix(text, slice);
    if found.len() > 0 {
        Some(found.swap_remove(0))
    } else {
        None
    }
}

/// Whatever a command said, trimmed, when it said anything.
pub fn note(text: &str) -> (r: Option<String>)
    ensures
        trim_seq(text@).len() == 0 ==> r is None,
        trim_seq(text@).len() > 0 ==> (r matches Some(n) && n@ == trim_seq(text@)),
{
    let trimmed = trim(text);
    if trimmed.as_str().unicode_len() == 0 {
        None
    } else {
        Some(trimmed)
    }
}

pub open spec fn printed_seq(stdout: Seq<char>, stderr: Seq<char>) -> Seq<char> {
    let a = trim_seq(stdout);
    let b = trim_seq(stderr);
    if a.len() > 0 && b.len() > 0 {
        a + "\n"@ + b
    } else if a.len() > 0 {
        a
    } else {
        b
    }
}

/// Everything the client printed, standard output first, each stream
/// trimmed and an empty one left out.
pub fn printed_text(stdout: &str, stderr: &str) -> (r: String)
    ensures
        r@ == printed_seq(stdout@, stderr@),
{
    let a = trim(stdout);
    let b = trim(stderr);
    let la = a.as_str().unicode_len();
    let lb = b.as_str().unicode_len();
    if la > 0 && lb > 0 {
        cat3(a.as_str(), "\n", b.as_str())
    } else if la > 0 {
        a
    } else {
        b
    }
}

// ---------------------------------------------------------------------------
// Checking what a caller sent
// ---------------------------------------------------------------------------

/// How a command is named in what the server says of it: `tailscale` and its
/// arguments, separated by spaces.
pub open spec fn display_seq(args: Seq<Seq<char>>) -> Seq<char> {
    "tailscale "@ + crate::text::join_seq(args, " "@)
}

/// The refusal for a command that exited unsuccessfully: its name and
/// whatever it printed.
pub fn command_failure(args: &Vec<String>, stdout: &str, stderr: &str) -> (r: ToolError)
    ensures
        r.code == ErrorCode::CliFailed,
        r.message@ == "`"@ + display_seq(args.deep_view()) + "` failed: "@ + printed_seq(
            stdout@,
            stderr@,
        ),
        r.hint is None,
        r.status is None,
{
    let shown = crate::text::join(args, " ");
    let said = printed_text(stdout, stderr);
    let m = cat3("`tailscale ", shown.as_str(), "` failed: ");
    proof {
        reveal_strlit("`tailscale ");
        reveal_strlit("`");
        reveal_strlit("tailscale ");
        assert(m@ + said@ =~= "`"@ + display_seq(args.deep_view()) + "` failed: "@ + said@);
    }
    ToolError::new(ErrorCode::CliFailed, crate::text::cat2(m.as_str(), said.as_str()))
}

/// The document a command printed on standard output. A command that exited
/// unsuccessfully is still answered with its document when one came back,
/// since `status` prints a complete report while telling the shell the node
/// is down; with nothing to read, the failure is reported as any other.
pub fn document(args: &Vec<String>, stdout: &str, stderr: &str, success: bool) -> (r: ToolResult<
    serde_json::Value,
>)
    ensures
        r is Ok <==> json_read(trim_seq(stdout@)) is Ok,
        r matches Ok(v) ==> json_read(trim_seq(stdout@)) == Ok::<serde_json::Value, Seq<char>>(v),
        r matches Err(e) ==> e.code == ErrorCode::CliFailed && e.hint is None && (if success {
            json_read(trim_seq(stdout@)) matches Err(why) && e.message@ == "`"@ + display_seq(
                args.deep_view(),
            ) + "` did not print JSON: "@ + why
        } else {
            e.message@ == "`"@ + display_seq(args.deep_view()) + "` failed: "@ + printed_seq(
                stdout@,
                stderr@,
            )
        }),
{
    let trimmed = trim(stdout);
    match parse_json(trimmed.as_str()) {
        Ok(value) => Ok(value),
        Err(why) => {
            if !success {
                return Err(command_failure(args, stdout, stderr));
            }
            let shown = crate::text::join(args, " ");
            let m = cat3("`tailscale ", shown.as_str(), "` did not print JSON: ");
            proof {
                reveal_strlit("`tailscale ");
                reveal_strlit("`");
                reveal_strlit("tailscale ");
                assert(m@ + why@ =~= "`"@ + display_seq(args.deep_view()) + "` did not print JSON: "@
                    + why@);
            }
            Err(ToolError::new(ErrorCode::CliFailed, crate::text::cat2(m.as_str(), why.as_str())))
        },
    }
}

/// Whether a path the caller sent is one to use: not blank, not `-`, and
/// allowed by the server's path policy once trimmed.
pub open spec fn path_usable(paths: PathPolicy, path: Seq<char>) -> bool {
    trim_seq(path).len() > 0 && trim_seq(path) != "-"@ && paths.allows(trim_seq(path))
}

/// What the refusal of a path says: that it is empty, that `-` is a stream,
/// or, asked last, that the path policy does not allow it.
pub open spec fn path_refusal(policy: PathPolicy, what: Seq<char>, path: Seq<char>, e: ToolError) -> bool {
    if trim_seq(path).len() == 0 {
        e.code == ErrorCode::InvalidArgs && e.hint is None && e.message@ == "`"@ + what
            + "` cannot be empty"@
    } else if trim_seq(path) == "-"@ {
        e.code == ErrorCode::InvalidArgs && e.hint is None && e.message@ == "`"@ + what
            + "` has to be a path on this machine; `-` means a stream, which a tool call has none of"@
    } else {
        e.code == ErrorCode::NotPermitted && e.message@ == "`"@ + what
            + "` is outside the paths this server may use"@ && (e.hint matches Some(h) && h@
            == "Name a path under one of the server's configured roots."@)
    }
}

/// The refusal of a list of paths: the own refusal of the first one that is
/// not usable.
pub open spec fn first_path_refusal(policy: PathPolicy, what: Seq<char>, paths: Seq<Seq<char>>, e: ToolError) -> bool {
    exists|i: int|
        0 <= i < paths.len() && (forall|j: int| 0 <= j < i ==> path_usable(policy, #[trigger] paths[j]))
            && path_refusal(policy, what, #[trigger] paths[i], e)
}

/// Refuse a path the caller cannot have meant: an empty one, or `-`, the
/// client's spelling of a stream, which a tool call has none of. The path
/// policy is asked last, so that a caller who named something impossible is
/// told that rather than told about the policy. The answer is the trimmed
/// spelling, so that what was checked is what runs.
pub fn real_path(policy: &PathPolicy, what: &str, path: &str) -> (r: ToolResult<String>)
    ensures
        r is Ok <==> path_usable(*policy, path@),
        r matches Ok(p) ==> p@ == trim_seq(path@),
        r matches Err(e) ==> path_refusal(*policy, what@, path@, e),
{
    let trimmed = trim(path);
    if trimmed.as_str().unicode_len() == 0 {
        return Err(ToolError::invalid_args(cat3("`", what, "` cannot be empty")));
    }
    if same(trimmed.as_str(), "-") {
        return Err(
            ToolError::invalid_args(
                cat3(
                    "`",
                    what,
                    "` has to be a path on this machine; `-` means a stream, which a tool call has none of",
                ),
            ),
        );
    }
    if !policy.permits(trimmed.as_str()) {
        return Err(
            ToolError::new(
                ErrorCode::NotPermitted,
                cat3("`", what, "` is outside the paths this server may use"),
            ).with_hint(owned("Name a path under one of the server's configured roots.")),
        );
    }
    Ok(trimmed)
}

pub open spec fn is_ident_char(c: char) -> bool {
    is_alnum(c) || c == '-' || c == '_' || c == '.' || c == ':' || c == '@'
}

pub open spec fn all_dots(s: Seq<char>) -> bool {
    forall|i: int| 0 <= i < s.len() ==> s[i] == '.'
}

/// An identifier that can stand in a URL path without changing which endpoint
/// it reaches: not empty, only identifier characters, and not a dot segment.
pub open spec fn valid_segment(s: Seq<char>) -> bool {
    &&& s.len() > 0
    &&& forall|i: int| 0 <= i < s.len() ==> is_ident_char(#[trigger] s[i])
    &&& !all_dots(s)
}

/// How Rust's `Debug` writes a character: quoted, with escapes.
pub uninterp spec fn char_debug(c: char) -> Seq<char>;

/// `format!("{:?}", c)`, which quotes a character in single quotes and
/// escapes what cannot be shown as it is. The contract names the result and
/// says nothing more of it.
#[verifier::external_body]
fn debug_char(c: char) -> (r: String)
    ensures
        r@ == char_debug(c),
{
    format!("{c:?}")
}

/// The first character of `s` that cannot be in an identifier.
pub open spec fn first_bad(s: Seq<char>, i: int) -> bool {
    &&& 0 <= i < s.len()
    &&& !is_ident_char(s[i])
    &&& forall|k: int| 0 <= k < i ==> is_ident_char(#[trigger] s[k])
}

/// What the refusal of an identifier says: that it is empty, the first
/// character that cannot appear in one, or that it is only dots.
pub open spec fn segment_refusal(what: Seq<char>, value: Seq<char>, message: Seq<char>) -> bool {
    let t = trim_seq(value);
    if t.len() == 0 {
        message == "`"@ + what + "` cannot be empty"@
    } else if exists|i: int| first_bad(t, i) {
        exists|i: int|
            first_bad(t, i) && message == "`"@ + what + "` contains "@ + char_debug(#[trigger] t[i])
                + ", which cannot appear in an identifier"@
    } else {
        message == "`"@ + what + "` is `"@ + t + "`, which is not an identifier"@
    }
}

/// A caller's identifier, checked before it becomes part of a URL.
///
/// What is refused is anything that could change which endpoint is being
/// called: a segment carrying `/`, `?`, `#` or a space, and the dot segments
/// `.` and `..`, which rewrite the path when the URL is parsed.
pub fn path_segment(what: &str, value: &str) -> (r: ToolResult<String>)
    ensures
        r is Ok <==> valid_segment(trim_seq(value@)),
        r matches Ok(v) ==> v@ == trim_seq(value@),
        r matches Err(e) ==> e.code == ErrorCode::InvalidArgs && e.hint is None
            && segment_refusal(what@, value@, e.message@),
{
    let trimmed = trim(value);
    let c = chars_of(trimmed.as_str());
    if c.len() == 0 {
        return Err(ToolError::invalid_args(cat3("`", what, "` cannot be empty")));
    }
    let mut i: usize = 0;
    while i < c.len()
        invariant
            c@ == trimmed@,
            trimmed@ == trim_seq(value@),
            i <= c@.len(),
            forall|k: int| 0 <= k < i ==> is_ident_char(#[trigger] c@[k]),
        decreases c.len() - i,
    {
        let ch = c[i];
        if !(crate::text::alnum(ch) || ch == '-' || ch == '_' || ch == '.' || ch == ':' || ch
            == '@') {
            assert(!is_ident_char(trimmed@[i as int]));
            assert(first_bad(trimmed@, i as int));
            let shown = debug_char(ch);
            let message = cat4("`", what, "` contains ", shown.as_str());
            let message = cat2(message.as_str(), ", which cannot appear in an identifier");
            assert(first_bad(trimmed@, i as int) && message@ == "`"@ + what@ + "` contains "@
                + char_debug(trimmed@[i as int]) + ", which cannot appear in an identifier"@);
            return Err(ToolError::invalid_args(message));
        }
        i = i + 1;
    }
    assert(forall|k: int| !first_bad(trimmed@, k));
    let mut j: usize = 0;
    while j < c.len()
        invariant
            c@ == trimmed@,
            trimmed@ == trim_seq(value@),
            c@.len() > 0,
            forall|k: int| 0 <= k < c@.len() ==> is_ident_char(#[trigger] c@[k]),
            forall|k: int| !first_bad(trimmed@, k),
            j <= c@.len(),
            forall|k: int| 0 <= k < j ==> c@[k] == '.',
        decreases c.len() - j,
    {
        if c[j] != '.' {
            assert(!all_dots(trimmed@));
            return Ok(trimmed);
        }
        j = j + 1;
    }
    Err(
        ToolError::invalid_args(
            cat5("`", what, "` is `", trimmed.as_str(), "`, which is not an identifier"),
        ),
    )
}

/// `value` is one of `allowed`.
pub open spec fn listed(value: Seq<char>, allowed: Seq<Seq<char>>) -> bool {
    exists|k: int| 0 <= k < allowed.len() && allowed[k] == value
}

pub fn is_listed(value: &str, allowed: &[&str]) -> (r: bool)
    ensures
        r == listed(value@, views(allowed@)),
{
    let mut k: usize = 0;
    while k < allowed.len()
        invariant
            k <= allowed@.len(),
            forall|j: int| 0 <= j < k ==> views(allowed@)[j] != value@,
        decreases allowed.len() - k,
    {
        if same(allowed[k], value) {
            assert(views(allowed@)[k as int] == value@);
            return true;
        }
        k = k + 1;
    }
    false
}

/// The entries of `parts`, with `sep` between neighbours.
pub fn join_strs(parts: &[&str], sep: &str) -> (r: String)
    ensures
        r@ == join_seq(views(parts@), sep@),
{
    let mut r = String::new();
    let mut i: usize = 0;
    while i < parts.len()
        invariant
            i <= parts@.len(),
            r@ == join_seq(views(parts@).take(i as int), sep@),
        decreases parts.len() - i,
    {
        assert(views(parts@).take(i + 1).drop_last() =~= views(parts@).take(i as int));
        assert(views(parts@).take(i + 1).last() == parts@[i as int]@);
        if i > 0 {
            r.append(sep);
        }
        r.append(parts[i]);
        i = i + 1;
    }
    assert(views(parts@).take(i as int) =~= views(parts@));
    r
}

/// Hold a value to a documented string's known values, or refuse it quoting
/// them all.
pub fn one_of(what: &str, value: &str, allowed: &[&str]) -> (r: ToolResult<String>)
    ensures
        r is Ok <==> listed(value@, views(allowed@)),
        r matches Ok(v) ==> v@ == value@,
        r matches Err(e) ==> e.code == ErrorCode::InvalidArgs && e.hint is None && e.message@
            == "`"@ + what@ + "` is one of "@ + join_seq(views(allowed@), ", "@) + "; `"@ + value@
            + "` is none of them"@,
{
    if is_listed(value, allowed) {
        return Ok(owned(value));
    }
    let all = join_strs(allowed, ", ");
    let message = cat4("`", what, "` is one of ", all.as_str());
    let message = cat4(message.as_str(), "; `", value, "` is none of them");
    Err(ToolError::invalid_args(message))
}

/// Every entry trimmed, with no blank one among them.
pub open spec fn trimmed_all(given: Seq<Seq<char>>) -> Seq<Seq<char>> {
    given.map_values(|e: Seq<char>| trim_seq(e))
}

pub open spec fn none_blank(given: Seq<Seq<char>>) -> bool {
    forall|i: int| 0 <= i < given.len() ==> trim_seq(#[trigger] given[i]).len() > 0
}

/// Every entry of a list, trimmed, with nothing blank among them. A blank
/// entry is not an empty list: an empty list is a documented instruction to
/// remove everything, while `[""]` is a caller that meant that and got it
/// wrong.
pub fn each_present(what: &str, given: Vec<String>) -> (r: ToolResult<Vec<String>>)
    ensures
        r is Ok <==> none_blank(given.deep_view()),
        r matches Ok(v) ==> v.deep_view() == trimmed_all(given.deep_view()),
        r matches Err(e) ==> e.code == ErrorCode::InvalidArgs && e.hint is None && e.message@
            == "`"@ + what@ + "` has an empty entry; send `[]` to remove everything"@,
{
    let mut out: Vec<String> = Vec::new();
    let mut i: usize = 0;
    while i < given.len()
        invariant
            i <= given@.len(),
            out.deep_view() == trimmed_all(given.deep_view()).take(i as int),
            forall|k: int| 0 <= k < i ==> trim_seq(#[trigger] given.deep_view()[k]).len() > 0,
        decreases given.len() - i,
    {
        let t = trim(given[i].as_str());
        assert(given.deep_view()[i as int] == given[i as int]@);
        if t.as_str().unicode_len() == 0 {
            return Err(
                ToolError::invalid_args(
                    cat3("`", what, "` has an empty entry; send `[]` to remove everything"),
                ),
            );
        }
        let ghost old_dv = out.deep_view();
        out.push(t);
        assert(out.deep_view() =~= old_dv.push(trim_seq(given.deep_view()[i as int])));
        assert(out.deep_view() =~= trimmed_all(given.deep_view()).take(i + 1));
        i = i + 1;
    }
    assert(out.deep_view() =~= trimmed_all(given.deep_view()));
    Ok(out)
}

/// Refuse an argument that raises a call above the session's tier, for the
/// tools whose row is a floor rather than the whole truth.
pub fn require_destructive(max_tier: Tier, what: &str) -> (r: ToolResult<()>)
    ensures
        r is Ok <==> max_tier == Tier::Destructive,
        r matches Err(e) ==> e.code == ErrorCode::NotPermitted && e.message@ == "`"@ + what@
            + "` needs a session started with `"@ + "--allow-destructive"@ + "`"@,
{
    if max_tier.level() < 2 {
        return Err(ToolError::not_permitted(what, "--allow-destructive"));
    }
    Ok(())
}

/// Refuse a setting that does not exist on the operating system this node
/// runs, naming both the setting and where we are.
pub fn only_on(setting: &str, platforms: &[&str], os: &str) -> (r: ToolResult<()>)
    ensures
        r is Ok <==> listed(os@, views(platforms@)),
        r matches Err(e) ==> e.code == ErrorCode::UnsupportedPlatform && e.message@ == "`"@
            + setting@ + "` is a "@ + join_seq(views(platforms@), " or "@)
            + " preference, and this node runs "@ + os@,
{
    if is_listed(os, platforms) {
        return Ok(());
    }
    let names = join_strs(platforms, " or ");
    let message = cat4("`", setting, "` is a ", names.as_str());
    let message = cat3(message.as_str(), " preference, and this node runs ", os);
    Err(ToolError::new(ErrorCode::UnsupportedPlatform, message))
}

/// A value a report carries about a call: an identifier the call was given,
/// or a count.
#[derive(Debug, Clone, PartialEq, Eq)]
pub enum AboutValue {
    Text(String),
    Count(u64),
}

/// What a write that answered with nothing did: a phrase for a reader, and
/// only the identifiers the call was given, so that nothing in it can be
/// mistaken for something the control plane said.
#[derive(Debug)]
pub struct Done {
    pub done: &'static str,
    pub about: Vec<(String, AboutValue)>,
}

impl Done {
    pub fn new(done: &'static str) -> (r: Done)
        ensures
            r.done == done,
            r.about@.len() == 0,
    {
        Done { done, about: Vec::new() }
    }

    /// The report with one more thing it is about.
    pub fn about(self, name: &str, value: AboutValue) -> (r: Done)
        ensures
            r.done == self.done,
            r.about@.len() == self.about@.len() + 1,
            r.about@.take(self.about@.len() as int) == self.about@,
            r.about@.last().0@ == name@,
            r.about@.last().1 == value,
    {
        let mut about = self.about;
        about.push((owned(name), value));
        Done { done: self.done, about }
    }
}

/// What a write answers: the control plane's answer, or the report of what
/// was done when it answered with nothing.
#[derive(Debug)]
pub enum Answered<T> {
    Answer(T),
    Done(Done),
}

/// Forward what the control plane answered, or say what was done if it said
/// nothing: an empty answer falls back to the report rather than to `null`.
pub fn answered_or<T>(answer: Option<T>, otherwise: Done) -> (r: Answered<T>)
    ensures
        answer matches Some(a) ==> r == Answered::<T>::Answer(a),
        answer is None ==> r == Answered::<T>::Done(otherwise),
{
    match answer {
        Some(a) => Answered::Answer(a),
        None => Answered::Done(otherwise),
    }
}

/// A subcommand this server does not offer, and why.
#[derive(Debug, Clone, Copy, PartialEq, Eq)]
pub struct Excluded {
    /// The subcommand as it is written after `tailscale`, words separated by
    /// spaces.
    pub path: &'static str,
    /// Why it is not offered, phrased to be read by whoever asked for it.
    pub reason: &'static str,
}

/// The confirmation a call aimed at this node has to carry.
#[derive(Debug, Default, Clone, Copy)]
pub struct SelfConfirmation {
    /// Set to `true` to confirm an operation on the device this server runs
    /// on, which would cut the connection this call is being made over.
    pub confirm: Option<bool>,
}

/// Refuse a call aimed at this node that did not say it meant to be.
/// `names_us` is whether the target names the device this server runs on,
/// which the caller reads from local status.
pub fn not_at_ourselves(
    what: &str,
    target: &str,
    confirmation: &SelfConfirmation,
    names_us: bool,
) -> (r: ToolResult<()>)
    ensures
        r is Ok <==> confirmation.confirm == Some(true) || !names_us,
        r matches Err(e) ==> e.code == ErrorCode::ConfirmationRequired && e.message@ == "`"@
            + target@ + "` is the device this server runs on, so "@ + what@
            + " can cut this session off from it, and this call did not say it meant to"@
            && (e.hint matches Some(h) && h@ == "Pass `confirm: true` to do it anyway."@),
{
    let confirmed = match confirmation.confirm {
        Some(c) => c,
        None => false,
    };
    if confirmed || !names_us {
        return Ok(());
    }
    let message = cat5(
        "`",
        target,
        "` is the device this server runs on, so ",
        what,
        " can cut this session off from it, and this call did not say it meant to",
    );
    Err(
        ToolError::new(ErrorCode::ConfirmationRequired, message).with_hint(
            owned("Pass `confirm: true` to do it anyway."),
        ),
    )
}

} // verus!
