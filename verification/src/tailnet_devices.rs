//! The devices in the tailnet, as the control plane sees them.
//!
//! Every device endpoint takes a `device_id`, either the node id or the
//! numeric id, passed through as the caller wrote it once it has been checked
//! to be a single path segment. A device is addressed globally, with no
//! tailnet in its path. This module builds the paths, checks the arguments
//! and windows a listing; the HTTP calls are the caller's.

use vstd::prelude::*;
use crate::registry::{ToolEntry, ToolMeta};
use crate::meta::{Tier, Toolset};

use crate::common::{one_of, opt_string_view, path_segment, valid_segment, views};
use crate::error::{ErrorCode, ToolError, ToolResult};
use crate::text::{cat2, cat3, cat5, owned, same, starts_with, trim_seq};

verus! {

/// Where every device endpoint begins.
pub const DEVICE_ROOT: &'static str = "/api/v2/device/";

/// What a custom posture attribute's name begins with; Tailscale's own
/// attributes are read-only.
pub const CUSTOM_PREFIX: &'static str = "custom:";

// ---------------------------------------------------------------------------
// Paths
// ---------------------------------------------------------------------------

/// A caller's device identifier, checked to be one path segment.
pub fn device_id(what: &str, device: &str) -> (r: ToolResult<String>)
    ensures
        r is Ok <==> valid_segment(trim_seq(device@)),
        r matches Ok(v) ==> v@ == trim_seq(device@),
        r matches Err(e) ==> e.code == ErrorCode::InvalidArgs,
{
    path_segment(what, device)
}

/// `/api/v2/device/<id><rest>`.
pub fn device_path(device: &str, rest: &str) -> (r: ToolResult<String>)
    ensures
        r is Ok <==> valid_segment(trim_seq(device@)),
        r matches Ok(p) ==> p@ == DEVICE_ROOT@ + trim_seq(device@) + rest@,
        r matches Err(e) ==> e.code == ErrorCode::InvalidArgs,
{
    let id = device_id("device_id", device)?;
    Ok(cat3(DEVICE_ROOT, id.as_str(), rest))
}

pub open spec fn not_custom(key: Seq<char>) -> Seq<char> {
    "`attribute_key` has to begin with `custom:`; `"@ + key
        + "` is one of Tailscale's own attributes, which are read-only"@
}

/// The path of one custom posture attribute of a device. A name without the
/// `custom:` prefix is one of Tailscale's own attributes and is refused before
/// the call.
pub fn attribute_path(device: &str, key: &str) -> (r: ToolResult<String>)
    ensures
        r is Ok <==> valid_segment(trim_seq(key@)) && CUSTOM_PREFIX@.is_prefix_of(trim_seq(key@))
            && valid_segment(trim_seq(device@)),
        r matches Ok(p) ==> p@ == DEVICE_ROOT@ + trim_seq(device@) + "/attributes/"@ + trim_seq(
            key@,
        ),
        r matches Err(e) ==> e.code == ErrorCode::InvalidArgs,
        valid_segment(trim_seq(key@)) && !CUSTOM_PREFIX@.is_prefix_of(trim_seq(key@)) ==> (r matches Err(
            e,
        ) && e.message@ == not_custom(trim_seq(key@)) && (e.hint matches Some(h) && h@
            == "Prefix the name with `custom:`, as in `custom:diskEncrypted`."@)),
{
    let key = path_segment("attribute_key", key)?;
    if !starts_with(key.as_str(), CUSTOM_PREFIX) {
        let message = cat3(
            "`attribute_key` has to begin with `custom:`; `",
            key.as_str(),
            "` is one of Tailscale's own attributes, which are read-only",
        );
        return Err(
            ToolError::invalid_args(message).with_hint(
                owned("Prefix the name with `custom:`, as in `custom:diskEncrypted`."),
            ),
        );
    }
    let rest = cat2("/attributes/", key.as_str());
    device_path(device, rest.as_str())
}

// ---------------------------------------------------------------------------
// Listing
// ---------------------------------------------------------------------------

/// A filter's value: one, or several to match any of.
#[derive(Debug)]
pub enum Filter {
    One(String),
    Several(Vec<String>),
}

impl Filter {
    pub open spec fn spec_values(&self) -> Seq<Seq<char>> {
        match self {
            Filter::One(v) => seq![v@],
            Filter::Several(vs) => vs.deep_view(),
        }
    }

    /// The values, one or several, as a list.
    pub fn values(&self) -> (r: Vec<String>)
        ensures
            r.deep_view() == self.spec_values(),
    {
        match self {
            Filter::One(v) => {
                let mut r: Vec<String> = Vec::new();
                crate::common::arg(&mut r, v.as_str());
                r
            },
            Filter::Several(vs) => crate::common::copy_all(vs),
        }
    }
}

/// What a device listing asks for.
#[derive(Debug, Default)]
pub struct DeviceListParams {
    /// Which fields each device carries.
    pub fields: Option<String>,
    /// Filters as `<field>` and the values to match, in name order.
    pub filters: Option<Vec<(String, Filter)>>,
    /// At most this many devices from the window's start.
    pub limit: Option<usize>,
    /// How many devices to skip first.
    pub offset: Option<usize>,
}

pub open spec fn filters_view(fs: Seq<(String, Filter)>) -> Seq<(Seq<char>, Seq<Seq<char>>)> {
    fs.map_values(|f: (String, Filter)| (f.0@, f.1.spec_values()))
}

pub open spec fn pairs_of(name: Seq<char>, values: Seq<Seq<char>>) -> Seq<(Seq<char>, Seq<char>)> {
    values.map_values(|v: Seq<char>| (name, v))
}

/// Every `<field>=<value>` pair the filters send, in order.
pub open spec fn filter_pairs(fs: Seq<(Seq<char>, Seq<Seq<char>>)>) -> Seq<(Seq<char>, Seq<char>)>
    decreases fs.len(),
{
    if fs.len() == 0 {
        seq![]
    } else {
        filter_pairs(fs.drop_last()) + pairs_of(fs.last().0, fs.last().1)
    }
}

pub open spec fn pairs_view(v: Seq<(String, String)>) -> Seq<(Seq<char>, Seq<char>)> {
    v.map_values(|p: (String, String)| (p.0@, p.1@))
}

pub open spec fn shadows_fields(fs: Seq<(Seq<char>, Seq<Seq<char>>)>) -> bool {
    exists|i: int| 0 <= i < fs.len() && (#[trigger] fs[i]).0 == "fields"@
}

pub open spec fn shadow_message() -> Seq<char> {
    "`fields` is its own parameter and cannot also be a filter"@
}

/// The filter pairs of a listing, refusing one named `fields`, which would
/// silently change which fields came back.
pub fn filter_query(filters: &Vec<(String, Filter)>) -> (r: ToolResult<Vec<(String, String)>>)
    ensures
        shadows_fields(filters_view(filters@)) ==> (r matches Err(e) && e.code
            == ErrorCode::InvalidArgs && e.message@ == shadow_message()),
        !shadows_fields(filters_view(filters@)) ==> (r matches Ok(v) && pairs_view(v@)
            == filter_pairs(filters_view(filters@))),
{
    let ghost fv = filters_view(filters@);
    let mut out: Vec<(String, String)> = Vec::new();
    let mut i: usize = 0;
    while i < filters.len()
        invariant
            fv == filters_view(filters@),
            i <= fv.len(),
            forall|k: int| 0 <= k < i ==> (#[trigger] fv[k]).0 != "fields"@,
            pairs_view(out@) == filter_pairs(fv.take(i as int)),
        decreases filters.len() - i,
    {
        let name = &filters[i].0;
        if same(name.as_str(), "fields") {
            assert(fv[i as int].0 == "fields"@);
            return Err(ToolError::invalid_args(owned("`fields` is its own parameter and cannot also be a filter")));
        }
        let values = filters[i].1.values();
        let ghost before = pairs_view(out@);
        let mut j: usize = 0;
        while j < values.len()
            invariant
                j <= values@.len(),
                pairs_view(out@) == before + pairs_of(name@, values.deep_view().take(j as int)),
            decreases values.len() - j,
        {
            let pair = (owned(name.as_str()), owned(values[j].as_str()));
            let ghost mid = out@;
            out.push(pair);
            assert(pairs_view(out@) =~= pairs_view(mid).push((name@, values[j as int]@)));
            assert(pairs_of(name@, values.deep_view().take(j + 1)) =~= pairs_of(
                name@,
                values.deep_view().take(j as int),
            ).push((name@, values[j as int]@)));
            j = j + 1;
        }
        assert(values.deep_view().take(j as int) =~= values.deep_view());
        assert(fv.take(i + 1).drop_last() =~= fv.take(i as int));
        assert(fv.take(i + 1).last() == (name@, values.deep_view()));
        i = i + 1;
    }
    assert(fv.take(i as int) =~= fv);
    assert(!shadows_fields(fv));
    Ok(out)
}

/// A listing is windowed when it was given a limit or an offset past the
/// start; otherwise the control plane's answer is forwarded whole.
pub fn windowed(limit: Option<usize>, offset: Option<usize>) -> (r: bool)
    ensures
        r == (limit is Some || (offset matches Some(o) && o > 0)),
{
    match (limit, offset) {
        (None, None) => false,
        (None, Some(o)) => o > 0,
        (Some(_), _) => true,
    }
}

/// Where a window of a listing stands in it.
#[derive(Debug, Clone, Copy, PartialEq, Eq, Structural)]
pub struct Window {
    /// How many devices the listing held.
    pub total: usize,
    /// How many the window returned.
    pub returned: usize,
    pub offset: usize,
    pub limit: Option<usize>,
}

pub open spec fn window_start(total: int, offset: int) -> int {
    if offset < total {
        offset
    } else {
        total
    }
}

pub open spec fn window_end(total: int, limit: Option<usize>, offset: int) -> int {
    let start = window_start(total, offset);
    match limit {
        Some(l) => if start + l < total {
            start + l
        } else {
            total
        },
        None => total,
    }
}

/// A window is the listing with `offset` devices skipped and at most `limit`
/// of the rest taken: it starts at the offset, or at the end when the offset
/// is past it, and holds as many devices as the limit allows of those left.
pub proof fn a_window_skips_then_takes<T>(devices: Seq<T>, limit: Option<usize>, offset: nat)
    ensures
        ({
            let start = window_start(devices.len() as int, offset as int);
            let end = window_end(devices.len() as int, limit, offset as int);
            let rest = devices.skip(start);
            &&& start == (if offset < devices.len() { offset as int } else { devices.len() as int })
            &&& start <= end <= devices.len()
            &&& devices.subrange(start, end) == (match limit {
                Some(l) => if l < rest.len() {
                    rest.take(l as int)
                } else {
                    rest
                },
                None => rest,
            })
            &&& end - start == (match limit {
                Some(l) => if l < devices.len() - start {
                    l as int
                } else {
                    devices.len() - start
                },
                None => devices.len() - start,
            })
        }),
{
    let start = window_start(devices.len() as int, offset as int);
    let end = window_end(devices.len() as int, limit, offset as int);
    let rest = devices.skip(start);
    match limit {
        Some(l) => {
            if l < rest.len() {
                assert(devices.subrange(start, end) =~= rest.take(l as int));
            } else {
                assert(devices.subrange(start, end) =~= rest);
            }
        },
        None => {
            assert(devices.subrange(start, end) =~= rest);
        },
    }
}

/// The window of `total` devices that skips `offset` and takes at most
/// `limit`: the indices it runs between, and how an answer describes it.
pub fn window(total: usize, limit: Option<usize>, offset: usize) -> (r: (usize, usize, Window))
    ensures
        r.0 == window_start(total as int, offset as int),
        r.1 == window_end(total as int, limit, offset as int),
        r.0 <= r.1 <= total,
        r.2 == (Window { total, returned: (r.1 - r.0) as usize, offset, limit }),
{
    let start = if offset < total {
        offset
    } else {
        total
    };
    let end = match limit {
        Some(l) => if l < total - start {
            start + l
        } else {
            total
        },
        None => total,
    };
    (start, end, Window { total, returned: end - start, offset, limit })
}

pub open spec fn missing_list() -> Seq<char> {
    "the control plane answered without a `devices` list, so there is nothing to window"@
}

/// What a windowed listing answers when the control plane's answer had no
/// `devices` list to window.
pub fn no_list_to_window() -> (r: ToolError)
    ensures
        r.code == ErrorCode::ApiError,
        r.message@ == missing_list(),
        r.hint matches Some(h) && h@
            == "Call again without `limit` or `offset` to see the answer as it arrived."@,
{
    ToolError::new(
        ErrorCode::ApiError,
        owned("the control plane answered without a `devices` list, so there is nothing to window"),
    ).with_hint(owned("Call again without `limit` or `offset` to see the answer as it arrived."))
}

/// The `fields` a listing or a read asks for, held to the values the API
/// documents.
pub fn checked_fields(fields: Option<&str>, allowed: &[&str]) -> (r: ToolResult<Option<String>>)
    ensures
        fields is None ==> r matches Ok(None),
        fields matches Some(f) ==> (r is Ok <==> crate::common::listed(f@, views(allowed@))),
        r matches Ok(Some(v)) ==> fields matches Some(f) && v@ == f@,
        r matches Err(e) ==> e.code == ErrorCode::InvalidArgs,
{
    match fields {
        None => Ok(None),
        Some(f) => {
            let v = one_of("fields", f, allowed)?;
            Ok(Some(v))
        },
    }
}

// ---------------------------------------------------------------------------
// One device
// ---------------------------------------------------------------------------

/// One device.
#[derive(Debug, Default)]
pub struct DeviceParams {
    pub device_id: String,
}

/// One device, and which of its fields to read.
#[derive(Debug, Default)]
pub struct DeviceGetParams {
    pub device_id: String,
    pub fields: Option<String>,
}

/// Authorise a device, or revoke its authorisation.
#[derive(Debug, Default)]
pub struct DeviceAuthorizeParams {
    pub device_id: String,
    pub authorized: bool,
}

/// A device's new name.
#[derive(Debug, Default)]
pub struct DeviceRenameParams {
    pub device_id: String,
    pub name: String,
}

/// A device's whole set of tags.
#[derive(Debug, Default)]
pub struct DeviceTagsParams {
    pub device_id: String,
    pub tags: Vec<String>,
}

/// Whether a device's key expires.
#[derive(Debug, Default)]
pub struct DeviceKeyExpiryParams {
    pub device_id: String,
    pub key_expiry_disabled: bool,
}

/// A device's new IPv4 address.
#[derive(Debug, Default)]
pub struct DeviceIpParams {
    pub device_id: String,
    pub ipv4: String,
}

/// The subnet routes a device is to have enabled.
#[derive(Debug, Default)]
pub struct DeviceRoutesParams {
    pub device_id: String,
    pub routes: Vec<String>,
}

/// One custom posture attribute of a device.
#[derive(Debug, Default)]
pub struct AttributeParams {
    pub device_id: String,
    pub attribute_key: String,
}

/// The row for authorising is a write and the call decides: revoking an
/// authorisation cuts a device off, so it needs a session that allows the
/// destructive tier.
pub fn authorize_check(authorized: bool, max_tier: Tier) -> (r: ToolResult<()>)
    ensures
        r is Ok <==> (authorized || max_tier == Tier::Destructive),
        r matches Err(e) ==> e.code == ErrorCode::NotPermitted && e.message@ == "`"@
            + "revoking a device's authorisation"@ + "` needs a session started with `"@
            + "--allow-destructive"@ + "`"@,
{
    if !authorized && max_tier.level() < 2 {
        return Err(ToolError::not_permitted("revoking a device's authorisation", "--allow-destructive"));
    }
    Ok(())
}

/// What an authorisation reports having done.
pub fn authorize_outcome(authorized: bool) -> (r: &'static str)
    ensures
        r@ == (if authorized { "authorized"@ } else { "authorization revoked"@ }),
{
    if authorized {
        "authorized"
    } else {
        "authorization revoked"
    }
}

/// What a key-expiry change reports having done.
pub fn key_expiry_outcome(disabled: bool) -> (r: &'static str)
    ensures
        r@ == (if disabled { "key expiry disabled"@ } else { "key expiry enabled"@ }),
{
    if disabled {
        "key expiry disabled"
    } else {
        "key expiry enabled"
    }
}

// ---------------------------------------------------------------------------
// Attributes across devices
// ---------------------------------------------------------------------------

/// A batch of attribute changes, checked: the device ids as they will be sent,
/// each once, and how many devices and attributes it changes.
pub struct BatchPlan {
    pub devices: Vec<String>,
    pub changed: usize,
}

pub open spec fn no_nodes() -> Seq<char> {
    "`nodes` names no devices, so there is nothing to change"@
}

pub open spec fn distinct(s: Seq<Seq<char>>) -> bool {
    forall|i: int, j: int| 0 <= i < j < s.len() ==> s[i] != s[j]
}

pub open spec fn total_keys(nodes: Seq<(String, Vec<String>)>) -> int
    decreases nodes.len(),
{
    if nodes.len() == 0 {
        0
    } else {
        total_keys(nodes.drop_last()) + nodes.last().1@.len()
    }
}

pub open spec fn all_custom(keys: Seq<Seq<char>>) -> bool {
    forall|k: int| 0 <= k < keys.len() ==> CUSTOM_PREFIX@.is_prefix_of(#[trigger] keys[k])
}

/// Every device named is a valid identifier and every key it is given is a
/// custom attribute.
pub open spec fn batch_ok(nodes: Seq<(String, Vec<String>)>) -> bool {
    forall|i: int|
        0 <= i < nodes.len() ==> valid_segment(trim_seq((#[trigger] nodes[i]).0@)) && all_custom(
            nodes[i].1.deep_view(),
        )
}

/// One device's entry of a batch: a valid identifier given only custom
/// attributes.
pub open spec fn entry_ok(entry: (String, Vec<String>)) -> bool {
    valid_segment(trim_seq(entry.0@)) && all_custom(entry.1.deep_view())
}

/// What the refusal of a bad entry says: the identifier's own refusal, or the
/// first key that is not a custom attribute, named with the device.
pub open spec fn entry_refusal(entry: (String, Vec<String>), message: Seq<char>) -> bool {
    if !valid_segment(trim_seq(entry.0@)) {
        crate::common::segment_refusal("nodes"@, entry.0@, message)
    } else {
        exists|k: int|
            0 <= k < entry.1@.len() && (forall|m: int|
                0 <= m < k ==> CUSTOM_PREFIX@.is_prefix_of(#[trigger] entry.1@[m]@))
                && !CUSTOM_PREFIX@.is_prefix_of(#[trigger] entry.1@[k]@) && message == "`"@
                + entry.1@[k]@ + "` on `"@ + trim_seq(entry.0@)
                + "` does not begin with `custom:`; only custom attributes can be set"@
    }
}

/// Check a batch of attribute changes before anything is sent: the call is
/// all-or-nothing, so one bad key would fail every device after it had gone.
/// `nodes` pairs each device with the names of the attributes it is given.
pub fn checked_batch(nodes: &Vec<(String, Vec<String>)>) -> (r: ToolResult<BatchPlan>)
    requires
        total_keys(nodes@) <= usize::MAX,
    ensures
        nodes@.len() == 0 ==> (r matches Err(e) && e.code == ErrorCode::InvalidArgs && e.message@
            == no_nodes()),
        r is Ok <==> nodes@.len() > 0 && batch_ok(nodes@),
        r matches Err(e) ==> e.code == ErrorCode::InvalidArgs,
        nodes@.len() > 0 ==> (r matches Err(e) ==> exists|i: int|
            0 <= i < nodes@.len() && (forall|j: int| 0 <= j < i ==> entry_ok(#[trigger] nodes@[j]))
                && entry_refusal(#[trigger] nodes@[i], e.message@)),
        r matches Ok(plan) ==> {
            &&& plan.changed == total_keys(nodes@)
            &&& distinct(plan.devices.deep_view())
            &&& forall|x: Seq<char>|
                plan.devices.deep_view().contains(x) <==> exists|i: int|
                    0 <= i < nodes@.len() && x == trim_seq((#[trigger] nodes@[i]).0@)
        },
{
    if nodes.len() == 0 {
        return Err(ToolError::invalid_args(owned("`nodes` names no devices, so there is nothing to change")));
    }
    let mut devices: Vec<String> = Vec::new();
    let mut changed: usize = 0;
    let mut i: usize = 0;
    while i < nodes.len()
        invariant
            i <= nodes@.len(),
            total_keys(nodes@) <= usize::MAX,
            changed == total_keys(nodes@.take(i as int)),
            batch_ok(nodes@.take(i as int)),
            distinct(devices.deep_view()),
            forall|x: Seq<char>|
                devices.deep_view().contains(x) <==> exists|k: int|
                    0 <= k < i && x == trim_seq((#[trigger] nodes@[k]).0@),
        decreases nodes.len() - i,
    {
        assert(nodes@.take(i + 1).drop_last() =~= nodes@.take(i as int));
        proof {
            lemma_total_keys_prefix(nodes@, i as int + 1);
        }
        let id = path_segment("nodes", nodes[i].0.as_str());
        let id = match id {
            Ok(id) => id,
            Err(e) => {
                proof {
                    assert(!batch_ok(nodes@)) by {
                        assert(!valid_segment(trim_seq(nodes@[i as int].0@)));
                    }
                    assert(forall|j: int| 0 <= j < i ==> entry_ok(#[trigger] nodes@[j])) by {
                        assert forall|j: int| 0 <= j < i implies entry_ok(#[trigger] nodes@[j]) by {
                            assert(nodes@.take(i as int)[j] == nodes@[j]);
                        }
                    }
                    assert(entry_refusal(nodes@[i as int], e.message@));
                }
                return Err(e);
            },
        };
        let keys = &nodes[i].1;
        let mut k: usize = 0;
        while k < keys.len()
            invariant
                i < nodes@.len(),
                keys@ == nodes@[i as int].1@,
                batch_ok(nodes@.take(i as int)),
                id@ == trim_seq(nodes@[i as int].0@),
                valid_segment(trim_seq(nodes@[i as int].0@)),
                k <= keys@.len(),
                forall|m: int| 0 <= m < k ==> CUSTOM_PREFIX@.is_prefix_of(#[trigger] keys.deep_view()[m]),
            decreases keys.len() - k,
        {
            if !starts_with(keys[k].as_str(), CUSTOM_PREFIX) {
                let message = cat5(
                    "`",
                    keys[k].as_str(),
                    "` on `",
                    id.as_str(),
                    "` does not begin with `custom:`; only custom attributes can be set",
                );
                proof {
                    assert(nodes@[i as int].1.deep_view()[k as int] == keys[k as int]@);
                    assert(!all_custom(nodes@[i as int].1.deep_view()));
                    assert(!batch_ok(nodes@));
                    assert(forall|j: int| 0 <= j < i ==> entry_ok(#[trigger] nodes@[j])) by {
                        assert forall|j: int| 0 <= j < i implies entry_ok(#[trigger] nodes@[j]) by {
                            assert(nodes@.take(i as int)[j] == nodes@[j]);
                        }
                    }
                    assert forall|m: int| 0 <= m < k implies CUSTOM_PREFIX@.is_prefix_of(
                        #[trigger] nodes@[i as int].1@[m]@) by {
                        assert(keys.deep_view()[m] == keys@[m]@);
                    }
                    assert(entry_refusal(nodes@[i as int], message@));
                }
                return Err(ToolError::invalid_args(message));
            }
            k = k + 1;
        }
        changed = changed + keys.len();
        let mut seen = false;
        let mut d: usize = 0;
        while d < devices.len()
            invariant
                d <= devices@.len(),
                seen == exists|m: int| 0 <= m < d && devices.deep_view()[m] == id@,
            decreases devices.len() - d,
        {
            assert(devices.deep_view()[d as int] == devices[d as int]@);
            if same(devices[d].as_str(), id.as_str()) {
                seen = true;
            }
            d = d + 1;
        }
        let ghost before = devices.deep_view();
        if !seen {
            devices.push(id);
            assert(devices.deep_view() =~= before.push(trim_seq(nodes@[i as int].0@)));
        }
        assert forall|x: Seq<char>|
            devices.deep_view().contains(x) <==> exists|m: int|
                0 <= m < i + 1 && x == trim_seq((#[trigger] nodes@[m]).0@) by {
            if devices.deep_view().contains(x) {
                if x == trim_seq(nodes@[i as int].0@) {
                } else {
                    assert(before.contains(x));
                }
            }
            if exists|m: int| 0 <= m < i + 1 && x == trim_seq((#[trigger] nodes@[m]).0@) {
                let m = choose|m: int| 0 <= m < i + 1 && x == trim_seq((#[trigger] nodes@[m]).0@);
                if m < i {
                    assert(before.contains(x));
                    let w = choose|w: int| 0 <= w < before.len() && before[w] == x;
                    assert(devices.deep_view()[w] == x);
                } else if seen {
                    let w = choose|w: int| 0 <= w < d && devices.deep_view()[w] == trim_seq(
                        nodes@[i as int].0@,
                    );
                    assert(devices.deep_view()[w] == x);
                } else {
                    assert(devices.deep_view()[before.len() as int] == x);
                }
            }
        }
        assert(batch_ok(nodes@.take(i + 1)));
        i = i + 1;
    }
    assert(nodes@.take(i as int) =~= nodes@);
    Ok(BatchPlan { devices, changed })
}

/// The keys counted over a prefix of the batch never exceed those of the whole.
pub proof fn lemma_total_keys_prefix(nodes: Seq<(String, Vec<String>)>, n: int)
    requires
        0 <= n <= nodes.len(),
    ensures
        total_keys(nodes.take(n)) <= total_keys(nodes),
    decreases nodes.len(),
{
    if n < nodes.len() {
        assert(nodes.drop_last().take(n) =~= nodes.take(n));
        lemma_total_keys_prefix(nodes.drop_last(), n);
    } else {
        assert(nodes.take(n) =~= nodes);
    }
}

/// Every tool of this toolset, in the order a client lists them.
pub fn entries() -> (r: Vec<ToolEntry>)
    ensures
        r.len() == 15,
        forall|i: int|
            0 <= i < r.len() ==> (#[trigger] r[i]).meta.toolset == Toolset::TailnetDevices
                && crate::registry::row_ok(r[i]),
{
    proof {
        reveal_strlit("tailnet_");
        reveal_strlit("tailnet_device_list");
        reveal_strlit("tailnet_device_get");
        reveal_strlit("tailnet_device_delete");
        reveal_strlit("tailnet_device_expire");
        reveal_strlit("tailnet_device_authorize");
        reveal_strlit("tailnet_device_rename");
        reveal_strlit("tailnet_device_tags_set");
        reveal_strlit("tailnet_device_key_expiry_set");
        reveal_strlit("tailnet_device_ip_set");
        reveal_strlit("tailnet_device_routes_get");
        reveal_strlit("tailnet_device_routes_set");
        reveal_strlit("tailnet_device_attributes_get");
        reveal_strlit("tailnet_device_attribute_set");
        reveal_strlit("tailnet_device_attribute_delete");
        reveal_strlit("tailnet_device_attributes_update");
    }
    vec![
        ToolEntry {
            meta: ToolMeta {
                name: "tailnet_device_list",
                summary: "List the devices in the tailnet. Answers with the control plane's own `{\"devices\": [...]}`, or with a `window` beside it when `limit` or `offset` narrowed the list here.

The endpoint has no pagination, so a large tailnet answers whole and may exceed this server's result cap. `filters` is what asks the control plane for less, and so the only one of these that can rescue such a listing; `limit` and `offset` are applied to an answer that has already arrived. `fields: \"all\"` adds the costlier fields — posture identity, client connectivity — that `default` leaves out, and `fields: \"default\"` is the smaller answer.",
                toolset: Toolset::TailnetDevices,
                tier: Tier::Read,
                idempotent: true,
                requires_confirmation: false,
                self_severing: false,
                varying: false,
                since: None,
            },
        },
        ToolEntry {
            meta: ToolMeta {
                name: "tailnet_device_get",
                summary: "Read one device by its node id or its numeric id.",
                toolset: Toolset::TailnetDevices,
                tier: Tier::Read,
                idempotent: true,
                requires_confirmation: false,
                self_severing: false,
                varying: false,
                since: None,
            },
        },
        ToolEntry {
            meta: ToolMeta {
                name: "tailnet_device_delete",
                summary: "Remove a device from the tailnet permanently. The machine has to re-authenticate to come back, as a new device with a new address.

Only devices belonging to this tailnet can be deleted; a device shared in from another tailnet is refused by the control plane.",
                toolset: Toolset::TailnetDevices,
                tier: Tier::Destructive,
                idempotent: true,
                requires_confirmation: false,
                self_severing: false,
                varying: false,
                since: None,
            },
        },
        ToolEntry {
            meta: ToolMeta {
                name: "tailnet_device_expire",
                summary: "Expire a device's node key, which disconnects it until someone re-authenticates the machine. The device itself is kept.",
                toolset: Toolset::TailnetDevices,
                tier: Tier::Destructive,
                idempotent: false,
                requires_confirmation: false,
                self_severing: false,
                varying: false,
                since: None,
            },
        },
        ToolEntry {
            meta: ToolMeta {
                name: "tailnet_device_authorize",
                summary: "Authorise a device, or revoke its authorisation.

Only meaningful on a tailnet that requires device approval. Authorising is a write; revoking disconnects the device until it is authorised again, and needs the destructive tier.",
                toolset: Toolset::TailnetDevices,
                tier: Tier::Write,
                idempotent: true,
                requires_confirmation: false,
                self_severing: false,
                varying: true,
                since: None,
            },
        },
        ToolEntry {
            meta: ToolMeta {
                name: "tailnet_device_rename",
                summary: "Rename a device. Its old MagicDNS names stop resolving, so anything addressing it by name has to be updated.",
                toolset: Toolset::TailnetDevices,
                tier: Tier::Write,
                idempotent: true,
                requires_confirmation: false,
                self_severing: false,
                varying: false,
                since: None,
            },
        },
        ToolEntry {
            meta: ToolMeta {
                name: "tailnet_device_tags_set",
                summary: "Replace a device's tags. Tags must already be defined in the tailnet policy file, and the credential's own tags limit what it may assign.

This replaces the whole set: tags not listed are removed, and removing a tag can remove the access a policy rule granted through it.",
                toolset: Toolset::TailnetDevices,
                tier: Tier::Write,
                idempotent: true,
                requires_confirmation: false,
                self_severing: false,
                varying: false,
                since: None,
            },
        },
        ToolEntry {
            meta: ToolMeta {
                name: "tailnet_device_key_expiry_set",
                summary: "Turn a device's key expiry off, so it stays connected without re-authenticating, or back on.",
                toolset: Toolset::TailnetDevices,
                tier: Tier::Write,
                idempotent: true,
                requires_confirmation: false,
                self_severing: false,
                varying: false,
                since: None,
            },
        },
        ToolEntry {
            meta: ToolMeta {
                name: "tailnet_device_ip_set",
                summary: "Move a device to a different Tailscale IPv4 address.

Existing connections to the old address break. The address has to come from the tailnet's own range.",
                toolset: Toolset::TailnetDevices,
                tier: Tier::Write,
                idempotent: true,
                requires_confirmation: false,
                self_severing: false,
                varying: false,
                since: None,
            },
        },
        ToolEntry {
            meta: ToolMeta {
                name: "tailnet_device_routes_get",
                summary: "Read the routes a device advertises and the subset that is enabled.",
                toolset: Toolset::TailnetDevices,
                tier: Tier::Read,
                idempotent: true,
                requires_confirmation: false,
                self_severing: false,
                varying: false,
                since: None,
            },
        },
        ToolEntry {
            meta: ToolMeta {
                name: "tailnet_device_routes_set",
                summary: "Replace the set of advertised routes that are enabled for a device.

Only the enabled set can be set here; what a device advertises is the device's own configuration. Enabling a route the device does not advertise has no effect until it does.",
                toolset: Toolset::TailnetDevices,
                tier: Tier::Write,
                idempotent: true,
                requires_confirmation: false,
                self_severing: false,
                varying: false,
                since: None,
            },
        },
        ToolEntry {
            meta: ToolMeta {
                name: "tailnet_device_attributes_get",
                summary: "Read the custom posture attributes set on a device, and when each expires.",
                toolset: Toolset::TailnetDevices,
                tier: Tier::Read,
                idempotent: true,
                requires_confirmation: false,
                self_severing: false,
                varying: false,
                since: None,
            },
        },
        ToolEntry {
            meta: ToolMeta {
                name: "tailnet_device_attribute_set",
                summary: "Set one custom posture attribute on one device.

The key must begin `custom:`. The value's type — string, number or boolean — is fixed by the first write and a later write of a different type is refused by the control plane.",
                toolset: Toolset::TailnetDevices,
                tier: Tier::Write,
                idempotent: true,
                requires_confirmation: false,
                self_severing: false,
                varying: false,
                since: None,
            },
        },
        ToolEntry {
            meta: ToolMeta {
                name: "tailnet_device_attribute_delete",
                summary: "Delete one custom posture attribute from one device. Only `custom:` attributes can be deleted; the ones Tailscale sets are read-only.",
                toolset: Toolset::TailnetDevices,
                tier: Tier::Destructive,
                idempotent: true,
                requires_confirmation: false,
                self_severing: false,
                varying: false,
                since: None,
            },
        },
        ToolEntry {
            meta: ToolMeta {
                name: "tailnet_device_attributes_update",
                summary: "Set custom posture attributes on many devices in one call.

A merge: a device the map does not mention is left alone, an attribute it does not mention is left alone, and an attribute given `null` is deleted. Each value is a string, a number, a boolean, `null`, or an object `{\"value\": ..., \"expiry\": \"<RFC 3339>\"}` to set an expiry too.",
                toolset: Toolset::TailnetDevices,
                tier: Tier::Write,
                idempotent: true,
                requires_confirmation: false,
                self_severing: false,
                varying: false,
                since: None,
            },
        },
    ]
}


} // verus!
