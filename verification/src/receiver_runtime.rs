//! Presentation logic of the receiver runtime: trusted-device rows, their
//! distinguishable fingerprint prefixes and last-connected dates.
use vstd::prelude::*;
use vstd::string::StringSliceAdditionalSpecFns;
use vstd::utf8::{encode_utf8, is_char_boundary};
use crate::calendar::{civil_from_days, days_since_epoch, is_valid_date, lemma_date_unique};
use crate::text::{
    append_chars, chars_of, decimal, decimal_digits, decimal_padded, owned, push_char,
    string_from_chars, zero_pad,
};

verus! {

/// The Sender currently streaming to this receiver.
#[derive(Debug, Clone, PartialEq, Eq)]
pub struct ActiveSenderSummary {
    pub sender_id: String,
    pub device_name: String,
}

/// One row of the paired-device list.
#[derive(Debug, Clone, PartialEq, Eq)]
pub struct TrustedDeviceSummary {
    pub device_id: String,
    pub device_name: String,
    pub certificate_fingerprint: String,
    pub identity_prefix: String,
    pub last_connected_at_ms: u64,
    /// Paired phones of this receiver generation are Android.
    pub platform: &'static str,
}

/// Milliseconds in one UTC day.
pub const DAY_MS: u64 = 86_400_000;

/// The prefix of the UTF-8 bytes `b` of length `n`, when `n` is a character
/// boundary inside `b` (`str::get(..n)`).
pub open spec fn byte_prefix(b: Seq<u8>, n: int) -> Option<Seq<u8>> {
    if 0 <= n <= b.len() && is_char_boundary(b, n) {
        Some(b.subrange(0, n))
    } else {
        None
    }
}

/// Another owner (different id) whose fingerprint has the same `n`-byte
/// prefix as `fp`.
pub open spec fn prefix_collides(
    id: Seq<char>,
    fp: Seq<char>,
    owners: Seq<(Seq<char>, Seq<char>)>,
    n: int,
) -> bool {
    exists|j: int|
        0 <= j < owners.len() && (#[trigger] owners[j]).0 != id && byte_prefix(
            encode_utf8(owners[j].1),
            n,
        ) is Some && byte_prefix(encode_utf8(fp), n) == byte_prefix(encode_utf8(owners[j].1), n)
}

/// Starting from `n`, the prefix length grows by four bytes (capped at the
/// whole fingerprint) while another owner shares the prefix.
pub open spec fn distinguishing_length(
    id: Seq<char>,
    fp: Seq<char>,
    owners: Seq<(Seq<char>, Seq<char>)>,
    n: int,
) -> int
    decreases encode_utf8(fp).len() - n,
{
    let len = encode_utf8(fp).len() as int;
    if n >= len || !prefix_collides(id, fp, owners, n) {
        n
    } else {
        let next = if n + 4 < len { n + 4 } else { len };
        distinguishing_length(id, fp, owners, next)
    }
}

/// The shortest prefix of `fp`, starting at eight bytes and growing four at a
/// time, that no other owner shares; the whole fingerprint when none is short
/// enough.
pub open spec fn distinguishable_prefix_bytes(
    id: Seq<char>,
    fp: Seq<char>,
    owners: Seq<(Seq<char>, Seq<char>)>,
) -> Seq<u8> {
    let len = encode_utf8(fp).len() as int;
    let start = if len < 8 { len } else { 8 };
    let n = distinguishing_length(id, fp, owners, start);
    match byte_prefix(encode_utf8(fp), n) {
        Some(p) => p,
        None => encode_utf8(fp),
    }
}

pub open spec fn owner_views(devices: Seq<TrustedDeviceSummary>) -> Seq<(Seq<char>, Seq<char>)> {
    devices.map_values(|d: TrustedDeviceSummary| (d.device_id@, d.certificate_fingerprint@))
}

fn same_prefix(a: &[u8], b: &[u8], n: usize) -> (r: bool)
    requires
        n <= a@.len(),
        n <= b@.len(),
    ensures
        r == (a@.subrange(0, n as int) == b@.subrange(0, n as int)),
{
    let mut i: usize = 0;
    while i < n
        invariant
            i <= n,
            n <= a@.len(),
            n <= b@.len(),
            forall|k: int| 0 <= k < i ==> a@[k] == b@[k],
        decreases n - i,
    {
        if a[i] != b[i] {
            assert(a@.subrange(0, n as int)[i as int] != b@.subrange(0, n as int)[i as int]);
            return false;
        }
        i = i + 1;
    }
    assert(a@.subrange(0, n as int) =~= b@.subrange(0, n as int));
    true
}

fn str_prefix_eq(a: &str, b: &str, n: usize) -> (r: bool)
    ensures
        r == (byte_prefix(encode_utf8(b@), n as int) is Some && byte_prefix(encode_utf8(a@), n as int)
            == byte_prefix(encode_utf8(b@), n as int)),
{
    let ab = a.as_bytes();
    let bb = b.as_bytes();
    if !b.is_char_boundary(n) || !a.is_char_boundary(n) {
        return false;
    }
    if n > ab.len() || n > bb.len() {
        return false;
    }
    same_prefix(ab, bb, n)
}

fn collides(id: &str, fp: &str, owners: &Vec<(String, String)>, n: usize) -> (r: bool)
    ensures
        r == prefix_collides(id@, fp@, owners@.map_values(|o: (String, String)| (o.0@, o.1@)), n as int),
{
    let ghost views = owners@.map_values(|o: (String, String)| (o.0@, o.1@));
    let mut j: usize = 0;
    while j < owners.len()
        invariant
            j <= owners@.len(),
            views == owners@.map_values(|o: (String, String)| (o.0@, o.1@)),
            forall|k: int|
                0 <= k < j ==> !((#[trigger] views[k]).0 != id@ && byte_prefix(encode_utf8(views[k].1), n as int) is Some
                    && byte_prefix(encode_utf8(fp@), n as int) == byte_prefix(encode_utf8(views[k].1), n as int)),
        decreases owners@.len() - j,
    {
        let other = &owners[j];
        let different = !equal_str(other.0.as_str(), id);
        if different && str_prefix_eq(fp, other.1.as_str(), n) {
            assert(views[j as int].0 != id@);
            return true;
        }
        j = j + 1;
    }
    proof {
        if prefix_collides(id@, fp@, views, n as int) {
            let k = choose|k: int|
                0 <= k < views.len() && (#[trigger] views[k]).0 != id@ && byte_prefix(encode_utf8(views[k].1), n as int) is Some
                    && byte_prefix(encode_utf8(fp@), n as int) == byte_prefix(encode_utf8(views[k].1), n as int);
            assert(k < j);
        }
    }
    false
}

/// Whether two strings hold the same characters.
pub fn equal_str(a: &str, b: &str) -> (r: bool)
    ensures
        r == (a@ == b@),
{
    let x = a.to_owned();
    let y = b.to_owned();
    x == y
}

/// The shortest prefix of `fp`, starting at eight bytes and growing four at a
/// time, that no owner with another id shares.
pub fn distinguishable_prefix(id: &str, fp: &str, owners: &Vec<(String, String)>) -> (r: String)
    ensures
        encode_utf8(r@) == distinguishable_prefix_bytes(
            id@,
            fp@,
            owners@.map_values(|o: (String, String)| (o.0@, o.1@)),
        ),
{
    let ghost views = owners@.map_values(|o: (String, String)| (o.0@, o.1@));
    let fp_bytes = fp.as_bytes();
    let len = fp_bytes.len();
    let mut length: usize = if len < 8 { len } else { 8 };
    proof {
        assert(fp.spec_bytes() == encode_utf8(fp@));
    }
    while length < len && collides(id, fp, owners, length)
        invariant
            len == encode_utf8(fp@).len(),
            length <= len,
            views == owners@.map_values(|o: (String, String)| (o.0@, o.1@)),
            distinguishing_length(id@, fp@, views, length as int) == distinguishing_length(
                id@,
                fp@,
                views,
                if len < 8 { len as int } else { 8 },
            ),
        decreases len - length,
    {
        length = if len - length > 4 { length + 4 } else { len };
    }
    if fp.is_char_boundary(length) && length <= len {
        let (head, _) = fp.split_at(length);
        let r = head.to_owned();
        proof {
            assert(head.spec_bytes() == encode_utf8(head@));
        }
        r
    } else {
        fp.to_owned()
    }
}

fn owners_of(devices: &[TrustedDeviceSummary]) -> (r: Vec<(String, String)>)
    ensures
        r@.map_values(|o: (String, String)| (o.0@, o.1@)) == owner_views(devices@),
{
    let mut out: Vec<(String, String)> = Vec::new();
    let mut i: usize = 0;
    while i < devices.len()
        invariant
            i <= devices@.len(),
            out@.len() == i,
            forall|k: int|
                0 <= k < i ==> (#[trigger] out@[k]).0@ == devices@[k].device_id@ && out@[k].1@
                    == devices@[k].certificate_fingerprint@,
        decreases devices@.len() - i,
    {
        let d = &devices[i];
        out.push((d.device_id.clone(), d.certificate_fingerprint.clone()));
        i = i + 1;
    }
    assert(out@.map_values(|o: (String, String)| (o.0@, o.1@)) =~= owner_views(devices@));
    out
}

/// The shortest prefix of the device's certificate fingerprint, starting at
/// eight bytes and growing four at a time, that no other paired device shares.
pub fn distinguishable_fingerprint_prefix(
    device: &TrustedDeviceSummary,
    devices: &[TrustedDeviceSummary],
) -> (r: String)
    ensures
        encode_utf8(r@) == distinguishable_prefix_bytes(
            device.device_id@,
            device.certificate_fingerprint@,
            owner_views(devices@),
        ),
{
    let owners = owners_of(devices);
    distinguishable_prefix(device.device_id.as_str(), device.certificate_fingerprint.as_str(), &owners)
}

/// Code-point lexicographic order of two texts; for UTF-8 strings this is
/// the byte order that `str`'s `Ord` uses.
pub open spec fn chars_lt(a: Seq<char>, b: Seq<char>) -> bool
    decreases a.len(),
{
    if a.len() == 0 {
        b.len() > 0
    } else if b.len() == 0 {
        false
    } else if a[0] != b[0] {
        a[0] < b[0]
    } else {
        chars_lt(a.drop_first(), b.drop_first())
    }
}

/// The text order is asymmetric.
pub proof fn lemma_chars_lt_asymmetric(a: Seq<char>, b: Seq<char>)
    ensures
        chars_lt(a, b) ==> !chars_lt(b, a),
    decreases a.len(),
{
    if a.len() > 0 && b.len() > 0 && a[0] == b[0] {
        lemma_chars_lt_asymmetric(a.drop_first(), b.drop_first());
    }
}

/// The text order is transitive.
pub proof fn lemma_chars_lt_transitive(a: Seq<char>, b: Seq<char>, c: Seq<char>)
    ensures
        chars_lt(a, b) && chars_lt(b, c) ==> chars_lt(a, c),
    decreases a.len(),
{
    if a.len() > 0 && b.len() > 0 && c.len() > 0 && a[0] == b[0] && b[0] == c[0] {
        lemma_chars_lt_transitive(a.drop_first(), b.drop_first(), c.drop_first());
    }
}

/// Whether `a` sorts before `b`.
pub fn str_lt(a: &str, b: &str) -> (r: bool)
    ensures
        r == chars_lt(a@, b@),
{
    let x = chars_of(a);
    let y = chars_of(b);
    let mut i: usize = 0;
    assert(a@.skip(0) =~= a@);
    assert(b@.skip(0) =~= b@);
    while i < x.len() && i < y.len() && x[i] == y[i]
        invariant
            x@ == a@,
            y@ == b@,
            i <= x@.len(),
            i <= y@.len(),
            chars_lt(a@, b@) == chars_lt(a@.skip(i as int), b@.skip(i as int)),
        decreases x@.len() - i,
    {
        assert(a@.skip(i as int).drop_first() =~= a@.skip(i + 1));
        assert(b@.skip(i as int).drop_first() =~= b@.skip(i + 1));
        i = i + 1;
    }
    if i == x.len() {
        i < y.len()
    } else if i == y.len() {
        false
    } else {
        x[i] < y[i]
    }
}

/// The paired-device list order: most recently connected first, then by
/// name, then by id.
pub open spec fn device_before(x: TrustedDeviceSummary, y: TrustedDeviceSummary) -> bool {
    ||| x.last_connected_at_ms > y.last_connected_at_ms
    ||| x.last_connected_at_ms == y.last_connected_at_ms && chars_lt(x.device_name@, y.device_name@)
    ||| x.last_connected_at_ms == y.last_connected_at_ms && x.device_name@ == y.device_name@ && chars_lt(
        x.device_id@,
        y.device_id@,
    )
}

proof fn lemma_device_before_order(x: TrustedDeviceSummary, y: TrustedDeviceSummary, z: TrustedDeviceSummary)
    ensures
        device_before(x, y) ==> !device_before(y, x),
        device_before(x, y) && device_before(y, z) ==> device_before(x, z),
{
    lemma_chars_lt_asymmetric(x.device_name@, y.device_name@);
    lemma_chars_lt_asymmetric(x.device_id@, y.device_id@);
    lemma_chars_lt_asymmetric(x.device_name@, x.device_name@);
    lemma_chars_lt_asymmetric(x.device_id@, x.device_id@);
    lemma_chars_lt_transitive(x.device_name@, y.device_name@, z.device_name@);
    lemma_chars_lt_transitive(x.device_id@, y.device_id@, z.device_id@);
}

/// No row sorts before an earlier one.
pub open spec fn sorted_devices(s: Seq<TrustedDeviceSummary>) -> bool {
    forall|i: int, j: int| 0 <= i < j < s.len() ==> !device_before(#[trigger] s[j], #[trigger] s[i])
}

fn device_lt(x: &TrustedDeviceSummary, y: &TrustedDeviceSummary) -> (r: bool)
    ensures
        r == device_before(*x, *y),
{
    if x.last_connected_at_ms != y.last_connected_at_ms {
        return x.last_connected_at_ms > y.last_connected_at_ms;
    }
    if str_lt(x.device_name.as_str(), y.device_name.as_str()) {
        return true;
    }
    if !crate::receiver_runtime::equal_str(x.device_name.as_str(), y.device_name.as_str()) {
        return false;
    }
    str_lt(x.device_id.as_str(), y.device_id.as_str())
}

proof fn lemma_insert_sorted(s: Seq<TrustedDeviceSummary>, p: int, x: TrustedDeviceSummary)
    requires
        sorted_devices(s),
        0 <= p <= s.len(),
        forall|i: int| 0 <= i < p ==> !device_before(x, #[trigger] s[i]),
        p < s.len() ==> device_before(x, s[p]),
    ensures
        sorted_devices(s.insert(p, x)),
{
    let t = s.insert(p, x);
    assert forall|i: int, j: int| 0 <= i < j < t.len() implies !device_before(#[trigger] t[j], #[trigger] t[i]) by {
        if i < p && j < p {
            assert(t[i] == s[i] && t[j] == s[j]);
        } else if i < p && j == p {
            assert(t[i] == s[i] && t[j] == x);
        } else if i < p && j > p {
            assert(t[i] == s[i] && t[j] == s[j - 1]);
        } else if i == p {
            assert(t[i] == x && t[j] == s[j - 1]);
            lemma_device_before_order(s[j - 1], x, s[p]);
            if j - 1 > p {
                assert(!device_before(s[j - 1], s[p]));
            }
        } else {
            assert(t[i] == s[i - 1] && t[j] == s[j - 1]);
        }
    }
}

/// A paired device as the trusted store keeps it.
#[derive(Debug, Clone)]
pub struct TrustedDeviceRecord {
    pub device_id: String,
    pub device_name: String,
    pub certificate_fingerprint: String,
    pub last_connected_at_ms: Option<u64>,
}

pub open spec fn record_owner_views(records: Seq<TrustedDeviceRecord>) -> Seq<(Seq<char>, Seq<char>)> {
    records.map_values(|d: TrustedDeviceRecord| (d.device_id@, d.certificate_fingerprint@))
}

/// What a row shows of a stored device.
pub open spec fn record_key(d: TrustedDeviceRecord) -> (Seq<char>, Seq<char>, Seq<char>, u64) {
    (
        d.device_id@,
        d.device_name@,
        d.certificate_fingerprint@,
        match d.last_connected_at_ms {
            Some(ms) => ms,
            None => 0,
        },
    )
}

pub open spec fn summary_key(d: TrustedDeviceSummary) -> (Seq<char>, Seq<char>, Seq<char>, u64) {
    (d.device_id@, d.device_name@, d.certificate_fingerprint@, d.last_connected_at_ms)
}

/// A row carries the distinguishable prefix of its fingerprint among all
/// stored devices, and the Android platform tag.
pub open spec fn row_complete(d: TrustedDeviceSummary, owners: Seq<(Seq<char>, Seq<char>)>) -> bool {
    &&& encode_utf8(d.identity_prefix@) == distinguishable_prefix_bytes(
        d.device_id@,
        d.certificate_fingerprint@,
        owners,
    )
    &&& d.platform@ == "Android"@
}

/// Two owner lists with the same members.
pub open spec fn same_owners(a: Seq<(Seq<char>, Seq<char>)>, b: Seq<(Seq<char>, Seq<char>)>) -> bool {
    forall|x: (Seq<char>, Seq<char>)| a.contains(x) <==> b.contains(x)
}

proof fn lemma_collides_same_owners(
    id: Seq<char>,
    fp: Seq<char>,
    a: Seq<(Seq<char>, Seq<char>)>,
    b: Seq<(Seq<char>, Seq<char>)>,
    n: int,
)
    requires
        same_owners(a, b),
    ensures
        prefix_collides(id, fp, a, n) == prefix_collides(id, fp, b, n),
{
    if prefix_collides(id, fp, a, n) {
        let j = choose|j: int|
            0 <= j < a.len() && (#[trigger] a[j]).0 != id && byte_prefix(encode_utf8(a[j].1), n) is Some
                && byte_prefix(encode_utf8(fp), n) == byte_prefix(encode_utf8(a[j].1), n);
        assert(a.contains(a[j]));
        assert(b.contains(a[j]));
        let k = choose|k: int| 0 <= k < b.len() && b[k] == a[j];
        assert(b[k] == a[j]);
    }
    if prefix_collides(id, fp, b, n) {
        let j = choose|j: int|
            0 <= j < b.len() && (#[trigger] b[j]).0 != id && byte_prefix(encode_utf8(b[j].1), n) is Some
                && byte_prefix(encode_utf8(fp), n) == byte_prefix(encode_utf8(b[j].1), n);
        assert(b.contains(b[j]));
        assert(a.contains(b[j]));
        let k = choose|k: int| 0 <= k < a.len() && a[k] == b[j];
        assert(a[k] == b[j]);
    }
}

proof fn lemma_length_same_owners(
    id: Seq<char>,
    fp: Seq<char>,
    a: Seq<(Seq<char>, Seq<char>)>,
    b: Seq<(Seq<char>, Seq<char>)>,
    n: int,
)
    requires
        same_owners(a, b),
    ensures
        distinguishing_length(id, fp, a, n) == distinguishing_length(id, fp, b, n),
    decreases encode_utf8(fp).len() - n,
{
    lemma_collides_same_owners(id, fp, a, b, n);
    let len = encode_utf8(fp).len() as int;
    if n < len && prefix_collides(id, fp, a, n) {
        let next = if n + 4 < len { n + 4 } else { len };
        lemma_length_same_owners(id, fp, a, b, next);
    }
}

/// The prefix shown for an identity depends only on which owners there are,
/// not on their order or repetition.
pub proof fn lemma_prefix_same_owners(
    id: Seq<char>,
    fp: Seq<char>,
    a: Seq<(Seq<char>, Seq<char>)>,
    b: Seq<(Seq<char>, Seq<char>)>,
)
    requires
        same_owners(a, b),
    ensures
        distinguishable_prefix_bytes(id, fp, a) == distinguishable_prefix_bytes(id, fp, b),
{
    let len = encode_utf8(fp).len() as int;
    let start = if len < 8 { len } else { 8 };
    lemma_length_same_owners(id, fp, a, b, start);
}

proof fn lemma_rows_same_owners(r: Seq<TrustedDeviceSummary>, records: Seq<TrustedDeviceRecord>)
    requires
        r.map_values(|d: TrustedDeviceSummary| summary_key(d)).to_multiset()
            == records.map_values(|d: TrustedDeviceRecord| record_key(d)).to_multiset(),
    ensures
        same_owners(owner_views(r), record_owner_views(records)),
{
    broadcast use vstd::seq_lib::group_to_multiset_ensures;

    let ks = r.map_values(|d: TrustedDeviceSummary| summary_key(d));
    let kr = records.map_values(|d: TrustedDeviceRecord| record_key(d));
    let a = owner_views(r);
    let b = record_owner_views(records);
    assert forall|x: (Seq<char>, Seq<char>)| a.contains(x) <==> b.contains(x) by {
        if a.contains(x) {
            let i = choose|i: int| 0 <= i < a.len() && a[i] == x;
            assert(ks[i] == summary_key(r[i]));
            assert(ks.contains(ks[i]));
            assert(ks.to_multiset().count(ks[i]) > 0);
            assert(kr.contains(ks[i]));
            let j = choose|j: int| 0 <= j < kr.len() && kr[j] == ks[i];
            assert(kr[j] == record_key(records[j]));
            assert(b[j] == x);
        }
        if b.contains(x) {
            let j = choose|j: int| 0 <= j < b.len() && b[j] == x;
            assert(kr[j] == record_key(records[j]));
            assert(kr.contains(kr[j]));
            assert(kr.to_multiset().count(kr[j]) > 0);
            assert(ks.contains(kr[j]));
            let i = choose|i: int| 0 <= i < ks.len() && ks[i] == kr[j];
            assert(ks[i] == summary_key(r[i]));
            assert(a[i] == x);
        }
    }
}

/// The paired-device rows of the snapshot: one per stored device (a device
/// never connected shows 0), each with its distinguishable fingerprint
/// prefix, most recently connected first, then by name, then by id.
pub fn trusted_device_summaries(records: &[TrustedDeviceRecord]) -> (r: Vec<TrustedDeviceSummary>)
    ensures
        r@.len() == records@.len(),
        r@.map_values(|d: TrustedDeviceSummary| summary_key(d)).to_multiset()
            == records@.map_values(|d: TrustedDeviceRecord| record_key(d)).to_multiset(),
        forall|i: int| 0 <= i < r@.len() ==> row_complete(#[trigger] r@[i], record_owner_views(records@)),
        forall|i: int| 0 <= i < r@.len() ==> row_complete(#[trigger] r@[i], owner_views(r@)),
        sorted_devices(r@),
{
    proof {
        reveal_strlit("Android");
    }
    let ghost owners = record_owner_views(records@);
    let mut rows: Vec<TrustedDeviceSummary> = Vec::new();
    let mut i: usize = 0;
    while i < records.len()
        invariant
            i <= records@.len(),
            rows@.len() == i,
            forall|k: int|
                0 <= k < i ==> summary_key(#[trigger] rows@[k]) == record_key(records@[k]) && rows@[k].platform@
                    == "Android"@,
        decreases records@.len() - i,
    {
        let d = &records[i];
        rows.push(
            TrustedDeviceSummary {
                device_id: d.device_id.clone(),
                device_name: d.device_name.clone(),
                certificate_fingerprint: d.certificate_fingerprint.clone(),
                identity_prefix: String::new(),
                last_connected_at_ms: match d.last_connected_at_ms {
                    Some(ms) => ms,
                    None => 0,
                },
                platform: "Android",
            },
        );
        i = i + 1;
    }
    assert(owner_views(rows@) =~= owners) by {
        assert forall|k: int| 0 <= k < rows@.len() implies #[trigger] owner_views(rows@)[k] == owners[k] by {
            assert(summary_key(rows@[k]) == record_key(records@[k]));
        }
    }
    let mut prefixes: Vec<String> = Vec::new();
    let mut j: usize = 0;
    while j < rows.len()
        invariant
            j <= rows@.len(),
            owner_views(rows@) == owners,
            prefixes@.len() == j,
            forall|k: int|
                0 <= k < j ==> encode_utf8(#[trigger] prefixes@[k]@) == distinguishable_prefix_bytes(
                    rows@[k].device_id@,
                    rows@[k].certificate_fingerprint@,
                    owners,
                ),
        decreases rows@.len() - j,
    {
        let p = distinguishable_fingerprint_prefix(&rows[j], rows.as_slice());
        prefixes.push(p);
        j = j + 1;
    }
    let mut sorted: Vec<TrustedDeviceSummary> = Vec::new();
    let mut k: usize = 0;
    assert(sorted@.map_values(|d: TrustedDeviceSummary| summary_key(d)) =~= records@.take(0).map_values(
        |d: TrustedDeviceRecord| record_key(d),
    ));
    while k < rows.len()
        invariant
            k <= rows@.len(),
            rows@.len() == records@.len(),
            prefixes@.len() == rows@.len(),
            forall|m: int|
                0 <= m < rows@.len() ==> summary_key(#[trigger] rows@[m]) == record_key(records@[m]) && rows@[m].platform@
                    == "Android"@,
            forall|m: int|
                0 <= m < rows@.len() ==> encode_utf8(#[trigger] prefixes@[m]@) == distinguishable_prefix_bytes(
                    rows@[m].device_id@,
                    rows@[m].certificate_fingerprint@,
                    owners,
                ),
            sorted@.len() == k,
            sorted@.map_values(|d: TrustedDeviceSummary| summary_key(d)).to_multiset()
                == records@.take(k as int).map_values(|d: TrustedDeviceRecord| record_key(d)).to_multiset(),
            forall|m: int| 0 <= m < sorted@.len() ==> row_complete(#[trigger] sorted@[m], owners),
            sorted_devices(sorted@),
        decreases rows@.len() - k,
    {
        let src = &rows[k];
        let row = TrustedDeviceSummary {
            device_id: src.device_id.clone(),
            device_name: src.device_name.clone(),
            certificate_fingerprint: src.certificate_fingerprint.clone(),
            identity_prefix: prefixes[k].clone(),
            last_connected_at_ms: src.last_connected_at_ms,
            platform: src.platform,
        };
        assert(summary_key(row) == record_key(records@[k as int]));
        let mut p: usize = 0;
        while p < sorted.len() && !device_lt(&row, &sorted[p])
            invariant
                p <= sorted@.len(),
                forall|m: int| 0 <= m < p ==> !device_before(row, #[trigger] sorted@[m]),
            decreases sorted@.len() - p,
        {
            p = p + 1;
        }
        let ghost before = sorted@;
        proof {
            lemma_insert_sorted(before, p as int, row);
        }
        sorted.insert(p, row);
        proof {
            assert(sorted@.map_values(|d: TrustedDeviceSummary| summary_key(d)) =~= before.map_values(
                |d: TrustedDeviceSummary| summary_key(d),
            ).insert(p as int, summary_key(row)));
            vstd::seq_lib::to_multiset_insert(
                before.map_values(|d: TrustedDeviceSummary| summary_key(d)),
                p as int,
                summary_key(row),
            );
            assert(records@.take(k + 1).map_values(|d: TrustedDeviceRecord| record_key(d)) =~= records@.take(
                k as int,
            ).map_values(|d: TrustedDeviceRecord| record_key(d)).push(record_key(records@[k as int])));
            vstd::seq_lib::to_multiset_build(
                records@.take(k as int).map_values(|d: TrustedDeviceRecord| record_key(d)),
                record_key(records@[k as int]),
            );
            assert forall|m: int| 0 <= m < sorted@.len() implies row_complete(#[trigger] sorted@[m], owners) by {
                if m < p {
                    assert(sorted@[m] == before[m]);
                } else if m > p {
                    assert(sorted@[m] == before[m - 1]);
                }
            }
        }
        k = k + 1;
    }
    assert(records@.take(records@.len() as int) =~= records@);
    proof {
        lemma_rows_same_owners(sorted@, records@);
        assert forall|i: int| 0 <= i < sorted@.len() implies row_complete(
            #[trigger] sorted@[i],
            owner_views(sorted@),
        ) by {
            assert(row_complete(sorted@[i], record_owner_views(records@)));
            lemma_prefix_same_owners(
                sorted@[i].device_id@,
                sorted@[i].certificate_fingerprint@,
                record_owner_views(records@),
                owner_views(sorted@),
            );
        }
    }
    sorted
}

/// A stored identity that the Sender may ask to replace.
#[derive(Debug, Clone, PartialEq, Eq)]
pub struct TrustedIdentityCandidate {
    pub device_id: String,
    pub certificate_fingerprint: String,
    pub last_connected_at_ms: Option<u64>,
}

pub open spec fn candidate_views(candidates: Seq<TrustedIdentityCandidate>) -> Seq<(Seq<char>, Seq<char>)> {
    candidates.map_values(|d: TrustedIdentityCandidate| (d.device_id@, d.certificate_fingerprint@))
}

/// The shortest prefix of a replacement candidate's fingerprint, starting at
/// eight bytes and growing four at a time, that no other candidate shares.
pub fn distinguishable_candidate_prefix(
    candidate: &TrustedIdentityCandidate,
    candidates: &[TrustedIdentityCandidate],
) -> (r: String)
    ensures
        encode_utf8(r@) == distinguishable_prefix_bytes(
            candidate.device_id@,
            candidate.certificate_fingerprint@,
            candidate_views(candidates@),
        ),
{
    let mut owners: Vec<(String, String)> = Vec::new();
    let mut i: usize = 0;
    while i < candidates.len()
        invariant
            i <= candidates@.len(),
            owners@.len() == i,
            forall|k: int|
                0 <= k < i ==> (#[trigger] owners@[k]).0@ == candidates@[k].device_id@ && owners@[k].1@
                    == candidates@[k].certificate_fingerprint@,
        decreases candidates@.len() - i,
    {
        let c = &candidates[i];
        owners.push((c.device_id.clone(), c.certificate_fingerprint.clone()));
        i = i + 1;
    }
    assert(owners@.map_values(|o: (String, String)| (o.0@, o.1@)) =~= candidate_views(candidates@));
    distinguishable_prefix(candidate.device_id.as_str(), candidate.certificate_fingerprint.as_str(), &owners)
}

proof fn lemma_distinguishing_length(
    id: Seq<char>,
    fp: Seq<char>,
    owners: Seq<(Seq<char>, Seq<char>)>,
    n: int,
)
    requires
        0 <= n <= encode_utf8(fp).len(),
    ensures
        n <= distinguishing_length(id, fp, owners, n) <= encode_utf8(fp).len(),
        distinguishing_length(id, fp, owners, n) == encode_utf8(fp).len() || !prefix_collides(
            id,
            fp,
            owners,
            distinguishing_length(id, fp, owners, n),
        ),
    decreases encode_utf8(fp).len() - n,
{
    let len = encode_utf8(fp).len() as int;
    if n < len && prefix_collides(id, fp, owners, n) {
        let next = if n + 4 < len { n + 4 } else { len };
        lemma_distinguishing_length(id, fp, owners, next);
    }
}

proof fn lemma_shorter_candidates_collide(
    id: Seq<char>,
    fp: Seq<char>,
    owners: Seq<(Seq<char>, Seq<char>)>,
    n: int,
)
    requires
        0 <= n,
    ensures
        forall|k: int|
            k >= 0 && n + 4 * k < distinguishing_length(id, fp, owners, n) ==> #[trigger] prefix_collides(
                id,
                fp,
                owners,
                n + 4 * k,
            ),
    decreases encode_utf8(fp).len() - n,
{
    let len = encode_utf8(fp).len() as int;
    if n < len && prefix_collides(id, fp, owners, n) {
        let next = if n + 4 < len { n + 4 } else { len };
        lemma_shorter_candidates_collide(id, fp, owners, next);
        assert forall|k: int|
            k >= 0 && n + 4 * k < distinguishing_length(id, fp, owners, n) implies #[trigger] prefix_collides(
            id,
            fp,
            owners,
            n + 4 * k,
        ) by {
            if k > 0 {
                if n + 4 < len {
                    assert(next + 4 * (k - 1) == n + 4 * k);
                } else {
                    assert(distinguishing_length(id, fp, owners, next) == len);
                }
            }
        }
    }
}

/// The prefix shown is the shortest candidate: every shorter candidate
/// length, eight bytes and then four more at a time, is shared with another
/// owner.
pub proof fn lemma_prefix_is_shortest(id: Seq<char>, fp: Seq<char>, owners: Seq<(Seq<char>, Seq<char>)>)
    ensures
        forall|k: int|
            k >= 0 && 8 + 4 * k < distinguishing_length(
                id,
                fp,
                owners,
                if encode_utf8(fp).len() < 8 { encode_utf8(fp).len() as int } else { 8 },
            ) ==> #[trigger] prefix_collides(id, fp, owners, 8 + 4 * k),
{
    let len = encode_utf8(fp).len() as int;
    if len < 8 {
        lemma_distinguishing_length(id, fp, owners, len);
    } else {
        lemma_shorter_candidates_collide(id, fp, owners, 8);
    }
}

/// The prefix shown for an identity is a prefix of its fingerprint's bytes and
/// tells it apart: either it is the whole fingerprint, or no owner with another
/// id has a fingerprint starting with the same bytes at that length.
pub proof fn lemma_prefix_distinguishes(
    id: Seq<char>,
    fp: Seq<char>,
    owners: Seq<(Seq<char>, Seq<char>)>,
)
    ensures
        encode_utf8(fp).subrange(0, distinguishable_prefix_bytes(id, fp, owners).len() as int)
            == distinguishable_prefix_bytes(id, fp, owners),
        distinguishable_prefix_bytes(id, fp, owners) == encode_utf8(fp) || !prefix_collides(
            id,
            fp,
            owners,
            distinguishable_prefix_bytes(id, fp, owners).len() as int,
        ),
{
    let b = encode_utf8(fp);
    let len = b.len() as int;
    let start = if len < 8 { len } else { 8 };
    lemma_distinguishing_length(id, fp, owners, start);
    let n = distinguishing_length(id, fp, owners, start);
    if byte_prefix(b, n) is Some {
        assert(b.subrange(0, n).len() == n);
    } else {
        assert(b.subrange(0, len) =~= b);
    }
}

/// UTC `yyyy-MM-dd` of the date, each field zero-padded.
pub open spec fn date_text(y: int, m: int, d: int) -> Seq<char> {
    zero_pad(decimal_digits(y as nat), 4) + seq!['-'] + zero_pad(decimal_digits(m as nat), 2)
        + seq!['-'] + zero_pad(decimal_digits(d as nat), 2)
}

/// UTC `yyyy-MM-dd` of a millisecond timestamp for paired-device rows; an em
/// dash when the timestamp is unknown (zero).
pub fn format_last_connected_ms(ms: u64) -> (r: String)
    ensures
        ms == 0 ==> r@ == seq!['\u{2014}'],
        ms != 0 ==> exists|y: int, m: int, d: int|
            #![trigger date_text(y, m, d)]
            is_valid_date(y, m, d) && days_since_epoch(y, m, d) == ms / DAY_MS && r@ == date_text(
                y,
                m,
                d,
            ),
        ms != 0 ==> forall|y: int, m: int, d: int|
            is_valid_date(y, m, d) && days_since_epoch(y, m, d) == ms / DAY_MS ==> r@ == #[trigger] date_text(
                y,
                m,
                d,
            ),
{
    if ms == 0 {
        let mut out = String::new();
        push_char(&mut out, '\u{2014}');
        return out;
    }
    let days = ms / DAY_MS;
    let (y, m, d) = civil_from_days(days);
    let mut text: Vec<char> = decimal_padded(y, 4);
    text.push('-');
    let month = decimal_padded(m, 2);
    let mut i: usize = 0;
    let ghost before = text@;
    while i < month.len()
        invariant
            i <= month@.len(),
            text@ == before + month@.take(i as int),
        decreases month@.len() - i,
    {
        text.push(month[i]);
        assert(month@.take(i + 1) =~= month@.take(i as int).push(month@[i as int]));
        i = i + 1;
    }
    assert(month@.take(month@.len() as int) =~= month@);
    text.push('-');
    let day = decimal_padded(d, 2);
    let mut out = string_from_chars(text.as_slice());
    append_chars(&mut out, day.as_slice());
    assert(out@ =~= date_text(y as int, m as int, d as int));
    assert forall|yy: int, mm: int, dd: int|
        is_valid_date(yy, mm, dd) && days_since_epoch(yy, mm, dd) == ms / DAY_MS implies out@
        == #[trigger] date_text(yy, mm, dd) by {
        lemma_date_unique(yy, mm, dd, y as int, m as int, d as int);
    }
    out
}

/// Compact age of the last connection: "today", "yesterday" or "N days ago";
/// a clock running behind the timestamp counts as today.
pub fn format_last_connected_relative_ms(last_connected_ms: u64, now_ms: u64) -> (r: String)
    ensures
        last_connected_ms == 0 ==> r@ == "时间未知"@,
        last_connected_ms != 0 ==> {
            let days = if now_ms > last_connected_ms { (now_ms - last_connected_ms) / (DAY_MS as int) } else { 0 };
            &&& days == 0 ==> r@ == "今天"@
            &&& days == 1 ==> r@ == "昨天"@
            &&& days >= 2 ==> r@ == decimal_digits(days as nat) + " 天前"@
        },
{
    if last_connected_ms == 0 {
        return owned("时间未知");
    }
    let elapsed: u64 = if now_ms > last_connected_ms { now_ms - last_connected_ms } else { 0 };
    let days = elapsed / DAY_MS;
    if days == 0 {
        owned("今天")
    } else if days == 1 {
        owned("昨天")
    } else {
        let digits = decimal(days);
        let mut out = string_from_chars(digits.as_slice());
        out.append(" 天前");
        out
    }
}

} // verus!
