//! Volume-claim records, kubelet usage samples, and the storage status
//! builder.

use vstd::prelude::*;
use crate::classify::opt_view;
use crate::strfmt::{
    spec_find_char, spec_split, spec_trim, spec_trim_quotes, starts_with, str_eq, str_find_char,
    str_split_char, str_starts_with, str_trim, str_trim_quotes,
};
use crate::units::{parse_u64_str, parse_capacity_u64, spec_parse_capacity_u64, spec_parse_u64};

verus! {

/// One volume claim, as read from the control plane.
#[derive(Clone, Debug)]
pub struct PvcRecord {
    pub name: Option<String>,
    pub namespace: Option<String>,
    pub phase: Option<String>,
    pub capacity: Option<String>,
    pub storage_class: Option<String>,
    pub access_modes: Vec<String>,
    pub volume_name: Option<String>,
}

/// One used-bytes sample, keyed by namespace and claim name.
#[derive(Clone, Debug)]
pub struct UsageEntry {
    pub namespace: String,
    pub claim: String,
    pub used_bytes: u64,
}

/// One volume claim, ready for display.
#[derive(Clone, Debug)]
pub struct PvcInfo {
    pub name: String,
    pub namespace: String,
    pub status: String,
    pub capacity: String,
    pub capacity_bytes: u64,
    pub used_bytes: Option<u64>,
    pub storage_class: String,
    pub access_modes: Vec<String>,
    pub volume_name: String,
    pub pods_using: Vec<String>,
}

/// The storage status summary.
#[derive(Clone, Debug)]
pub struct StorageStatusResponse {
    pub pvc_count: usize,
    pub pvc_total_capacity_bytes: u64,
    pub pvc_total_usage_bytes: u64,
    pub pvcs: Vec<PvcInfo>,
}

// ---------------------------------------------------------------------------
// Usage lookup: the latest sample wins
// ---------------------------------------------------------------------------

/// The used bytes recorded for a claim; a later sample overrides an
/// earlier one.
pub open spec fn spec_usage_lookup(
    entries: Seq<UsageEntry>,
    ns: Seq<char>,
    claim: Seq<char>,
) -> Option<int>
    decreases entries.len(),
{
    if entries.len() == 0 {
        None
    } else if entries.last().namespace@ == ns && entries.last().claim@ == claim {
        Some(entries.last().used_bytes as int)
    } else {
        spec_usage_lookup(entries.drop_last(), ns, claim)
    }
}

/// Looks up the used bytes for a claim, the latest sample winning.
pub fn usage_lookup(entries: &Vec<UsageEntry>, ns: &str, claim: &str) -> (r: Option<u64>)
    ensures
        r is Some <==> spec_usage_lookup(entries@, ns@, claim@) is Some,
        r is Some ==> r->0 as int == spec_usage_lookup(entries@, ns@, claim@)->0,
{
    let n = entries.len();
    let mut found: Option<u64> = None;
    let mut i: usize = 0;
    proof {
        assert(entries@.take(0) =~= Seq::<UsageEntry>::empty());
    }
    while i < n
        invariant
            i <= n,
            n == entries@.len(),
            found is Some <==> spec_usage_lookup(entries@.take(i as int), ns@, claim@) is Some,
            found is Some ==> found->0 as int == spec_usage_lookup(
                entries@.take(i as int),
                ns@,
                claim@,
            )->0,
        decreases n - i,
    {
        proof {
            assert(entries@.take(i + 1).drop_last() =~= entries@.take(i as int));
            assert(entries@.take(i + 1).last() == entries@[i as int]);
        }
        let e = &entries[i];
        if crate::strfmt::str_eq(e.namespace.as_str(), ns) && crate::strfmt::str_eq(
            e.claim.as_str(),
            claim,
        ) {
            found = Some(e.used_bytes);
        }
        i += 1;
    }
    proof {
        assert(entries@.take(n as int) =~= entries@);
    }
    found
}

// ---------------------------------------------------------------------------
// Rows
// ---------------------------------------------------------------------------

#[verifier::ext_equal]
pub struct PvcRow {
    pub name: Seq<char>,
    pub namespace: Seq<char>,
    pub status: Seq<char>,
    pub capacity: Seq<char>,
    pub capacity_bytes: int,
    pub used_bytes: Option<int>,
    pub storage_class: Seq<char>,
    pub access_modes: Seq<Seq<char>>,
    pub volume_name: Seq<char>,
    pub pods_using: Seq<Seq<char>>,
}

pub open spec fn pvc_row_of(x: PvcInfo) -> PvcRow {
    PvcRow {
        name: x.name@,
        namespace: x.namespace@,
        status: x.status@,
        capacity: x.capacity@,
        capacity_bytes: x.capacity_bytes as int,
        used_bytes: match x.used_bytes {
            Some(v) => Some(v as int),
            None => None,
        },
        storage_class: x.storage_class@,
        access_modes: x.access_modes@.map_values(|s: String| s@),
        volume_name: x.volume_name@,
        pods_using: x.pods_using@.map_values(|s: String| s@),
    }
}

pub open spec fn or_empty(s: Option<String>) -> Seq<char> {
    match s {
        Some(v) => v@,
        None => Seq::<char>::empty(),
    }
}

/// The display row of one claim, against the usage samples.
pub open spec fn spec_pvc_row(p: PvcRecord, usage: Seq<UsageEntry>) -> PvcRow {
    let cap = match p.capacity {
        Some(c) => c@,
        None => "0"@,
    };
    PvcRow {
        name: or_empty(p.name),
        namespace: or_empty(p.namespace),
        status: match p.phase {
            Some(s) => s@,
            None => "Unknown"@,
        },
        capacity: cap,
        capacity_bytes: spec_parse_capacity_u64(cap),
        used_bytes: spec_usage_lookup(usage, or_empty(p.namespace), or_empty(p.name)),
        storage_class: or_empty(p.storage_class),
        access_modes: p.access_modes@.map_values(|s: String| s@),
        volume_name: or_empty(p.volume_name),
        pods_using: Seq::<Seq<char>>::empty(),
    }
}

pub open spec fn spec_pvc_rows(pvcs: Seq<PvcRecord>, usage: Seq<UsageEntry>) -> Seq<PvcRow>
    decreases pvcs.len(),
{
    if pvcs.len() == 0 {
        Seq::<PvcRow>::empty()
    } else {
        spec_pvc_rows(pvcs.drop_last(), usage).push(spec_pvc_row(pvcs.last(), usage))
    }
}

/// Addition on `u64` saturating at the type bound.
pub open spec fn sat_add_u64(a: int, b: int) -> int {
    if a + b > u64::MAX as int {
        u64::MAX as int
    } else {
        a + b
    }
}

/// Total capacity of the claims, saturating.
pub open spec fn spec_total_capacity(pvcs: Seq<PvcRecord>) -> int
    decreases pvcs.len(),
{
    if pvcs.len() == 0 {
        0
    } else {
        sat_add_u64(
            spec_total_capacity(pvcs.drop_last()),
            spec_parse_capacity_u64(
                match pvcs.last().capacity {
                    Some(c) => c@,
                    None => "0"@,
                },
            ),
        )
    }
}

/// Total sampled usage of the claims, saturating; unsampled claims add
/// nothing.
pub open spec fn spec_total_usage(pvcs: Seq<PvcRecord>, usage: Seq<UsageEntry>) -> int
    decreases pvcs.len(),
{
    if pvcs.len() == 0 {
        0
    } else {
        let prev = spec_total_usage(pvcs.drop_last(), usage);
        match spec_usage_lookup(usage, or_empty(pvcs.last().namespace), or_empty(
            pvcs.last().name,
        )) {
            Some(u) => sat_add_u64(prev, u),
            None => prev,
        }
    }
}

fn add_sat_u64(a: u64, b: u64) -> (r: u64)
    ensures
        r as int == sat_add_u64(a as int, b as int),
{
    match a.checked_add(b) {
        Some(v) => v,
        None => u64::MAX,
    }
}

fn clone_strings(src: &Vec<String>) -> (out: Vec<String>)
    ensures
        out@ == src@,
{
    let mut out: Vec<String> = Vec::new();
    let n = src.len();
    let mut i: usize = 0;
    proof {
        assert(out@ =~= src@.take(0));
    }
    while i < n
        invariant
            i <= n,
            n == src@.len(),
            out@ == src@.take(i as int),
        decreases n - i,
    {
        out.push(src[i].clone());
        proof {
            assert(out@ =~= src@.take(i + 1));
        }
        i += 1;
    }
    proof {
        assert(src@.take(n as int) =~= src@);
    }
    out
}

// ---------------------------------------------------------------------------
// The builder
// ---------------------------------------------------------------------------

/// Assembles the storage summary from fetched claims and kubelet usage
/// samples: one row per claim in input order, with totals over capacity
/// and sampled usage.
pub fn get_storage_status(pvcs: &Vec<PvcRecord>, usage: &Vec<UsageEntry>) -> (r:
    StorageStatusResponse)
    ensures
        r.pvc_count == pvcs@.len(),
        r.pvcs@.len() == pvcs@.len(),
        r.pvcs@.map_values(|x: PvcInfo| pvc_row_of(x)) == spec_pvc_rows(pvcs@, usage@),
        r.pvc_total_capacity_bytes as int == spec_total_capacity(pvcs@),
        r.pvc_total_usage_bytes as int == spec_total_usage(pvcs@, usage@),
{
    let ghost all = pvcs@;
    let n = pvcs.len();
    let mut out: Vec<PvcInfo> = Vec::new();
    let mut total_cap: u64 = 0;
    let mut total_use: u64 = 0;
    let mut i: usize = 0;
    proof {
        assert(all.take(0) =~= Seq::<PvcRecord>::empty());
        assert(out@.map_values(|x: PvcInfo| pvc_row_of(x)) =~= spec_pvc_rows(
            all.take(0),
            usage@,
        ));
    }
    while i < n
        invariant
            n == all.len(),
            i <= n,
            out@.len() == i,
            out@.map_values(|x: PvcInfo| pvc_row_of(x)) == spec_pvc_rows(all.take(i as int), usage@),
            total_cap as int == spec_total_capacity(all.take(i as int)),
            total_use as int == spec_total_usage(all.take(i as int), usage@),
            pvcs@ == all,
        decreases n - i,
    {
        let p = &pvcs[i];
        proof {
            assert(all.take(i + 1).drop_last() =~= all.take(i as int));
            assert(all.take(i + 1).last() == all[i as int]);
        }
        let name = match &p.name {
            Some(v) => v.clone(),
            None => String::new(),
        };
        let namespace = match &p.namespace {
            Some(v) => v.clone(),
            None => String::new(),
        };
        let status = match &p.phase {
            Some(v) => v.clone(),
            None => String::from_str("Unknown"),
        };
        let capacity = match &p.capacity {
            Some(v) => v.clone(),
            None => String::from_str("0"),
        };
        let capacity_bytes = parse_capacity_u64(capacity.as_str());
        let used_bytes = usage_lookup(usage, namespace.as_str(), name.as_str());
        total_cap = add_sat_u64(total_cap, capacity_bytes);
        if let Some(u) = used_bytes {
            total_use = add_sat_u64(total_use, u);
        }
        let info = PvcInfo {
            name,
            namespace,
            status,
            capacity,
            capacity_bytes,
            used_bytes,
            storage_class: match &p.storage_class {
                Some(v) => v.clone(),
                None => String::new(),
            },
            access_modes: clone_strings(&p.access_modes),
            volume_name: match &p.volume_name {
                Some(v) => v.clone(),
                None => String::new(),
            },
            pods_using: Vec::new(),
        };
        proof {
            assert(pvc_row_of(info) == spec_pvc_row(all[i as int], usage@));
        }
        out.push(info);
        proof {
            assert(out@.map_values(|x: PvcInfo| pvc_row_of(x)) =~= spec_pvc_rows(
                all.take(i + 1),
                usage@,
            ));
        }
        i += 1;
    }
    proof {
        assert(all.take(n as int) =~= all);
    }
    StorageStatusResponse {
        pvc_count: n,
        pvc_total_capacity_bytes: total_cap,
        pvc_total_usage_bytes: total_use,
        pvcs: out,
    }
}


// ---------------------------------------------------------------------------
// Kubelet metrics lines
// ---------------------------------------------------------------------------

/// The key and value of one `key="value"` label, when the piece splits at
/// `=` into exactly two parts.
pub open spec fn spec_kv_of(part: Seq<char>) -> Option<(Seq<char>, Seq<char>)> {
    let parts = spec_split(part, '=');
    if parts.len() == 2 {
        Some((spec_trim(parts[0]), spec_trim_quotes(spec_trim(parts[1]))))
    } else {
        None
    }
}

/// The value under `key` among the label pieces; a later piece overrides
/// an earlier one.
pub open spec fn spec_label_value(parts: Seq<Seq<char>>, key: Seq<char>) -> Option<Seq<char>>
    decreases parts.len(),
{
    if parts.len() == 0 {
        None
    } else {
        let prev = spec_label_value(parts.drop_last(), key);
        match spec_kv_of(parts.last()) {
            Some(kv) => if kv.0 == key {
                Some(kv.1)
            } else {
                prev
            },
            None => prev,
        }
    }
}

pub open spec fn or_empty_seq(s: Option<Seq<char>>) -> Seq<char> {
    match s {
        Some(v) => v,
        None => Seq::<char>::empty(),
    }
}

/// What a used-bytes metrics line denotes: for a line bearing the
/// `kubelet_volume_stats_used_bytes{` prefix, the namespace and claim
/// labels between the first braces and the whole-number sample after
/// them; nothing when any of those is missing or empty.
pub open spec fn spec_parse_usage_line(line: Seq<char>) -> Option<(Seq<char>, Seq<char>, int)> {
    if !starts_with(line, "kubelet_volume_stats_used_bytes{"@) {
        None
    } else {
        match (spec_find_char(line, '{'), spec_find_char(line, '}')) {
            (Option::Some(b1), Option::Some(b2)) => if b1 + 1 <= b2 {
                let labels = line.subrange(b1 + 1, b2);
                let value_part = spec_trim(line.skip(b2 + 1));
                let ns = or_empty_seq(spec_label_value(spec_split(labels, ','), "namespace"@));
                let pvc = or_empty_seq(
                    spec_label_value(spec_split(labels, ','), "persistentvolumeclaim"@),
                );
                match spec_parse_u64(value_part) {
                    Some(v) => if ns.len() > 0 && pvc.len() > 0 {
                        Some((ns, pvc, v))
                    } else {
                        None
                    },
                    None => None,
                }
            } else {
                None
            },
            _ => None,
        }
    }
}

/// Parses one kubelet metrics line into a used-bytes sample.
pub fn parse_usage_line(line: &str) -> (r: Option<UsageEntry>)
    ensures
        r is Some <==> spec_parse_usage_line(line@) is Some,
        r is Some ==> {
            let t = spec_parse_usage_line(line@)->0;
            &&& r->0.namespace@ == t.0
            &&& r->0.claim@ == t.1
            &&& r->0.used_bytes as int == t.2
        },
{
    if !str_starts_with(line, "kubelet_volume_stats_used_bytes{") {
        return None;
    }
    let n = line.unicode_len();
    let b1 = match str_find_char(line, '{') {
        Some(i) => i,
        None => {
            return None;
        },
    };
    let b2 = match str_find_char(line, '}') {
        Some(i) => i,
        None => {
            return None;
        },
    };
    if b1 + 1 > b2 {
        return None;
    }
    let labels_part = line.substring_char(b1 + 1, b2);
    let value_raw = line.substring_char(b2 + 1, n);
    let value_part = str_trim(value_raw);
    proof {
        assert(labels_part@ =~= line@.subrange(b1 + 1, b2 as int));
        assert(value_raw@ =~= line@.skip(b2 + 1));
    }
    let parts = str_split_char(labels_part, ',');
    let ghost parts_v = parts@.map_values(|x: String| x@);
    let mut ns = String::new();
    let mut pvc = String::new();
    let np = parts.len();
    let mut i: usize = 0;
    proof {
        assert(parts_v.take(0) =~= Seq::<Seq<char>>::empty());
    }
    while i < np
        invariant
            i <= np,
            np == parts@.len(),
            parts_v == parts@.map_values(|x: String| x@),
            ns@ == or_empty_seq(spec_label_value(parts_v.take(i as int), "namespace"@)),
            pvc@ == or_empty_seq(
                spec_label_value(parts_v.take(i as int), "persistentvolumeclaim"@),
            ),
        decreases np - i,
    {
        proof {
            assert(parts_v.take(i + 1).drop_last() =~= parts_v.take(i as int));
            assert(parts_v.take(i + 1).last() == parts_v[i as int]);
            reveal_strlit("namespace");
            reveal_strlit("persistentvolumeclaim");
            assert("namespace"@.len() == 9);
            assert("persistentvolumeclaim"@.len() == 21);
        }
        let kv = str_split_char(parts[i].as_str(), '=');
        if kv.len() == 2 {
            let key = str_trim(kv[0].as_str());
            let trimmed = str_trim(kv[1].as_str());
            let val = str_trim_quotes(trimmed.as_str());
            proof {
                let ghost kvv = kv@.map_values(|x: String| x@);
                assert(kvv[0] == kv@[0]@);
                assert(kvv[1] == kv@[1]@);
                assert(spec_kv_of(parts_v[i as int]) == Some(
                    (spec_trim(kvv[0]), spec_trim_quotes(spec_trim(kvv[1]))),
                ));
            }
            if str_eq(key.as_str(), "namespace") {
                ns = val;
            } else if str_eq(key.as_str(), "persistentvolumeclaim") {
                pvc = val;
            }
        }
        i += 1;
    }
    proof {
        assert(parts_v.take(np as int) =~= parts_v);
    }
    match parse_u64_str(value_part.as_str()) {
        Some(v) => {
            if ns.as_str().unicode_len() > 0 && pvc.as_str().unicode_len() > 0 {
                Some(UsageEntry { namespace: ns, claim: pvc, used_bytes: v })
            } else {
                None
            }
        },
        None => None,
    }
}

/// The samples a whole metrics payload denotes, in line order.
pub open spec fn spec_usage_samples(lines: Seq<String>) -> Seq<(Seq<char>, Seq<char>, int)>
    decreases lines.len(),
{
    if lines.len() == 0 {
        Seq::<(Seq<char>, Seq<char>, int)>::empty()
    } else {
        let prev = spec_usage_samples(lines.drop_last());
        match spec_parse_usage_line(lines.last()@) {
            Some(t) => prev.push(t),
            None => prev,
        }
    }
}

/// Parses every metrics line, keeping the used-bytes samples in order.
pub fn parse_usage_lines(lines: &Vec<String>) -> (r: Vec<UsageEntry>)
    ensures
        r@.map_values(|e: UsageEntry| (e.namespace@, e.claim@, e.used_bytes as int))
            == spec_usage_samples(lines@),
{
    let n = lines.len();
    let mut r: Vec<UsageEntry> = Vec::new();
    let mut i: usize = 0;
    proof {
        assert(r@.map_values(|e: UsageEntry| (e.namespace@, e.claim@, e.used_bytes as int))
            =~= spec_usage_samples(lines@.take(0)));
    }
    while i < n
        invariant
            i <= n,
            n == lines@.len(),
            r@.map_values(|e: UsageEntry| (e.namespace@, e.claim@, e.used_bytes as int))
                == spec_usage_samples(lines@.take(i as int)),
        decreases n - i,
    {
        proof {
            assert(lines@.take(i + 1).drop_last() =~= lines@.take(i as int));
            assert(lines@.take(i + 1).last() == lines@[i as int]);
        }
        match parse_usage_line(lines[i].as_str()) {
            Some(e) => {
                r.push(e);
                proof {
                    assert(r@.map_values(
                        |e: UsageEntry| (e.namespace@, e.claim@, e.used_bytes as int),
                    ) =~= spec_usage_samples(lines@.take(i + 1)));
                }
            },
            None => {},
        }
        i += 1;
    }
    proof {
        assert(lines@.take(n as int) =~= lines@);
    }
    r
}

} // verus!

