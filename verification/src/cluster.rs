//! Namespace and volume-claim records, and the cluster overview builder.

use vstd::prelude::*;
use crate::classify::opt_view;
use crate::storage::{or_empty, PvcRecord};
use crate::strfmt::{dec_str, dec_str_i, i64_to_string};
use crate::units::{
    fmt_tenths, fmt_whole, parse_capacity_to_bytes, spec_fmt_tenths, spec_fmt_whole,
    spec_parse_capacity_to_bytes,
};

verus! {

/// One namespace, as read from the control plane.
#[derive(Clone, Debug)]
pub struct NamespaceRecord {
    pub name: Option<String>,
    pub phase: Option<String>,
    pub labels: Vec<(String, String)>,
}

/// One namespace, ready for display.
#[derive(Clone, Debug)]
pub struct NamespaceInfo {
    pub name: String,
    pub status: String,
    pub labels: Vec<(String, String)>,
}

/// One volume claim in the overview.
#[derive(Clone, Debug)]
pub struct PvcInfo {
    pub name: String,
    pub namespace: String,
    pub storage_class: Option<String>,
    pub capacity: String,
    pub capacity_bytes: i64,
    pub status: String,
    pub access_modes: Vec<String>,
    pub bound_to: Option<String>,
}

/// The cluster overview.
#[derive(Clone, Debug)]
pub struct ClusterOverview {
    pub namespace_count: usize,
    pub namespaces: Vec<NamespaceInfo>,
    pub pvc_count: usize,
    pub pvc_total_capacity: String,
    pub pvcs: Vec<PvcInfo>,
}

// ---------------------------------------------------------------------------
// Rows
// ---------------------------------------------------------------------------

#[verifier::ext_equal]
pub struct NamespaceRow {
    pub name: Seq<char>,
    pub status: Seq<char>,
    pub labels: Seq<(Seq<char>, Seq<char>)>,
}

pub open spec fn namespace_row_of(x: NamespaceInfo) -> NamespaceRow {
    NamespaceRow {
        name: x.name@,
        status: x.status@,
        labels: x.labels@.map_values(|l: (String, String)| (l.0@, l.1@)),
    }
}

pub open spec fn spec_namespace_row(n: NamespaceRecord) -> NamespaceRow {
    NamespaceRow {
        name: or_empty(n.name),
        status: match n.phase {
            Some(p) => p@,
            None => "Unknown"@,
        },
        labels: n.labels@.map_values(|l: (String, String)| (l.0@, l.1@)),
    }
}

pub open spec fn spec_namespace_rows(s: Seq<NamespaceRecord>) -> Seq<NamespaceRow>
    decreases s.len(),
{
    if s.len() == 0 {
        Seq::<NamespaceRow>::empty()
    } else {
        spec_namespace_rows(s.drop_last()).push(spec_namespace_row(s.last()))
    }
}

#[verifier::ext_equal]
pub struct OverviewPvcRow {
    pub name: Seq<char>,
    pub namespace: Seq<char>,
    pub storage_class: Option<Seq<char>>,
    pub capacity: Seq<char>,
    pub capacity_bytes: int,
    pub status: Seq<char>,
    pub access_modes: Seq<Seq<char>>,
    pub bound_to: Option<Seq<char>>,
}

pub open spec fn overview_pvc_row_of(x: PvcInfo) -> OverviewPvcRow {
    OverviewPvcRow {
        name: x.name@,
        namespace: x.namespace@,
        storage_class: opt_view(x.storage_class),
        capacity: x.capacity@,
        capacity_bytes: x.capacity_bytes as int,
        status: x.status@,
        access_modes: x.access_modes@.map_values(|s: String| s@),
        bound_to: opt_view(x.bound_to),
    }
}

pub open spec fn spec_overview_pvc_row(p: PvcRecord) -> OverviewPvcRow {
    let cap = match p.capacity {
        Some(c) => c@,
        None => "0"@,
    };
    OverviewPvcRow {
        name: or_empty(p.name),
        namespace: or_empty(p.namespace),
        storage_class: opt_view(p.storage_class),
        capacity: cap,
        capacity_bytes: spec_parse_capacity_to_bytes(cap),
        status: match p.phase {
            Some(s) => s@,
            None => "Unknown"@,
        },
        access_modes: p.access_modes@.map_values(|s: String| s@),
        bound_to: opt_view(p.volume_name),
    }
}

pub open spec fn spec_overview_pvc_rows(s: Seq<PvcRecord>) -> Seq<OverviewPvcRow>
    decreases s.len(),
{
    if s.len() == 0 {
        Seq::<OverviewPvcRow>::empty()
    } else {
        spec_overview_pvc_rows(s.drop_last()).push(spec_overview_pvc_row(s.last()))
    }
}

/// Addition on `i64` saturating at the type bounds.
pub open spec fn sat_add_i64(a: int, b: int) -> int {
    if a + b > i64::MAX as int {
        i64::MAX as int
    } else if a + b < i64::MIN as int {
        i64::MIN as int
    } else {
        a + b
    }
}

/// Total capacity of the claims, saturating.
pub open spec fn spec_overview_total(s: Seq<PvcRecord>) -> int
    decreases s.len(),
{
    if s.len() == 0 {
        0
    } else {
        sat_add_i64(
            spec_overview_total(s.drop_last()),
            spec_parse_capacity_to_bytes(
                match s.last().capacity {
                    Some(c) => c@,
                    None => "0"@,
                },
            ),
        )
    }
}

/// Overview byte rendering: `"{:.1}Ti"`, `"{:.1}Gi"`, `"{:.0}Mi"` by
/// magnitude, else `"{} bytes"`; rounding is half-up.
pub open spec fn spec_overview_bytes(b: int) -> Seq<char> {
    if b >= 0x100_0000_0000 {
        spec_fmt_tenths(b, 0x100_0000_0000) + "Ti"@
    } else if b >= 0x4000_0000 {
        spec_fmt_tenths(b, 0x4000_0000) + "Gi"@
    } else if b >= 0x10_0000 {
        spec_fmt_whole(b, 0x10_0000) + "Mi"@
    } else {
        dec_str_i(b) + " bytes"@
    }
}

fn format_bytes(bytes: i64) -> (s: String)
    ensures
        s@ == spec_overview_bytes(bytes as int),
{
    if bytes >= 0x100_0000_0000 {
        let mut s = fmt_tenths(bytes, 0x100_0000_0000);
        s.append("Ti");
        s
    } else if bytes >= 0x4000_0000 {
        let mut s = fmt_tenths(bytes, 0x4000_0000);
        s.append("Gi");
        s
    } else if bytes >= 0x10_0000 {
        let mut s = fmt_whole(bytes, 0x10_0000);
        s.append("Mi");
        s
    } else {
        let mut s = i64_to_string(bytes);
        s.append(" bytes");
        s
    }
}

fn clone_labels(src: &Vec<(String, String)>) -> (out: Vec<(String, String)>)
    ensures
        out@ == src@,
{
    let mut out: Vec<(String, String)> = Vec::new();
    let n = src.len();
    let mut i: usize = 0;
    proof {
        assert(out@ =~= src@.take(0));
    }
    while i < n
        invariant
            i <= n,
            n == src@.len(),
            out@ == src@.take(i as int),
        decreases n - i,
    {
        let l = &src[i];
        let copy = (l.0.clone(), l.1.clone());
        proof {
            assert(copy == src@[i as int]);
        }
        out.push(copy);
        proof {
            assert(out@ =~= src@.take(i + 1));
        }
        i += 1;
    }
    proof {
        assert(src@.take(n as int) =~= src@);
    }
    out
}

fn clone_strings(src: &Vec<String>) -> (out: Vec<String>)
    ensures
        out@ == src@,
{
    let mut out: Vec<String> = Vec::new();
    let n = src.len();
    let mut i: usize = 0;
    proof {
        assert(out@ =~= src@.take(0));
    }
    while i < n
        invariant
            i <= n,
            n == src@.len(),
            out@ == src@.take(i as int),
        decreases n - i,
    {
        out.push(src[i].clone());
        proof {
            assert(out@ =~= src@.take(i + 1));
        }
        i += 1;
    }
    proof {
        assert(src@.take(n as int) =~= src@);
    }
    out
}

// ---------------------------------------------------------------------------
// The builder
// ---------------------------------------------------------------------------

/// Assembles the cluster overview from fetched namespaces and claims:
/// one row per record in input order, with the total claimed capacity
/// rendered for display.
pub fn get_cluster_overview(namespaces: &Vec<NamespaceRecord>, pvcs: &Vec<PvcRecord>) -> (r:
    ClusterOverview)
    ensures
        r.namespace_count == namespaces@.len(),
        r.namespaces@.len() == namespaces@.len(),
        r.namespaces@.map_values(|x: NamespaceInfo| namespace_row_of(x)) == spec_namespace_rows(
            namespaces@,
        ),
        r.pvc_count == pvcs@.len(),
        r.pvcs@.len() == pvcs@.len(),
        r.pvcs@.map_values(|x: PvcInfo| overview_pvc_row_of(x)) == spec_overview_pvc_rows(pvcs@),
        r.pvc_total_capacity@ == spec_overview_bytes(spec_overview_total(pvcs@)),
{
    let nn = namespaces.len();
    let mut ns_out: Vec<NamespaceInfo> = Vec::new();
    let mut i: usize = 0;
    proof {
        assert(ns_out@.map_values(|x: NamespaceInfo| namespace_row_of(x))
            =~= spec_namespace_rows(namespaces@.take(0)));
    }
    while i < nn
        invariant
            i <= nn,
            nn == namespaces@.len(),
            ns_out@.len() == i,
            ns_out@.map_values(|x: NamespaceInfo| namespace_row_of(x)) == spec_namespace_rows(
                namespaces@.take(i as int),
            ),
        decreases nn - i,
    {
        let n = &namespaces[i];
        proof {
            assert(namespaces@.take(i + 1).drop_last() =~= namespaces@.take(i as int));
            assert(namespaces@.take(i + 1).last() == namespaces@[i as int]);
        }
        let info = NamespaceInfo {
            name: match &n.name {
                Some(v) => v.clone(),
                None => String::new(),
            },
            status: match &n.phase {
                Some(v) => v.clone(),
                None => String::from_str("Unknown"),
            },
            labels: clone_labels(&n.labels),
        };
        proof {
            assert(namespace_row_of(info) == spec_namespace_row(namespaces@[i as int]));
        }
        ns_out.push(info);
        proof {
            assert(ns_out@.map_values(|x: NamespaceInfo| namespace_row_of(x))
                =~= spec_namespace_rows(namespaces@.take(i + 1)));
        }
        i += 1;
    }
    proof {
        assert(namespaces@.take(nn as int) =~= namespaces@);
    }

    let np = pvcs.len();
    let mut pvc_out: Vec<PvcInfo> = Vec::new();
    let mut total: i64 = 0;
    let mut j: usize = 0;
    proof {
        assert(pvc_out@.map_values(|x: PvcInfo| overview_pvc_row_of(x))
            =~= spec_overview_pvc_rows(pvcs@.take(0)));
    }
    while j < np
        invariant
            j <= np,
            np == pvcs@.len(),
            pvc_out@.len() == j,
            pvc_out@.map_values(|x: PvcInfo| overview_pvc_row_of(x)) == spec_overview_pvc_rows(
                pvcs@.take(j as int),
            ),
            total as int == spec_overview_total(pvcs@.take(j as int)),
        decreases np - j,
    {
        let p = &pvcs[j];
        proof {
            assert(pvcs@.take(j + 1).drop_last() =~= pvcs@.take(j as int));
            assert(pvcs@.take(j + 1).last() == pvcs@[j as int]);
        }
        let capacity = match &p.capacity {
            Some(v) => v.clone(),
            None => String::from_str("0"),
        };
        let capacity_bytes = parse_capacity_to_bytes(capacity.as_str());
        total = match total.checked_add(capacity_bytes) {
            Some(v) => v,
            None => if capacity_bytes >= 0 {
                i64::MAX
            } else {
                i64::MIN
            },
        };
        let info = PvcInfo {
            name: match &p.name {
                Some(v) => v.clone(),
                None => String::new(),
            },
            namespace: match &p.namespace {
                Some(v) => v.clone(),
                None => String::new(),
            },
            storage_class: match &p.storage_class {
                Some(v) => Some(v.clone()),
                None => None,
            },
            capacity,
            capacity_bytes,
            status: match &p.phase {
                Some(v) => v.clone(),
                None => String::from_str("Unknown"),
            },
            access_modes: clone_strings(&p.access_modes),
            bound_to: match &p.volume_name {
                Some(v) => Some(v.clone()),
                None => None,
            },
        };
        proof {
            assert(overview_pvc_row_of(info) == spec_overview_pvc_row(pvcs@[j as int]));
        }
        pvc_out.push(info);
        proof {
            assert(pvc_out@.map_values(|x: PvcInfo| overview_pvc_row_of(x))
                =~= spec_overview_pvc_rows(pvcs@.take(j + 1)));
        }
        j += 1;
    }
    proof {
        assert(pvcs@.take(np as int) =~= pvcs@);
    }
    let pvc_total_capacity = format_bytes(total);
    ClusterOverview {
        namespace_count: nn,
        namespaces: ns_out,
        pvc_count: np,
        pvc_total_capacity,
        pvcs: pvc_out,
    }
}

} // verus!
