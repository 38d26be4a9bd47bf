//! Per-application resource usage: pod memory and claimed storage summed
//! by destination namespace.

use vstd::prelude::*;
use crate::strfmt::str_eq;
use crate::units::{
    format_bytes, parse_capacity, parse_memory, spec_format_bytes, spec_parse_memory,
};

verus! {

/// One application record, reduced to what the usage view reads.
#[derive(Clone, Debug)]
pub struct AppResourceRecord {
    pub name: Option<String>,
    pub dest_namespace: Option<String>,
    pub health_status: Option<String>,
    pub sync_status: Option<String>,
}

/// One pod's memory quantities, by namespace: the `memory` requests and
/// limits of its containers, where set.
#[derive(Clone, Debug)]
pub struct PodResources {
    pub namespace: String,
    pub memory_requests: Vec<String>,
    pub memory_limits: Vec<String>,
}

/// One claim's storage request, by namespace.
#[derive(Clone, Debug)]
pub struct PvcResources {
    pub namespace: String,
    pub storage_request: Option<String>,
}

/// One application with its resource usage, ready for display.
#[derive(Clone, Debug)]
pub struct AppInfo {
    pub name: String,
    pub namespace: String,
    pub health_status: String,
    pub sync_status: String,
    pub argocd_url: String,
    pub pod_count: usize,
    pub ram_request: String,
    pub ram_limit: String,
    pub pvc_count: usize,
    pub pvc_size: String,
}

/// The applications-with-resources summary.
#[derive(Clone, Debug)]
pub struct AppsResponse {
    pub total_apps: usize,
    pub apps: Vec<AppInfo>,
}

// ---------------------------------------------------------------------------
// Sums
// ---------------------------------------------------------------------------

/// Addition on `i64` saturating at the type bounds.
pub open spec fn sat_add_i64(a: int, b: int) -> int {
    if a + b > i64::MAX as int {
        i64::MAX as int
    } else if a + b < i64::MIN as int {
        i64::MIN as int
    } else {
        a + b
    }
}

/// Folds the parsed quantities of `items` into `acc`, saturating, in
/// order.
pub open spec fn fold_mem(acc: int, items: Seq<String>) -> int
    decreases items.len(),
{
    if items.len() == 0 {
        acc
    } else {
        fold_mem(sat_add_i64(acc, spec_parse_memory(items.first()@)), items.drop_first())
    }
}

/// Total memory requests of the pods in `ns`, folded in input order.
pub open spec fn fold_requests(acc: int, pods: Seq<PodResources>, ns: Seq<char>) -> int
    decreases pods.len(),
{
    if pods.len() == 0 {
        acc
    } else if pods.first().namespace@ == ns {
        fold_requests(fold_mem(acc, pods.first().memory_requests@), pods.drop_first(), ns)
    } else {
        fold_requests(acc, pods.drop_first(), ns)
    }
}

/// Total memory limits of the pods in `ns`, folded in input order.
pub open spec fn fold_limits(acc: int, pods: Seq<PodResources>, ns: Seq<char>) -> int
    decreases pods.len(),
{
    if pods.len() == 0 {
        acc
    } else if pods.first().namespace@ == ns {
        fold_limits(fold_mem(acc, pods.first().memory_limits@), pods.drop_first(), ns)
    } else {
        fold_limits(acc, pods.drop_first(), ns)
    }
}

/// Total storage requests of the claims in `ns`, folded in input order.
pub open spec fn fold_storage(acc: int, pvcs: Seq<PvcResources>, ns: Seq<char>) -> int
    decreases pvcs.len(),
{
    if pvcs.len() == 0 {
        acc
    } else {
        let step = if pvcs.first().namespace@ == ns {
            match pvcs.first().storage_request {
                Some(s) => sat_add_i64(acc, spec_parse_memory(s@)),
                None => acc,
            }
        } else {
            acc
        };
        fold_storage(step, pvcs.drop_first(), ns)
    }
}

/// Number of pods in `ns`.
pub open spec fn spec_pod_count(pods: Seq<PodResources>, ns: Seq<char>) -> nat
    decreases pods.len(),
{
    if pods.len() == 0 {
        0
    } else {
        spec_pod_count(pods.drop_last(), ns) + (if pods.last().namespace@ == ns {
            1nat
        } else {
            0nat
        })
    }
}

/// Number of claims in `ns`.
pub open spec fn spec_pvc_count(pvcs: Seq<PvcResources>, ns: Seq<char>) -> nat
    decreases pvcs.len(),
{
    if pvcs.len() == 0 {
        0
    } else {
        spec_pvc_count(pvcs.drop_last(), ns) + (if pvcs.last().namespace@ == ns {
            1nat
        } else {
            0nat
        })
    }
}

proof fn lemma_counts_le(pods: Seq<PodResources>, pvcs: Seq<PvcResources>, ns: Seq<char>)
    ensures
        spec_pod_count(pods, ns) <= pods.len(),
        spec_pvc_count(pvcs, ns) <= pvcs.len(),
    decreases pods.len() + pvcs.len(),
{
    if pods.len() > 0 {
        lemma_counts_le(pods.drop_last(), pvcs, ns);
    } else if pvcs.len() > 0 {
        lemma_counts_le(pods, pvcs.drop_last(), ns);
    }
}

fn add_sat(a: i64, b: i64) -> (r: i64)
    ensures
        r as int == sat_add_i64(a as int, b as int),
{
    match a.checked_add(b) {
        Some(v) => v,
        None => if b >= 0 {
            i64::MAX
        } else {
            i64::MIN
        },
    }
}

fn sum_mem(start: i64, items: &Vec<String>) -> (r: i64)
    ensures
        r as int == fold_mem(start as int, items@),
{
    let mut acc = start;
    let n = items.len();
    let mut i: usize = 0;
    proof {
        assert(items@.skip(0) =~= items@);
    }
    while i < n
        invariant
            i <= n,
            n == items@.len(),
            fold_mem(start as int, items@) == fold_mem(acc as int, items@.skip(i as int)),
        decreases n - i,
    {
        proof {
            assert(items@.skip(i as int).first() == items@[i as int]);
            assert(items@.skip(i as int).drop_first() =~= items@.skip(i + 1));
        }
        let v = parse_memory(items[i].as_str());
        acc = add_sat(acc, v);
        i += 1;
    }
    proof {
        assert(items@.skip(n as int).len() == 0);
    }
    acc
}

// ---------------------------------------------------------------------------
// Rows
// ---------------------------------------------------------------------------

#[verifier::ext_equal]
pub struct AppResRow {
    pub name: Seq<char>,
    pub namespace: Seq<char>,
    pub health_status: Seq<char>,
    pub sync_status: Seq<char>,
    pub argocd_url: Seq<char>,
    pub pod_count: int,
    pub ram_request: Seq<char>,
    pub ram_limit: Seq<char>,
    pub pvc_count: int,
    pub pvc_size: Seq<char>,
}

pub open spec fn app_res_row_of(x: AppInfo) -> AppResRow {
    AppResRow {
        name: x.name@,
        namespace: x.namespace@,
        health_status: x.health_status@,
        sync_status: x.sync_status@,
        argocd_url: x.argocd_url@,
        pod_count: x.pod_count as int,
        ram_request: x.ram_request@,
        ram_limit: x.ram_limit@,
        pvc_count: x.pvc_count as int,
        pvc_size: x.pvc_size@,
    }
}

/// The name an application displays; missing reads `"unknown"`.
pub open spec fn spec_app_name(a: AppResourceRecord) -> Seq<char> {
    match a.name {
        Some(n) => n@,
        None => "unknown"@,
    }
}

/// The namespace usage is summed over: the destination namespace, falling
/// back to the application's name.
pub open spec fn spec_app_ns(a: AppResourceRecord) -> Seq<char> {
    match a.dest_namespace {
        Some(n) => n@,
        None => spec_app_name(a),
    }
}

/// The display row of one application, against the pod and claim usage.
pub open spec fn spec_app_res_row(
    a: AppResourceRecord,
    pods: Seq<PodResources>,
    pvcs: Seq<PvcResources>,
    base_url: Seq<char>,
) -> AppResRow {
    let ns = spec_app_ns(a);
    AppResRow {
        name: spec_app_name(a),
        namespace: ns,
        health_status: match a.health_status {
            Some(h) => h@,
            None => "Unknown"@,
        },
        sync_status: match a.sync_status {
            Some(s) => s@,
            None => "Unknown"@,
        },
        argocd_url: base_url + "/applications/"@ + spec_app_name(a),
        pod_count: spec_pod_count(pods, ns) as int,
        ram_request: spec_format_bytes(fold_requests(0, pods, ns)),
        ram_limit: spec_format_bytes(fold_limits(0, pods, ns)),
        pvc_count: spec_pvc_count(pvcs, ns) as int,
        pvc_size: spec_format_bytes(fold_storage(0, pvcs, ns)),
    }
}

pub open spec fn spec_app_res_rows(
    apps: Seq<AppResourceRecord>,
    pods: Seq<PodResources>,
    pvcs: Seq<PvcResources>,
    base_url: Seq<char>,
) -> Seq<AppResRow>
    decreases apps.len(),
{
    if apps.len() == 0 {
        Seq::<AppResRow>::empty()
    } else {
        spec_app_res_rows(apps.drop_last(), pods, pvcs, base_url).push(
            spec_app_res_row(apps.last(), pods, pvcs, base_url),
        )
    }
}

// ---------------------------------------------------------------------------
// Building and ordering
// ---------------------------------------------------------------------------

fn build_app_info(
    a: &AppResourceRecord,
    pods: &Vec<PodResources>,
    pvcs: &Vec<PvcResources>,
    base_url: &str,
) -> (x: AppInfo)
    ensures
        app_res_row_of(x) == spec_app_res_row(*a, pods@, pvcs@, base_url@),
{
    let name = match &a.name {
        Some(n) => n.clone(),
        None => String::from_str("unknown"),
    };
    let namespace = match &a.dest_namespace {
        Some(n) => n.clone(),
        None => name.clone(),
    };
    let ghost ns = namespace@;

    // Pods in the namespace: count and memory sums.
    let np = pods.len();
    let mut pod_count: usize = 0;
    let mut ram_request: i64 = 0;
    let mut ram_limit: i64 = 0;
    let mut i: usize = 0;
    proof {
        assert(pods@.take(0) =~= Seq::<PodResources>::empty());
        assert(pods@.skip(0) =~= pods@);
    }
    while i < np
        invariant
            i <= np,
            np == pods@.len(),
            ns == namespace@,
            pod_count == spec_pod_count(pods@.take(i as int), ns),
            fold_requests(0, pods@, ns) == fold_requests(
                ram_request as int,
                pods@.skip(i as int),
                ns,
            ),
            fold_limits(0, pods@, ns) == fold_limits(ram_limit as int, pods@.skip(i as int), ns),
        decreases np - i,
    {
        let p = &pods[i];
        proof {
            assert(pods@.take(i + 1).drop_last() =~= pods@.take(i as int));
            assert(pods@.take(i + 1).last() == pods@[i as int]);
            assert(pods@.skip(i as int).first() == pods@[i as int]);
            assert(pods@.skip(i as int).drop_first() =~= pods@.skip(i + 1));
            lemma_counts_le(pods@.take(i as int), Seq::<PvcResources>::empty(), ns);
        }
        if str_eq(p.namespace.as_str(), namespace.as_str()) {
            pod_count += 1;
            ram_request = sum_mem(ram_request, &p.memory_requests);
            ram_limit = sum_mem(ram_limit, &p.memory_limits);
        }
        i += 1;
    }
    proof {
        assert(pods@.take(np as int) =~= pods@);
        assert(pods@.skip(np as int).len() == 0);
    }

    // Claims in the namespace: count and storage sum.
    let nv = pvcs.len();
    let mut pvc_count: usize = 0;
    let mut pvc_size: i64 = 0;
    let mut j: usize = 0;
    proof {
        assert(pvcs@.take(0) =~= Seq::<PvcResources>::empty());
        assert(pvcs@.skip(0) =~= pvcs@);
    }
    while j < nv
        invariant
            j <= nv,
            nv == pvcs@.len(),
            ns == namespace@,
            pvc_count == spec_pvc_count(pvcs@.take(j as int), ns),
            fold_storage(0, pvcs@, ns) == fold_storage(pvc_size as int, pvcs@.skip(j as int), ns),
        decreases nv - j,
    {
        let p = &pvcs[j];
        proof {
            assert(pvcs@.take(j + 1).drop_last() =~= pvcs@.take(j as int));
            assert(pvcs@.take(j + 1).last() == pvcs@[j as int]);
            assert(pvcs@.skip(j as int).first() == pvcs@[j as int]);
            assert(pvcs@.skip(j as int).drop_first() =~= pvcs@.skip(j + 1));
            lemma_counts_le(Seq::<PodResources>::empty(), pvcs@.take(j as int), ns);
        }
        if str_eq(p.namespace.as_str(), namespace.as_str()) {
            pvc_count += 1;
            if let Some(req) = &p.storage_request {
                let v = parse_capacity(req.as_str());
                pvc_size = add_sat(pvc_size, v);
            }
        }
        j += 1;
    }
    proof {
        assert(pvcs@.take(nv as int) =~= pvcs@);
        assert(pvcs@.skip(nv as int).len() == 0);
    }

    let mut argocd_url = String::from_str(base_url);
    argocd_url.append("/applications/");
    argocd_url.append(name.as_str());

    AppInfo {
        name,
        namespace,
        health_status: match &a.health_status {
            Some(h) => h.clone(),
            None => String::from_str("Unknown"),
        },
        sync_status: match &a.sync_status {
            Some(s) => s.clone(),
            None => String::from_str("Unknown"),
        },
        argocd_url,
        pod_count,
        ram_request: format_bytes(ram_request),
        ram_limit: format_bytes(ram_limit),
        pvc_count,
        pvc_size: format_bytes(pvc_size),
    }
}

/// Display order of applications: largest reparsed memory limit first.
pub open spec fn app_res_le(a: AppInfo, b: AppInfo) -> bool {
    spec_parse_memory(a.ram_limit@) >= spec_parse_memory(b.ram_limit@)
}

pub open spec fn apps_sorted(s: Seq<AppInfo>) -> bool {
    forall|i: int, j: int| 0 <= i < j < s.len() ==> app_res_le(#[trigger] s[i], #[trigger] s[j])
}

/// Sorts applications by descending memory limit, keeping the same rows.
fn sort_apps(v: Vec<AppInfo>) -> (r: Vec<AppInfo>)
    ensures
        r@.map_values(|x: AppInfo| app_res_row_of(x)).to_multiset() == v@.map_values(
            |x: AppInfo| app_res_row_of(x),
        ).to_multiset(),
        apps_sorted(r@),
        r@.len() == v@.len(),
{
    broadcast use vstd::seq_lib::group_to_multiset_ensures;

    let ghost orig = v@.map_values(|x: AppInfo| app_res_row_of(x)).to_multiset();
    let mut input = v;
    let mut out: Vec<AppInfo> = Vec::new();
    while input.len() > 0
        invariant
            out@.map_values(|x: AppInfo| app_res_row_of(x)).to_multiset().add(
                input@.map_values(|x: AppInfo| app_res_row_of(x)).to_multiset(),
            ) =~= orig,
            out@.len() + input@.len() == orig.len(),
            apps_sorted(out@),
            forall|i: int, j: int|
                0 <= i < out@.len() && 0 <= j < input@.len() ==> app_res_le(
                    #[trigger] out@[i],
                    #[trigger] input@[j],
                ),
        decreases input@.len(),
    {
        let mut mi: usize = 0;
        let mut k: usize = 1;
        while k < input.len()
            invariant
                mi < input@.len(),
                k <= input@.len(),
                forall|t: int| 0 <= t < k ==> app_res_le(input@[mi as int], #[trigger] input@[t]),
            decreases input@.len() - k,
        {
            let km = parse_memory(input[mi].ram_limit.as_str());
            let kk = parse_memory(input[k].ram_limit.as_str());
            if kk > km {
                mi = k;
            }
            k += 1;
        }
        let ghost pre = input@;
        let ghost out_pre = out@;
        let x = input.remove(mi);
        out.push(x);
        proof {
            let ghost row = app_res_row_of(x);
            let ghost m_pre = pre.map_values(|y: AppInfo| app_res_row_of(y));
            let ghost m_in = input@.map_values(|y: AppInfo| app_res_row_of(y));
            let ghost m_out_pre = out_pre.map_values(|y: AppInfo| app_res_row_of(y));
            let ghost m_out = out@.map_values(|y: AppInfo| app_res_row_of(y));
            assert(input@ == pre.remove(mi as int));
            assert(m_pre[mi as int] == row);
            assert forall|t: int| 0 <= t < m_in.len() implies m_in[t] == #[trigger] m_pre.remove(
                mi as int,
            )[t] by {
                if t < mi {
                    assert(input@[t] == pre[t]);
                    assert(m_in[t] == app_res_row_of(input@[t]));
                    assert(m_pre[t] == app_res_row_of(pre[t]));
                } else {
                    assert(input@[t] == pre[t + 1]);
                    assert(m_in[t] == app_res_row_of(input@[t]));
                    assert(m_pre[t + 1] == app_res_row_of(pre[t + 1]));
                }
            }
            assert(m_in =~= m_pre.remove(mi as int));
            vstd::seq_lib::to_multiset_remove(m_pre, mi as int);
            assert(out@ == out_pre.push(x));
            assert forall|t: int| 0 <= t < m_out.len() implies m_out[t]
                == #[trigger] m_out_pre.push(row)[t] by {
                if t < m_out_pre.len() {
                    assert(out@[t] == out_pre[t]);
                    assert(m_out[t] == app_res_row_of(out@[t]));
                    assert(m_out_pre[t] == app_res_row_of(out_pre[t]));
                } else {
                    assert(out@[t] == x);
                    assert(m_out[t] == app_res_row_of(out@[t]));
                }
            }
            assert(m_out =~= m_out_pre.push(row));
            vstd::seq_lib::to_multiset_build(m_out_pre, row);
            vstd::seq_lib::to_multiset_contains(m_pre, row);
            assert(m_pre.to_multiset().count(row) > 0) by {
                assert(m_pre[mi as int] == row);
                assert(m_pre.contains(row));
            }
            assert(m_out.to_multiset().add(m_in.to_multiset()) =~= m_out_pre.to_multiset().add(
                m_pre.to_multiset(),
            ));
            assert forall|i: int, j: int|
                0 <= i < out@.len() && 0 <= j < input@.len() implies app_res_le(
                #[trigger] out@[i],
                #[trigger] input@[j],
            ) by {
                let jj = if j < mi {
                    j
                } else {
                    j + 1
                };
                assert(input@[j] == pre[jj]);
                if i == out@.len() - 1 {
                    assert(app_res_le(pre[mi as int], pre[jj]));
                }
            }
        }
    }
    out
}

/// Assembles the per-application resource summary: one row per
/// application, usage summed over its destination namespace, ordered by
/// descending memory limit.
pub fn get_apps_with_resources(
    apps: &Vec<AppResourceRecord>,
    pods: &Vec<PodResources>,
    pvcs: &Vec<PvcResources>,
    base_url: &str,
) -> (r: AppsResponse)
    ensures
        r.total_apps == apps@.len(),
        r.apps@.len() == apps@.len(),
        r.apps@.map_values(|x: AppInfo| app_res_row_of(x)).to_multiset() == spec_app_res_rows(
            apps@,
            pods@,
            pvcs@,
            base_url@,
        ).to_multiset(),
        apps_sorted(r.apps@),
{
    broadcast use vstd::seq_lib::group_to_multiset_ensures;

    let n = apps.len();
    let mut infos: Vec<AppInfo> = Vec::new();
    let mut i: usize = 0;
    proof {
        assert(infos@.map_values(|x: AppInfo| app_res_row_of(x)) =~= spec_app_res_rows(
            apps@.take(0),
            pods@,
            pvcs@,
            base_url@,
        ));
    }
    while i < n
        invariant
            i <= n,
            n == apps@.len(),
            infos@.len() == i,
            infos@.map_values(|x: AppInfo| app_res_row_of(x)) == spec_app_res_rows(
                apps@.take(i as int),
                pods@,
                pvcs@,
                base_url@,
            ),
        decreases n - i,
    {
        let a = &apps[i];
        proof {
            assert(apps@.take(i + 1).drop_last() =~= apps@.take(i as int));
            assert(apps@.take(i + 1).last() == apps@[i as int]);
        }
        let info = build_app_info(a, pods, pvcs, base_url);
        infos.push(info);
        proof {
            assert(infos@.map_values(|x: AppInfo| app_res_row_of(x)) =~= spec_app_res_rows(
                apps@.take(i + 1),
                pods@,
                pvcs@,
                base_url@,
            ));
        }
        i += 1;
    }
    proof {
        assert(apps@.take(n as int) =~= apps@);
    }
    let sorted = sort_apps(infos);
    AppsResponse { total_apps: n, apps: sorted }
}

} // verus!
