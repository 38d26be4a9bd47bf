//! Node records and the nodes status builder.

use vstd::prelude::*;
use crate::classify::opt_view;
use crate::duration::{format_uptime, spec_format_uptime};
use crate::pods::PodRecord;
use crate::strfmt::{lex_le, lemma_lex_le_refl, lemma_lex_le_total, lemma_lex_le_trans, str_eq, str_le};
use crate::time::{parse_rfc3339_seconds, rfc3339_epoch_seconds};
use crate::units::{format_memory, spec_format_memory};

verus! {

/// One reported node condition.
#[derive(Clone, Debug)]
pub struct NodeCondition {
    pub condition_type: String,
    pub status: String,
    pub message: Option<String>,
}

/// One node's reported status, as read from the control plane.
#[derive(Clone, Debug)]
pub struct NodeRecord {
    pub name: String,
    pub labels: Vec<(String, String)>,
    pub architecture: Option<String>,
    pub os: Option<String>,
    pub kernel_version: Option<String>,
    pub kubelet_version: Option<String>,
    pub container_runtime: Option<String>,
    pub cpu_capacity: Option<String>,
    pub cpu_allocatable: Option<String>,
    pub memory_capacity: Option<String>,
    pub memory_allocatable: Option<String>,
    pub pod_capacity: Option<String>,
    pub created_at: Option<String>,
    pub conditions: Vec<NodeCondition>,
}

/// One node, ready for display.
#[derive(Clone, Debug)]
pub struct NodeInfo {
    pub name: String,
    pub status: String,
    pub architecture: String,
    pub os: String,
    pub kernel_version: String,
    pub kubelet_version: String,
    pub container_runtime: String,
    pub cpu_capacity: String,
    pub cpu_allocatable: String,
    pub memory_capacity: String,
    pub memory_allocatable: String,
    pub pod_count: usize,
    pub pod_capacity: String,
    pub pods_in_error: usize,
    pub error_pod_names: Vec<String>,
    pub uptime: Option<String>,
    pub uptime_seconds: Option<i64>,
    pub conditions: Vec<NodeCondition>,
    pub labels: Vec<(String, String)>,
}

/// The nodes status summary.
#[derive(Clone, Debug)]
pub struct NodesStatusResponse {
    pub total_nodes: usize,
    pub ready_nodes: usize,
    pub not_ready_nodes: usize,
    pub nodes: Vec<NodeInfo>,
}

// ---------------------------------------------------------------------------
// Node-level pod error check
// ---------------------------------------------------------------------------

/// Decides whether a pod on the node is in error: the same detector that
/// drives the cluster-wide pods view runs here, unchanged.
pub fn is_pod_in_error(p: &PodRecord) -> (r: bool)
    ensures
        r == crate::pods::spec_pod_is_error(*p),
{
    let (is_error, _, _) = crate::pods::detect_pod_error(p);
    is_error
}

// ---------------------------------------------------------------------------
// Field derivation
// ---------------------------------------------------------------------------

/// A node is ready when some condition of type `Ready` reads `True`.
pub open spec fn spec_node_ready(n: NodeRecord) -> bool {
    exists|i: int|
        0 <= i < n.conditions@.len() && (#[trigger] n.conditions@[i]).condition_type@ == "Ready"@
            && n.conditions@[i].status@ == "True"@
}

/// A pod is scheduled on the node when its node name matches.
pub open spec fn spec_pod_on_node(p: PodRecord, name: Seq<char>) -> bool {
    match p.node_name {
        Some(nn) => nn@ == name,
        None => false,
    }
}

/// Number of pods scheduled on the node.
pub open spec fn spec_node_pod_count(pods: Seq<PodRecord>, name: Seq<char>) -> nat
    decreases pods.len(),
{
    if pods.len() == 0 {
        0
    } else {
        spec_node_pod_count(pods.drop_last(), name) + (if spec_pod_on_node(pods.last(), name) {
            1nat
        } else {
            0nat
        })
    }
}

/// Names of the pods on the node that the error check flags, in input order.
pub open spec fn spec_node_error_pods(pods: Seq<PodRecord>, name: Seq<char>) -> Seq<Seq<char>>
    decreases pods.len(),
{
    if pods.len() == 0 {
        Seq::<Seq<char>>::empty()
    } else {
        let prev = spec_node_error_pods(pods.drop_last(), name);
        if spec_pod_on_node(pods.last(), name) && crate::pods::spec_pod_is_error(pods.last()) {
            prev.push(pods.last().name@)
        } else {
            prev
        }
    }
}

proof fn lemma_node_counts_le(pods: Seq<PodRecord>, name: Seq<char>)
    ensures
        spec_node_pod_count(pods, name) <= pods.len(),
        spec_node_error_pods(pods, name).len() <= pods.len(),
    decreases pods.len(),
{
    if pods.len() > 0 {
        lemma_node_counts_le(pods.drop_last(), name);
    }
}

/// An optional string with a default.
pub open spec fn or_default(s: Option<String>, d: Seq<char>) -> Seq<char> {
    match s {
        Some(v) => v@,
        None => d,
    }
}

fn str_or(s: &Option<String>, d: &str) -> (r: String)
    ensures
        r@ == or_default(*s, d@),
{
    match s {
        Some(v) => v.clone(),
        None => String::from_str(d),
    }
}

/// The node's rendered uptime: present exactly when the creation timestamp
/// parses and the elapsed seconds fit the machine range.
pub open spec fn spec_node_uptime(n: NodeRecord, now: int) -> Option<(Seq<char>, int)> {
    match n.created_at {
        Some(ts) => match rfc3339_epoch_seconds(ts@) {
            Some(t) => if i64::MIN as int <= now - t <= i64::MAX as int {
                Some((spec_format_uptime(now - t), now - t))
            } else {
                None
            },
            None => None,
        },
        None => None,
    }
}

// ---------------------------------------------------------------------------
// Rows
// ---------------------------------------------------------------------------

#[verifier::ext_equal]
pub struct NodeRow {
    pub name: Seq<char>,
    pub status: Seq<char>,
    pub architecture: Seq<char>,
    pub os: Seq<char>,
    pub kernel_version: Seq<char>,
    pub kubelet_version: Seq<char>,
    pub container_runtime: Seq<char>,
    pub cpu_capacity: Seq<char>,
    pub cpu_allocatable: Seq<char>,
    pub memory_capacity: Seq<char>,
    pub memory_allocatable: Seq<char>,
    pub pod_count: int,
    pub pod_capacity: Seq<char>,
    pub pods_in_error: int,
    pub error_pod_names: Seq<Seq<char>>,
    pub uptime: Option<Seq<char>>,
    pub uptime_seconds: Option<int>,
    pub conditions: Seq<(Seq<char>, Seq<char>, Option<Seq<char>>)>,
    pub labels: Seq<(Seq<char>, Seq<char>)>,
}

pub open spec fn condition_view(c: NodeCondition) -> (Seq<char>, Seq<char>, Option<Seq<char>>) {
    (c.condition_type@, c.status@, opt_view(c.message))
}

pub open spec fn label_view(l: (String, String)) -> (Seq<char>, Seq<char>) {
    (l.0@, l.1@)
}

pub open spec fn node_row_of(x: NodeInfo) -> NodeRow {
    NodeRow {
        name: x.name@,
        status: x.status@,
        architecture: x.architecture@,
        os: x.os@,
        kernel_version: x.kernel_version@,
        kubelet_version: x.kubelet_version@,
        container_runtime: x.container_runtime@,
        cpu_capacity: x.cpu_capacity@,
        cpu_allocatable: x.cpu_allocatable@,
        memory_capacity: x.memory_capacity@,
        memory_allocatable: x.memory_allocatable@,
        pod_count: x.pod_count as int,
        pod_capacity: x.pod_capacity@,
        pods_in_error: x.pods_in_error as int,
        error_pod_names: x.error_pod_names@.map_values(|s: String| s@),
        uptime: opt_view(x.uptime),
        uptime_seconds: match x.uptime_seconds {
            Some(v) => Some(v as int),
            None => None,
        },
        conditions: x.conditions@.map_values(|c: NodeCondition| condition_view(c)),
        labels: x.labels@.map_values(|l: (String, String)| label_view(l)),
    }
}

/// The display row of one node, against the pod list.
pub open spec fn spec_node_row(n: NodeRecord, pods: Seq<PodRecord>, now: int) -> NodeRow {
    NodeRow {
        name: n.name@,
        status: if spec_node_ready(n) {
            "Ready"@
        } else {
            "NotReady"@
        },
        architecture: or_default(n.architecture, "unknown"@),
        os: or_default(n.os, "unknown"@),
        kernel_version: or_default(n.kernel_version, "unknown"@),
        kubelet_version: or_default(n.kubelet_version, "unknown"@),
        container_runtime: or_default(n.container_runtime, "unknown"@),
        cpu_capacity: or_default(n.cpu_capacity, "0"@),
        cpu_allocatable: or_default(n.cpu_allocatable, "0"@),
        memory_capacity: match n.memory_capacity {
            Some(m) => spec_format_memory(m@),
            None => "0"@,
        },
        memory_allocatable: match n.memory_allocatable {
            Some(m) => spec_format_memory(m@),
            None => "0"@,
        },
        pod_count: spec_node_pod_count(pods, n.name@) as int,
        pod_capacity: or_default(n.pod_capacity, "0"@),
        pods_in_error: spec_node_error_pods(pods, n.name@).len() as int,
        error_pod_names: spec_node_error_pods(pods, n.name@),
        uptime: match spec_node_uptime(n, now) {
            Some(u) => Some(u.0),
            None => None,
        },
        uptime_seconds: match spec_node_uptime(n, now) {
            Some(u) => Some(u.1),
            None => None,
        },
        conditions: n.conditions@.map_values(|c: NodeCondition| condition_view(c)),
        labels: n.labels@.map_values(|l: (String, String)| label_view(l)),
    }
}

pub open spec fn spec_node_rows(nodes: Seq<NodeRecord>, pods: Seq<PodRecord>, now: int) -> Seq<
    NodeRow,
>
    decreases nodes.len(),
{
    if nodes.len() == 0 {
        Seq::<NodeRow>::empty()
    } else {
        spec_node_rows(nodes.drop_last(), pods, now).push(
            spec_node_row(nodes.last(), pods, now),
        )
    }
}

/// Number of ready nodes.
pub open spec fn spec_ready_count(nodes: Seq<NodeRecord>) -> nat
    decreases nodes.len(),
{
    if nodes.len() == 0 {
        0
    } else {
        spec_ready_count(nodes.drop_last()) + (if spec_node_ready(nodes.last()) {
            1nat
        } else {
            0nat
        })
    }
}

proof fn lemma_ready_count_le(nodes: Seq<NodeRecord>)
    ensures
        spec_ready_count(nodes) <= nodes.len(),
    decreases nodes.len(),
{
    if nodes.len() > 0 {
        lemma_ready_count_le(nodes.drop_last());
    }
}

// ---------------------------------------------------------------------------
// Building
// ---------------------------------------------------------------------------

fn clone_conditions(src: &Vec<NodeCondition>) -> (out: Vec<NodeCondition>)
    ensures
        out@ == src@,
{
    let mut out: Vec<NodeCondition> = Vec::new();
    let n = src.len();
    let mut i: usize = 0;
    proof {
        assert(out@ =~= src@.take(0));
    }
    while i < n
        invariant
            i <= n,
            n == src@.len(),
            out@ == src@.take(i as int),
        decreases n - i,
    {
        let c = &src[i];
        let copy = NodeCondition {
            condition_type: c.condition_type.clone(),
            status: c.status.clone(),
            message: match &c.message {
                Some(m) => Some(m.clone()),
                None => None,
            },
        };
        proof {
            assert(copy == src@[i as int]);
        }
        out.push(copy);
        proof {
            assert(out@ =~= src@.take(i + 1));
        }
        i += 1;
    }
    proof {
        assert(src@.take(n as int) =~= src@);
    }
    out
}

fn clone_labels(src: &Vec<(String, String)>) -> (out: Vec<(String, String)>)
    ensures
        out@ == src@,
{
    let mut out: Vec<(String, String)> = Vec::new();
    let n = src.len();
    let mut i: usize = 0;
    proof {
        assert(out@ =~= src@.take(0));
    }
    while i < n
        invariant
            i <= n,
            n == src@.len(),
            out@ == src@.take(i as int),
        decreases n - i,
    {
        let l = &src[i];
        let copy = (l.0.clone(), l.1.clone());
        proof {
            assert(copy == src@[i as int]);
        }
        out.push(copy);
        proof {
            assert(out@ =~= src@.take(i + 1));
        }
        i += 1;
    }
    proof {
        assert(src@.take(n as int) =~= src@);
    }
    out
}

fn build_node_info(n: &NodeRecord, pods: &Vec<PodRecord>, now_epoch: i64) -> (x: NodeInfo)
    ensures
        node_row_of(x) == spec_node_row(*n, pods@, now_epoch as int),
        x.status@ == "Ready"@ <==> spec_node_ready(*n),
{
    // Readiness from the conditions.
    let mut is_ready = false;
    let nc = n.conditions.len();
    let mut ci: usize = 0;
    while ci < nc
        invariant
            ci <= nc,
            nc == n.conditions@.len(),
            is_ready == exists|t: int|
                0 <= t < ci && (#[trigger] n.conditions@[t]).condition_type@ == "Ready"@
                    && n.conditions@[t].status@ == "True"@,
        decreases nc - ci,
    {
        let c = &n.conditions[ci];
        if str_eq(c.condition_type.as_str(), "Ready") && str_eq(c.status.as_str(), "True") {
            is_ready = true;
        }
        ci += 1;
    }
    proof {
        assert(is_ready == spec_node_ready(*n));
        reveal_strlit("Ready");
        reveal_strlit("NotReady");
        assert("Ready"@.len() != "NotReady"@.len());
    }

    // Pods scheduled here, and the flagged ones.
    let np = pods.len();
    let mut pod_count: usize = 0;
    let mut error_pod_names: Vec<String> = Vec::new();
    let mut pi: usize = 0;
    proof {
        assert(pods@.take(0) =~= Seq::<PodRecord>::empty());
        assert(error_pod_names@.map_values(|s: String| s@) =~= spec_node_error_pods(
            pods@.take(0),
            n.name@,
        ));
    }
    while pi < np
        invariant
            pi <= np,
            np == pods@.len(),
            pod_count == spec_node_pod_count(pods@.take(pi as int), n.name@),
            error_pod_names@.map_values(|s: String| s@) == spec_node_error_pods(
                pods@.take(pi as int),
                n.name@,
            ),
        decreases np - pi,
    {
        let p = &pods[pi];
        proof {
            assert(pods@.take(pi + 1).drop_last() =~= pods@.take(pi as int));
            assert(pods@.take(pi + 1).last() == pods@[pi as int]);
            lemma_node_counts_le(pods@.take(pi as int), n.name@);
        }
        let on_node = match &p.node_name {
            Some(nn) => str_eq(nn.as_str(), n.name.as_str()),
            None => false,
        };
        if on_node {
            pod_count += 1;
            if is_pod_in_error(p) {
                error_pod_names.push(p.name.clone());
                proof {
                    assert(error_pod_names@.map_values(|s: String| s@) =~= spec_node_error_pods(
                        pods@.take(pi + 1),
                        n.name@,
                    ));
                }
            }
        }
        pi += 1;
    }
    proof {
        assert(pods@.take(np as int) =~= pods@);
        lemma_node_counts_le(pods@, n.name@);
    }
    let pods_in_error = error_pod_names.len();

    // Uptime.
    let (uptime, uptime_seconds): (Option<String>, Option<i64>) = match &n.created_at {
        Some(ts) => match parse_rfc3339_seconds(ts.as_str()) {
            Some(t) => match now_epoch.checked_sub(t) {
                Some(d) => (Some(format_uptime(d)), Some(d)),
                None => (None, None),
            },
            None => (None, None),
        },
        None => (None, None),
    };

    let memory_capacity = match &n.memory_capacity {
        Some(m) => format_memory(m.as_str()),
        None => String::from_str("0"),
    };
    let memory_allocatable = match &n.memory_allocatable {
        Some(m) => format_memory(m.as_str()),
        None => String::from_str("0"),
    };

    NodeInfo {
        name: n.name.clone(),
        status: if is_ready {
            String::from_str("Ready")
        } else {
            String::from_str("NotReady")
        },
        architecture: str_or(&n.architecture, "unknown"),
        os: str_or(&n.os, "unknown"),
        kernel_version: str_or(&n.kernel_version, "unknown"),
        kubelet_version: str_or(&n.kubelet_version, "unknown"),
        container_runtime: str_or(&n.container_runtime, "unknown"),
        cpu_capacity: str_or(&n.cpu_capacity, "0"),
        cpu_allocatable: str_or(&n.cpu_allocatable, "0"),
        memory_capacity,
        memory_allocatable,
        pod_count,
        pod_capacity: str_or(&n.pod_capacity, "0"),
        pods_in_error,
        error_pod_names,
        uptime,
        uptime_seconds,
        conditions: clone_conditions(&n.conditions),
        labels: clone_labels(&n.labels),
    }
}

/// Display order of nodes: by name.
pub open spec fn nodes_sorted(s: Seq<NodeInfo>) -> bool {
    forall|i: int, j: int| 0 <= i < j < s.len() ==> lex_le((#[trigger] s[i]).name@, (#[trigger] s[j]).name@)
}

fn node_name_le(a: &NodeInfo, b: &NodeInfo) -> (r: bool)
    ensures
        r == lex_le(a.name@, b.name@),
{
    str_le(a.name.as_str(), b.name.as_str())
}

/// Sorts nodes by name, keeping exactly the same rows.
fn sort_nodes(v: Vec<NodeInfo>) -> (r: Vec<NodeInfo>)
    ensures
        r@.map_values(|x: NodeInfo| node_row_of(x)).to_multiset() == v@.map_values(
            |x: NodeInfo| node_row_of(x),
        ).to_multiset(),
        nodes_sorted(r@),
        r@.len() == v@.len(),
{
    broadcast use vstd::seq_lib::group_to_multiset_ensures;

    let ghost orig = v@.map_values(|x: NodeInfo| node_row_of(x)).to_multiset();
    let mut input = v;
    let mut out: Vec<NodeInfo> = Vec::new();
    while input.len() > 0
        invariant
            out@.map_values(|x: NodeInfo| node_row_of(x)).to_multiset().add(
                input@.map_values(|x: NodeInfo| node_row_of(x)).to_multiset(),
            ) =~= orig,
            out@.len() + input@.len() == orig.len(),
            nodes_sorted(out@),
            forall|i: int, j: int|
                0 <= i < out@.len() && 0 <= j < input@.len() ==> lex_le(
                    (#[trigger] out@[i]).name@,
                    (#[trigger] input@[j]).name@,
                ),
        decreases input@.len(),
    {
        let mut mi: usize = 0;
        let mut k: usize = 1;
        proof {
            lemma_lex_le_refl(input@[0].name@);
        }
        while k < input.len()
            invariant
                mi < input@.len(),
                k <= input@.len(),
                forall|t: int|
                    0 <= t < k ==> lex_le(input@[mi as int].name@, (#[trigger] input@[t]).name@),
            decreases input@.len() - k,
        {
            if !node_name_le(&input[mi], &input[k]) {
                proof {
                    lemma_lex_le_total(input@[mi as int].name@, input@[k as int].name@);
                    lemma_lex_le_refl(input@[k as int].name@);
                    assert forall|t: int| 0 <= t < k + 1 implies lex_le(
                        input@[k as int].name@,
                        (#[trigger] input@[t]).name@,
                    ) by {
                        if t < k {
                            lemma_lex_le_trans(
                                input@[k as int].name@,
                                input@[mi as int].name@,
                                input@[t].name@,
                            );
                        }
                    }
                }
                mi = k;
            }
            k += 1;
        }
        let ghost pre = input@;
        let ghost out_pre = out@;
        let x = input.remove(mi);
        out.push(x);
        proof {
            let ghost row = node_row_of(x);
            let ghost m_pre = pre.map_values(|y: NodeInfo| node_row_of(y));
            let ghost m_in = input@.map_values(|y: NodeInfo| node_row_of(y));
            let ghost m_out_pre = out_pre.map_values(|y: NodeInfo| node_row_of(y));
            let ghost m_out = out@.map_values(|y: NodeInfo| node_row_of(y));
            assert(input@ == pre.remove(mi as int));
            assert(m_pre[mi as int] == row);
            assert(m_in.len() == m_pre.len() - 1);
            assert forall|t: int| 0 <= t < m_in.len() implies m_in[t] == #[trigger] m_pre.remove(
                mi as int,
            )[t] by {
                if t < mi {
                    assert(input@[t] == pre[t]);
                    assert(m_in[t] == node_row_of(input@[t]));
                    assert(m_pre[t] == node_row_of(pre[t]));
                } else {
                    assert(input@[t] == pre[t + 1]);
                    assert(m_in[t] == node_row_of(input@[t]));
                    assert(m_pre[t + 1] == node_row_of(pre[t + 1]));
                }
            }
            assert(m_in =~= m_pre.remove(mi as int));
            vstd::seq_lib::to_multiset_remove(m_pre, mi as int);
            assert(m_pre.remove(mi as int).to_multiset() == m_pre.to_multiset().remove(row));
            assert(out@ == out_pre.push(x));
            assert(m_out.len() == m_out_pre.len() + 1);
            assert forall|t: int| 0 <= t < m_out.len() implies m_out[t]
                == #[trigger] m_out_pre.push(row)[t] by {
                if t < m_out_pre.len() {
                    assert(out@[t] == out_pre[t]);
                    assert(m_out[t] == node_row_of(out@[t]));
                    assert(m_out_pre[t] == node_row_of(out_pre[t]));
                } else {
                    assert(out@[t] == x);
                    assert(m_out[t] == node_row_of(out@[t]));
                }
            }
            assert(m_out =~= m_out_pre.push(row));
            vstd::seq_lib::to_multiset_build(m_out_pre, row);
            assert(m_out.to_multiset() == m_out_pre.to_multiset().insert(row));
            vstd::seq_lib::to_multiset_contains(m_pre, row);
            assert(m_pre.to_multiset().count(row) > 0) by {
                assert(m_pre[mi as int] == row);
                assert(m_pre.contains(row));
            }
            assert(m_out.to_multiset().add(m_in.to_multiset()) =~= m_out_pre.to_multiset().add(
                m_pre.to_multiset(),
            ));
            assert forall|i: int, j: int|
                0 <= i < out@.len() && 0 <= j < input@.len() implies lex_le(
                (#[trigger] out@[i]).name@,
                (#[trigger] input@[j]).name@,
            ) by {
                let jj = if j < mi {
                    j
                } else {
                    j + 1
                };
                assert(input@[j] == pre[jj]);
                if i < out@.len() - 1 {
                } else {
                    assert(lex_le(pre[mi as int].name@, pre[jj].name@));
                }
            }
        }
    }
    out
}

/// Assembles the nodes status summary from fetched node and pod records,
/// dating uptimes against `now_epoch` (seconds since the Unix epoch).
///
/// Readiness counts are pinned to the records; the node list holds exactly
/// one row per node, ordered by name.
pub fn get_nodes_status(nodes: &Vec<NodeRecord>, pods: &Vec<PodRecord>, now_epoch: i64) -> (r:
    NodesStatusResponse)
    ensures
        r.total_nodes == nodes@.len(),
        r.ready_nodes == spec_ready_count(nodes@),
        r.not_ready_nodes == nodes@.len() - spec_ready_count(nodes@),
        r.nodes@.len() == nodes@.len(),
        r.nodes@.map_values(|x: NodeInfo| node_row_of(x)).to_multiset() == spec_node_rows(
            nodes@,
            pods@,
            now_epoch as int,
        ).to_multiset(),
        nodes_sorted(r.nodes@),
{
    broadcast use vstd::seq_lib::group_to_multiset_ensures;

    let ghost all = nodes@;
    let ghost now = now_epoch as int;
    let total_nodes = nodes.len();
    let mut ready_nodes: usize = 0;
    let mut not_ready_nodes: usize = 0;
    let mut infos: Vec<NodeInfo> = Vec::new();
    let mut i: usize = 0;
    proof {
        assert(all.take(0) =~= Seq::<NodeRecord>::empty());
        assert(infos@.map_values(|x: NodeInfo| node_row_of(x)) =~= spec_node_rows(
            all.take(0),
            pods@,
            now,
        ));
    }
    while i < total_nodes
        invariant
            total_nodes == all.len(),
            i <= total_nodes,
            ready_nodes == spec_ready_count(all.take(i as int)),
            ready_nodes + not_ready_nodes == i,
            infos@.map_values(|x: NodeInfo| node_row_of(x)) == spec_node_rows(
                all.take(i as int),
                pods@,
                now,
            ),
            infos@.len() == i,
            nodes@ == all,
            now == now_epoch as int,
        decreases total_nodes - i,
    {
        let n = &nodes[i];
        proof {
            assert(all.take(i + 1).drop_last() =~= all.take(i as int));
            assert(all.take(i + 1).last() == all[i as int]);
            lemma_ready_count_le(all.take(i as int));
        }
        let info = build_node_info(n, pods, now_epoch);
        if str_eq(info.status.as_str(), "Ready") {
            ready_nodes += 1;
        } else {
            not_ready_nodes += 1;
        }
        infos.push(info);
        proof {
            assert(infos@.map_values(|x: NodeInfo| node_row_of(x)) =~= spec_node_rows(
                all.take(i + 1),
                pods@,
                now,
            ));
        }
        i += 1;
    }
    proof {
        assert(all.take(total_nodes as int) =~= all);
    }
    let sorted = sort_nodes(infos);
    NodesStatusResponse { total_nodes, ready_nodes, not_ready_nodes, nodes: sorted }
}

} // verus!
