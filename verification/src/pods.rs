//! Pod records, the pod error detector, and the pods status builder.

use vstd::prelude::*;
use crate::classify::opt_view;
use crate::duration::{format_age, spec_format_age};
use crate::strfmt::{dec_str_i, i64_to_string, str_eq};
use crate::time::{parse_rfc3339_seconds, rfc3339_epoch_seconds};

verus! {

// ---------------------------------------------------------------------------
// Records, as read from the control plane
// ---------------------------------------------------------------------------

/// The state a container is reported in.
#[derive(Clone, Debug)]
pub enum ContainerState {
    Running,
    Waiting { reason: Option<String>, message: Option<String> },
    Terminated { reason: Option<String>, message: Option<String> },
    Unknown,
}

/// One container's reported status.
#[derive(Clone, Debug)]
pub struct ContainerStatusRecord {
    pub name: String,
    pub ready: bool,
    pub restart_count: i32,
    pub state: ContainerState,
}

/// One pod's reported status.
#[derive(Clone, Debug)]
pub struct PodRecord {
    pub name: String,
    pub namespace: String,
    pub phase: Option<String>,
    pub status_reason: Option<String>,
    pub status_message: Option<String>,
    pub node_name: Option<String>,
    pub created_at: Option<String>,
    pub containers: Vec<ContainerStatusRecord>,
    pub init_containers: Vec<ContainerStatusRecord>,
}

// ---------------------------------------------------------------------------
// Displayable results
// ---------------------------------------------------------------------------

/// Container status, ready for display.
#[derive(Clone, Debug)]
pub struct ContainerInfo {
    pub name: String,
    pub ready: bool,
    pub restart_count: i32,
    pub state: String,
    pub reason: Option<String>,
    pub message: Option<String>,
}

/// One pod in error, ready for display.
#[derive(Clone, Debug)]
pub struct PodInfo {
    pub name: String,
    pub namespace: String,
    pub status: String,
    pub reason: Option<String>,
    pub message: Option<String>,
    pub node: Option<String>,
    pub restart_count: i64,
    pub age: String,
    pub age_seconds: i64,
    pub containers: Vec<ContainerInfo>,
}

/// The pods status summary.
#[derive(Clone, Debug)]
pub struct PodsStatusResponse {
    pub total_pods: usize,
    pub running_pods: usize,
    pub pending_pods: usize,
    pub succeeded_pods: usize,
    pub failed_pods: usize,
    pub error_pods: usize,
    pub pods_in_error: Vec<PodInfo>,
}

// ---------------------------------------------------------------------------
// The error detector
// ---------------------------------------------------------------------------

/// The pod's phase; missing reads `"Unknown"`.
pub open spec fn spec_phase_of(p: PodRecord) -> Seq<char> {
    match p.phase {
        Some(s) => s@,
        None => "Unknown"@,
    }
}

/// The closed set of waiting reasons that mark a container as in error.
pub open spec fn spec_error_reason(r: Seq<char>) -> bool {
    ||| r == "CrashLoopBackOff"@
    ||| r == "ImagePullBackOff"@
    ||| r == "ErrImagePull"@
    ||| r == "CreateContainerConfigError"@
    ||| r == "CreateContainerError"@
    ||| r == "RunContainerError"@
    ||| r == "OOMKilled"@
    ||| r == "Error"@
    ||| r == "InvalidImageName"@
    ||| r == "ContainerCannotRun"@
    ||| r == "DeadlineExceeded"@
    ||| r == "Evicted"@
}

/// Decides membership in the error-reason set.
pub fn is_error_reason(r: &str) -> (b: bool)
    ensures
        b == spec_error_reason(r@),
{
    ||| str_eq(r, "CrashLoopBackOff")
    ||| str_eq(r, "ImagePullBackOff")
    ||| str_eq(r, "ErrImagePull")
    ||| str_eq(r, "CreateContainerConfigError")
    ||| str_eq(r, "CreateContainerError")
    ||| str_eq(r, "RunContainerError")
    ||| str_eq(r, "OOMKilled")
    ||| str_eq(r, "Error")
    ||| str_eq(r, "InvalidImageName")
    ||| str_eq(r, "ContainerCannotRun")
    ||| str_eq(r, "DeadlineExceeded")
    ||| str_eq(r, "Evicted")
}

/// A container is in error when it waits with a reason from the closed set.
pub open spec fn container_in_error(c: ContainerStatusRecord) -> bool {
    match c.state {
        ContainerState::Waiting { reason, message } => match reason {
            Some(r) => spec_error_reason(r@),
            None => false,
        },
        _ => false,
    }
}

/// The first container in error in `s`, if any.
pub open spec fn spec_first_error_container(s: Seq<ContainerStatusRecord>) -> Option<
    ContainerStatusRecord,
>
    decreases s.len(),
{
    if s.len() == 0 {
        None
    } else if container_in_error(s.first()) {
        Some(s.first())
    } else {
        spec_first_error_container(s.drop_first())
    }
}

/// All the pod's containers, init containers after regular ones.
pub open spec fn all_containers(p: PodRecord) -> Seq<ContainerStatusRecord> {
    p.containers@ + p.init_containers@
}

/// Addition on `i64` saturating at the type bounds.
pub open spec fn sat_add_i64(a: int, b: int) -> int {
    if a + b > i64::MAX as int {
        i64::MAX as int
    } else if a + b < i64::MIN as int {
        i64::MIN as int
    } else {
        a + b
    }
}

/// Sum of the restart counts of the pod's regular containers.
pub open spec fn spec_sum_restarts(s: Seq<ContainerStatusRecord>) -> int
    decreases s.len(),
{
    if s.len() == 0 {
        0
    } else {
        sat_add_i64(spec_sum_restarts(s.drop_last()), s.last().restart_count as int)
    }
}

/// The phase marks the pod as failed or lost.
pub open spec fn spec_phase_error(p: PodRecord) -> bool {
    spec_phase_of(p) == "Failed"@ || spec_phase_of(p) == "Unknown"@
}

/// The detector decides a pod is in error on a failed or lost phase, a container in error,
/// or a restart-count sum above five.
pub open spec fn spec_pod_is_error(p: PodRecord) -> bool {
    ||| spec_phase_error(p)
    ||| spec_first_error_container(all_containers(p)) is Some
    ||| spec_sum_restarts(p.containers@) > 5
}

/// The reason reported for an error pod: the top-level status reason for a
/// phase error when present, else the first error container's reason, else
/// a synthesized high-restart reason.
pub open spec fn spec_pod_error_reason(p: PodRecord) -> Option<Seq<char>> {
    if spec_phase_error(p) && p.status_reason is Some {
        Some(p.status_reason->0@)
    } else {
        match spec_first_error_container(all_containers(p)) {
            Some(c) => match c.state {
                ContainerState::Waiting { reason, message } => Some(reason->0@),
                _ => None,
            },
            None => if !spec_phase_error(p) && spec_sum_restarts(p.containers@) > 5 {
                Some("HighRestartCount ("@ + dec_str_i(spec_sum_restarts(p.containers@)) + ")"@)
            } else {
                None
            },
        }
    }
}

/// The message paired with the reported reason.
pub open spec fn spec_pod_error_message(p: PodRecord) -> Option<Seq<char>> {
    if spec_phase_error(p) && p.status_reason is Some {
        opt_view(p.status_message)
    } else {
        match spec_first_error_container(all_containers(p)) {
            Some(c) => match c.state {
                ContainerState::Waiting { reason, message } => opt_view(message),
                _ => None,
            },
            None => if spec_phase_error(p) {
                opt_view(p.status_message)
            } else {
                None
            },
        }
    }
}

fn container_is_error_x(c: &ContainerStatusRecord) -> (b: bool)
    ensures
        b == container_in_error(*c),
{
    match &c.state {
        ContainerState::Waiting { reason: Some(r), message: _ } => is_error_reason(r.as_str()),
        _ => false,
    }
}

/// Finds the first container in error, returning its reason and message.
fn first_error_container(p: &PodRecord) -> (r: Option<(String, Option<String>)>)
    ensures
        r is Some <==> spec_first_error_container(all_containers(*p)) is Some,
        r is Some ==> {
            let c = spec_first_error_container(all_containers(*p))->0;
            let pair = r->0;
            match c.state {
                ContainerState::Waiting { reason, message } => pair.0@ == reason->0@ && opt_view(
                    pair.1,
                ) == opt_view(message),
                _ => false,
            }
        },
{
    let ghost all = all_containers(*p);
    let n1 = p.containers.len();
    let n2 = p.init_containers.len();
    let mut i: usize = 0;
    proof {
        assert(all.skip(0) =~= all);
    }
    while i < n1
        invariant
            i <= n1,
            n1 == p.containers@.len(),
            n2 == p.init_containers@.len(),
            all == all_containers(*p),
            all.len() == n1 + n2,
            spec_first_error_container(all) == spec_first_error_container(all.skip(i as int)),
            forall|j: int| 0 <= j < all.len() ==> all[j] == if j < n1 {
                p.containers@[j]
            } else {
                p.init_containers@[j - n1]
            },
        decreases n1 - i,
    {
        let c = &p.containers[i];
        if container_is_error_x(c) {
            proof {
                assert(all.skip(i as int).first() == all[i as int]);
            }
            match &c.state {
                ContainerState::Waiting { reason: Some(r), message } => {
                    return Some((r.clone(), message.clone()));
                },
                _ => {
                    proof {
                        assert(false);
                    }
                },
            }
        }
        proof {
            assert(all.skip(i as int).first() == all[i as int]);
            assert(all.skip(i as int).drop_first() =~= all.skip(i + 1));
        }
        i += 1;
    }
    let mut j: usize = 0;
    while j < n2
        invariant
            j <= n2,
            n1 == p.containers@.len(),
            n2 == p.init_containers@.len(),
            all == all_containers(*p),
            all.len() == n1 + n2,
            spec_first_error_container(all) == spec_first_error_container(all.skip(n1 + j)),
            forall|t: int| 0 <= t < all.len() ==> all[t] == if t < n1 {
                p.containers@[t]
            } else {
                p.init_containers@[t - n1]
            },
        decreases n2 - j,
    {
        let c = &p.init_containers[j];
        if container_is_error_x(c) {
            proof {
                assert(all.skip(n1 + j).first() == all[n1 + j]);
            }
            match &c.state {
                ContainerState::Waiting { reason: Some(r), message } => {
                    return Some((r.clone(), message.clone()));
                },
                _ => {
                    proof {
                        assert(false);
                    }
                },
            }
        }
        proof {
            assert(all.skip(n1 + j).first() == all[n1 + j]);
            assert(all.skip(n1 + j).drop_first() =~= all.skip(n1 + j + 1));
        }
        j += 1;
    }
    proof {
        assert(all.skip(n1 + n2).len() == 0);
    }
    None
}

/// Sums the restart counts of the regular containers, saturating.
fn sum_restarts(containers: &Vec<ContainerStatusRecord>) -> (r: i64)
    ensures
        r as int == spec_sum_restarts(containers@),
{
    let mut acc: i64 = 0;
    let mut i: usize = 0;
    proof {
        assert(containers@.take(0) =~= Seq::<ContainerStatusRecord>::empty());
    }
    while i < containers.len()
        invariant
            i <= containers@.len(),
            acc as int == spec_sum_restarts(containers@.take(i as int)),
        decreases containers@.len() - i,
    {
        proof {
            assert(containers@.take(i + 1).drop_last() =~= containers@.take(i as int));
            assert(containers@.take(i + 1).last() == containers@[i as int]);
        }
        let c = containers[i].restart_count as i64;
        acc = match acc.checked_add(c) {
            Some(v) => v,
            None => if c >= 0 {
                i64::MAX
            } else {
                i64::MIN
            },
        };
        i += 1;
    }
    proof {
        assert(containers@.take(containers@.len() as int) =~= containers@);
    }
    acc
}

fn phase_of(p: &PodRecord) -> (s: String)
    ensures
        s@ == spec_phase_of(*p),
{
    match &p.phase {
        Some(s) => s.clone(),
        None => String::from_str("Unknown"),
    }
}

/// The detector: decides whether a pod is in error and reports a reason
/// and message per the fixed precedence (phase, first container in error,
/// high restart count).
pub fn detect_pod_error(p: &PodRecord) -> (r: (bool, Option<String>, Option<String>))
    ensures
        r.0 == spec_pod_is_error(*p),
        opt_view(r.1) == spec_pod_error_reason(*p),
        opt_view(r.2) == spec_pod_error_message(*p),
{
    let phase = phase_of(p);
    let phase_err = str_eq(phase.as_str(), "Failed") || str_eq(phase.as_str(), "Unknown");
    let first = first_error_container(p);
    let total = sum_restarts(&p.containers);
    let is_error = phase_err || first.is_some() || total > 5;
    if phase_err && p.status_reason.is_some() {
        return (is_error, p.status_reason.clone(), p.status_message.clone());
    }
    match first {
        Some((reason, message)) => (is_error, Some(reason), message),
        None => {
            if !phase_err && total > 5 {
                let mut r = String::from_str("HighRestartCount (");
                let n = i64_to_string(total);
                r.append(n.as_str());
                r.append(")");
                (is_error, Some(r), None)
            } else if phase_err {
                (is_error, None, p.status_message.clone())
            } else {
                (is_error, None, None)
            }
        },
    }
}

// ---------------------------------------------------------------------------
// Rows: the mathematical content of the displayable results
// ---------------------------------------------------------------------------

#[verifier::ext_equal]
pub struct ContainerRow {
    pub name: Seq<char>,
    pub ready: bool,
    pub restart_count: int,
    pub state: Seq<char>,
    pub reason: Option<Seq<char>>,
    pub message: Option<Seq<char>>,
}

#[verifier::ext_equal]
pub struct PodRow {
    pub name: Seq<char>,
    pub namespace: Seq<char>,
    pub status: Seq<char>,
    pub reason: Option<Seq<char>>,
    pub message: Option<Seq<char>>,
    pub node: Option<Seq<char>>,
    pub restart_count: int,
    pub age: Seq<char>,
    pub age_seconds: int,
    pub containers: Seq<ContainerRow>,
}

pub open spec fn container_row_of(c: ContainerInfo) -> ContainerRow {
    ContainerRow {
        name: c.name@,
        ready: c.ready,
        restart_count: c.restart_count as int,
        state: c.state@,
        reason: opt_view(c.reason),
        message: opt_view(c.message),
    }
}

pub open spec fn pod_row_of(x: PodInfo) -> PodRow {
    PodRow {
        name: x.name@,
        namespace: x.namespace@,
        status: x.status@,
        reason: opt_view(x.reason),
        message: opt_view(x.message),
        node: opt_view(x.node),
        restart_count: x.restart_count as int,
        age: x.age@,
        age_seconds: x.age_seconds as int,
        containers: x.containers@.map_values(|c: ContainerInfo| container_row_of(c)),
    }
}

/// The display name of a container state.
pub open spec fn spec_state_name(st: ContainerState) -> Seq<char> {
    match st {
        ContainerState::Running => "Running"@,
        ContainerState::Waiting { reason, message } => "Waiting"@,
        ContainerState::Terminated { reason, message } => "Terminated"@,
        ContainerState::Unknown => "Unknown"@,
    }
}

pub open spec fn spec_state_reason(st: ContainerState) -> Option<Seq<char>> {
    match st {
        ContainerState::Waiting { reason, message } => opt_view(reason),
        ContainerState::Terminated { reason, message } => opt_view(reason),
        _ => None,
    }
}

pub open spec fn spec_state_message(st: ContainerState) -> Option<Seq<char>> {
    match st {
        ContainerState::Waiting { reason, message } => opt_view(message),
        ContainerState::Terminated { reason, message } => opt_view(message),
        _ => None,
    }
}

/// The display row of a regular container.
pub open spec fn spec_container_row(c: ContainerStatusRecord) -> ContainerRow {
    ContainerRow {
        name: c.name@,
        ready: c.ready,
        restart_count: c.restart_count as int,
        state: spec_state_name(c.state),
        reason: spec_state_reason(c.state),
        message: spec_state_message(c.state),
    }
}

/// The display row of an init container: its name carries an `init:` prefix.
pub open spec fn spec_init_container_row(c: ContainerStatusRecord) -> ContainerRow {
    ContainerRow {
        name: "init:"@ + c.name@,
        ready: c.ready,
        restart_count: c.restart_count as int,
        state: spec_state_name(c.state),
        reason: spec_state_reason(c.state),
        message: spec_state_message(c.state),
    }
}

pub open spec fn spec_container_rows(p: PodRecord) -> Seq<ContainerRow> {
    p.containers@.map_values(|c: ContainerStatusRecord| spec_container_row(c))
        + p.init_containers@.map_values(|c: ContainerStatusRecord| spec_init_container_row(c))
}

/// The pod's rendered age and age in seconds: computed when the creation
/// timestamp parses and the elapsed seconds fit the machine range, else
/// `"Unknown"` and zero.
pub open spec fn spec_pod_age(p: PodRecord, now: int) -> (Seq<char>, int) {
    match p.created_at {
        Some(ts) => match rfc3339_epoch_seconds(ts@) {
            Some(t) => if i64::MIN as int <= now - t <= i64::MAX as int {
                (spec_format_age(now - t), now - t)
            } else {
                ("Unknown"@, 0)
            },
            None => ("Unknown"@, 0),
        },
        None => ("Unknown"@, 0),
    }
}

/// The display row of one pod in error.
pub open spec fn spec_pod_row(p: PodRecord, now: int) -> PodRow {
    PodRow {
        name: p.name@,
        namespace: p.namespace@,
        status: spec_phase_of(p),
        reason: spec_pod_error_reason(p),
        message: spec_pod_error_message(p),
        node: opt_view(p.node_name),
        restart_count: spec_sum_restarts(p.containers@),
        age: spec_pod_age(p, now).0,
        age_seconds: spec_pod_age(p, now).1,
        containers: spec_container_rows(p),
    }
}

/// The rows of all pods in error, in input order.
pub open spec fn spec_error_pod_rows(s: Seq<PodRecord>, now: int) -> Seq<PodRow>
    decreases s.len(),
{
    if s.len() == 0 {
        Seq::<PodRow>::empty()
    } else {
        let prev = spec_error_pod_rows(s.drop_last(), now);
        if spec_pod_is_error(s.last()) {
            prev.push(spec_pod_row(s.last(), now))
        } else {
            prev
        }
    }
}

proof fn lemma_error_pod_rows_len(s: Seq<PodRecord>, now: int)
    ensures
        spec_error_pod_rows(s, now).len() <= s.len(),
    decreases s.len(),
{
    if s.len() > 0 {
        lemma_error_pod_rows_len(s.drop_last(), now);
    }
}

// ---------------------------------------------------------------------------
// Phase counting
// ---------------------------------------------------------------------------

pub enum PodPhaseKind {
    Running,
    Pending,
    Succeeded,
    Failed,
}

pub open spec fn pod_phase_matches(p: PodRecord, k: PodPhaseKind) -> bool {
    match k {
        PodPhaseKind::Running => spec_phase_of(p) == "Running"@,
        PodPhaseKind::Pending => spec_phase_of(p) == "Pending"@,
        PodPhaseKind::Succeeded => spec_phase_of(p) == "Succeeded"@,
        PodPhaseKind::Failed => spec_phase_of(p) == "Failed"@,
    }
}

pub open spec fn pod_phase_count(s: Seq<PodRecord>, k: PodPhaseKind) -> nat
    decreases s.len(),
{
    if s.len() == 0 {
        0
    } else {
        pod_phase_count(s.drop_last(), k) + (if pod_phase_matches(s.last(), k) {
            1nat
        } else {
            0nat
        })
    }
}

proof fn lemma_pod_phase_count_le(s: Seq<PodRecord>, k: PodPhaseKind)
    ensures
        pod_phase_count(s, k) <= s.len(),
    decreases s.len(),
{
    if s.len() > 0 {
        lemma_pod_phase_count_le(s.drop_last(), k);
    }
}

proof fn lemma_phase_literals_distinct()
    ensures
        "Running"@ != "Pending"@,
        "Running"@ != "Succeeded"@,
        "Running"@ != "Failed"@,
        "Pending"@ != "Succeeded"@,
        "Pending"@ != "Failed"@,
        "Succeeded"@ != "Failed"@,
{
    reveal_strlit("Running");
    reveal_strlit("Pending");
    reveal_strlit("Succeeded");
    reveal_strlit("Failed");
    assert("Running"@.len() == 7);
    assert("Pending"@.len() == 7);
    assert("Succeeded"@.len() == 9);
    assert("Failed"@.len() == 6);
    assert("Running"@[0] == 'R');
    assert("Pending"@[0] == 'P');
}

// ---------------------------------------------------------------------------
// Building and sorting
// ---------------------------------------------------------------------------

fn build_container_infos(p: &PodRecord) -> (v: Vec<ContainerInfo>)
    ensures
        v@.map_values(|c: ContainerInfo| container_row_of(c)) == spec_container_rows(*p),
{
    let mut v: Vec<ContainerInfo> = Vec::new();
    let n1 = p.containers.len();
    let n2 = p.init_containers.len();
    let ghost reg = p.containers@.map_values(|c: ContainerStatusRecord| spec_container_row(c));
    let ghost ini = p.init_containers@.map_values(
        |c: ContainerStatusRecord| spec_init_container_row(c),
    );
    let mut i: usize = 0;
    proof {
        assert(v@.map_values(|c: ContainerInfo| container_row_of(c)) =~= reg.take(0));
    }
    while i < n1
        invariant
            i <= n1,
            n1 == p.containers@.len(),
            reg == p.containers@.map_values(|c: ContainerStatusRecord| spec_container_row(c)),
            v@.map_values(|c: ContainerInfo| container_row_of(c)) == reg.take(i as int),
        decreases n1 - i,
    {
        let c = &p.containers[i];
        let (state, reason, message) = get_container_state_info(&c.state);
        let info = ContainerInfo {
            name: c.name.clone(),
            ready: c.ready,
            restart_count: c.restart_count,
            state,
            reason,
            message,
        };
        proof {
            assert(container_row_of(info) == spec_container_row(p.containers@[i as int]));
        }
        let ghost pre = v@;
        v.push(info);
        proof {
            assert(v@ == pre.push(info));
            assert(pre.map_values(|c: ContainerInfo| container_row_of(c)).len() == pre.len());
            assert(reg.len() == n1);
            assert(reg.take(i as int).len() == i);
            assert(pre.len() == i);
            assert(v@.len() == i + 1);
            assert(v@.map_values(|c: ContainerInfo| container_row_of(c)).len() == i + 1);
            assert forall|t: int| 0 <= t < i + 1 implies v@.map_values(
                |c: ContainerInfo| container_row_of(c),
            )[t] == #[trigger] reg.take(i + 1)[t] by {
                assert(reg.take(i + 1)[t] == reg[t]);
                if t < i {
                    assert(v@[t] == pre[t]);
                    assert(pre.map_values(|c: ContainerInfo| container_row_of(c))[t]
                        == container_row_of(pre[t]));
                    assert(reg.take(i as int)[t] == reg[t]);
                } else {
                    assert(v@[t] == info);
                    assert(reg[t] == spec_container_row(p.containers@[t]));
                }
            }
            assert(v@.map_values(|c: ContainerInfo| container_row_of(c)) =~= reg.take(i + 1));
        }
        i += 1;
    }
    let mut j: usize = 0;
    proof {
        assert(reg.take(n1 as int) =~= reg);
        assert(reg + ini.take(0) =~= reg);
    }
    while j < n2
        invariant
            j <= n2,
            n1 == p.containers@.len(),
            n2 == p.init_containers@.len(),
            reg == p.containers@.map_values(|c: ContainerStatusRecord| spec_container_row(c)),
            ini == p.init_containers@.map_values(
                |c: ContainerStatusRecord| spec_init_container_row(c),
            ),
            v@.map_values(|c: ContainerInfo| container_row_of(c)) == reg + ini.take(j as int),
        decreases n2 - j,
    {
        let c = &p.init_containers[j];
        let (state, reason, message) = get_container_state_info(&c.state);
        let mut name = String::from_str("init:");
        name.append(c.name.as_str());
        let info = ContainerInfo {
            name,
            ready: c.ready,
            restart_count: c.restart_count,
            state,
            reason,
            message,
        };
        proof {
            assert(container_row_of(info) == spec_init_container_row(
                p.init_containers@[j as int],
            ));
        }
        let ghost pre = v@;
        v.push(info);
        proof {
            assert(v@ == pre.push(info));
            assert(pre.map_values(|c: ContainerInfo| container_row_of(c)).len() == pre.len());
            assert(reg.len() == n1);
            assert(ini.len() == n2);
            assert(ini.take(j as int).len() == j);
            assert((reg + ini.take(j as int)).len() == n1 + j);
            assert(pre.len() == n1 + j);
            assert(v@.len() == n1 + j + 1);
            assert forall|t: int| 0 <= t < n1 + j + 1 implies v@.map_values(
                |c: ContainerInfo| container_row_of(c),
            )[t] == #[trigger] (reg + ini.take(j + 1))[t] by {
                if t < n1 + j {
                    assert(v@[t] == pre[t]);
                    assert(pre.map_values(|c: ContainerInfo| container_row_of(c))[t]
                        == container_row_of(pre[t]));
                    assert((reg + ini.take(j as int))[t] == (reg + ini.take(j + 1))[t]);
                } else {
                    assert(v@[t] == info);
                    assert((reg + ini.take(j + 1))[t] == ini[j as int]);
                    assert(ini[j as int] == spec_init_container_row(p.init_containers@[j as int]));
                }
            }
            assert(v@.map_values(|c: ContainerInfo| container_row_of(c)) =~= reg + ini.take(
                j + 1,
            ));
        }
        j += 1;
    }
    proof {
        assert(reg + ini.take(n2 as int) =~= spec_container_rows(*p));
    }
    v
}

/// Names a container state and extracts its reason and message.
pub fn get_container_state_info(st: &ContainerState) -> (r: (String, Option<String>, Option<
    String,
>))
    ensures
        r.0@ == spec_state_name(*st),
        opt_view(r.1) == spec_state_reason(*st),
        opt_view(r.2) == spec_state_message(*st),
{
    match st {
        ContainerState::Running => (String::from_str("Running"), None, None),
        ContainerState::Waiting { reason, message } => (
            String::from_str("Waiting"),
            reason.clone(),
            message.clone(),
        ),
        ContainerState::Terminated { reason, message } => (
            String::from_str("Terminated"),
            reason.clone(),
            message.clone(),
        ),
        ContainerState::Unknown => (String::from_str("Unknown"), None, None),
    }
}

/// Display order of error pods: most restarts first, younger pods first
/// among equals.
pub open spec fn pod_display_le(a: PodInfo, b: PodInfo) -> bool {
    ||| a.restart_count > b.restart_count
    ||| (a.restart_count == b.restart_count && a.age_seconds <= b.age_seconds)
}

pub open spec fn pods_sorted(s: Seq<PodInfo>) -> bool {
    forall|i: int, j: int| 0 <= i < j < s.len() ==> pod_display_le(s[i], s[j])
}

fn pod_display_le_x(a: &PodInfo, b: &PodInfo) -> (r: bool)
    ensures
        r == pod_display_le(*a, *b),
{
    a.restart_count > b.restart_count || (a.restart_count == b.restart_count && a.age_seconds
        <= b.age_seconds)
}

/// Sorts error pods for display, keeping exactly the same rows.
fn sort_error_pods(v: Vec<PodInfo>) -> (r: Vec<PodInfo>)
    ensures
        r@.map_values(|x: PodInfo| pod_row_of(x)).to_multiset() == v@.map_values(
            |x: PodInfo| pod_row_of(x),
        ).to_multiset(),
        pods_sorted(r@),
        r@.len() == v@.len(),
{
    broadcast use vstd::seq_lib::group_to_multiset_ensures;

    let ghost orig = v@.map_values(|x: PodInfo| pod_row_of(x)).to_multiset();
    let mut input = v;
    let mut out: Vec<PodInfo> = Vec::new();
    while input.len() > 0
        invariant
            out@.map_values(|x: PodInfo| pod_row_of(x)).to_multiset().add(
                input@.map_values(|x: PodInfo| pod_row_of(x)).to_multiset(),
            ) =~= orig,
            out@.len() + input@.len() == orig.len(),
            pods_sorted(out@),
            forall|i: int, j: int|
                0 <= i < out@.len() && 0 <= j < input@.len() ==> pod_display_le(
                    out@[i],
                    input@[j],
                ),
        decreases input@.len(),
    {
        let mut mi: usize = 0;
        let mut k: usize = 1;
        while k < input.len()
            invariant
                mi < k || (k == 1 && mi == 0),
                mi < input@.len(),
                k <= input@.len(),
                forall|t: int| 0 <= t < k ==> pod_display_le(input@[mi as int], input@[t]),
            decreases input@.len() - k,
        {
            if !pod_display_le_x(&input[mi], &input[k]) {
                mi = k;
            }
            k += 1;
        }
        let ghost pre = input@;
        let ghost out_pre = out@;
        let x = input.remove(mi);
        out.push(x);
        proof {
            let ghost row = pod_row_of(x);
            let ghost m_pre = pre.map_values(|y: PodInfo| pod_row_of(y));
            let ghost m_in = input@.map_values(|y: PodInfo| pod_row_of(y));
            let ghost m_out_pre = out_pre.map_values(|y: PodInfo| pod_row_of(y));
            let ghost m_out = out@.map_values(|y: PodInfo| pod_row_of(y));
            assert(input@ == pre.remove(mi as int));
            assert(m_pre[mi as int] == row);
            assert(m_in.len() == m_pre.len() - 1);
            assert forall|t: int| 0 <= t < m_in.len() implies m_in[t] == #[trigger] m_pre.remove(
                mi as int,
            )[t] by {
                if t < mi {
                    assert(input@[t] == pre[t]);
                    assert(m_in[t] == pod_row_of(input@[t]));
                    assert(m_pre[t] == pod_row_of(pre[t]));
                } else {
                    assert(input@[t] == pre[t + 1]);
                    assert(m_in[t] == pod_row_of(input@[t]));
                    assert(m_pre[t + 1] == pod_row_of(pre[t + 1]));
                }
            }
            assert(m_in =~= m_pre.remove(mi as int));
            vstd::seq_lib::to_multiset_remove(m_pre, mi as int);
            assert(m_pre.remove(mi as int).to_multiset() == m_pre.to_multiset().remove(row));
            assert(out@ == out_pre.push(x));
            assert(m_out.len() == m_out_pre.len() + 1);
            assert forall|t: int| 0 <= t < m_out.len() implies m_out[t]
                == #[trigger] m_out_pre.push(row)[t] by {
                if t < m_out_pre.len() {
                    assert(out@[t] == out_pre[t]);
                    assert(m_out[t] == pod_row_of(out@[t]));
                    assert(m_out_pre[t] == pod_row_of(out_pre[t]));
                } else {
                    assert(out@[t] == x);
                    assert(m_out[t] == pod_row_of(out@[t]));
                }
            }
            assert(m_out =~= m_out_pre.push(row));
            vstd::seq_lib::to_multiset_build(m_out_pre, row);
            assert(m_out.to_multiset() == m_out_pre.to_multiset().insert(row));
            vstd::seq_lib::to_multiset_contains(m_pre, row);
            assert(m_pre.to_multiset().count(row) > 0) by {
                assert(m_pre[mi as int] == row);
                assert(m_pre.contains(row));
            }
            assert(m_out.to_multiset().add(m_in.to_multiset()) =~= m_out_pre.to_multiset().add(
                m_pre.to_multiset(),
            ));
            assert(out@.map_values(|y: PodInfo| pod_row_of(y)).to_multiset().add(
                input@.map_values(|y: PodInfo| pod_row_of(y)).to_multiset(),
            ) =~= orig);
            assert forall|i: int, j: int|
                0 <= i < out@.len() && 0 <= j < input@.len() implies pod_display_le(
                out@[i],
                input@[j],
            ) by {
                if i < out@.len() - 1 {
                    let jj = if j < mi {
                        j
                    } else {
                        j + 1
                    };
                    assert(input@[j] == pre[jj]);
                } else {
                    let jj = if j < mi {
                        j
                    } else {
                        j + 1
                    };
                    assert(input@[j] == pre[jj]);
                    assert(pod_display_le(pre[mi as int], pre[jj]));
                }
            }
        }
    }
    out
}

// ---------------------------------------------------------------------------
// The status builder
// ---------------------------------------------------------------------------

/// Assembles the pods status summary from fetched records, dating pod ages
/// against `now_epoch` (seconds since the Unix epoch).
///
/// Phase counts are pinned to the records; the error list holds exactly
/// the rows of the pods the detector flags, ordered by most restarts first
/// and youngest first among equals.
pub fn get_pods_status(pods: &Vec<PodRecord>, now_epoch: i64) -> (r: PodsStatusResponse)
    ensures
        r.total_pods == pods@.len(),
        r.running_pods == pod_phase_count(pods@, PodPhaseKind::Running),
        r.pending_pods == pod_phase_count(pods@, PodPhaseKind::Pending),
        r.succeeded_pods == pod_phase_count(pods@, PodPhaseKind::Succeeded),
        r.failed_pods == pod_phase_count(pods@, PodPhaseKind::Failed),
        r.error_pods == spec_error_pod_rows(pods@, now_epoch as int).len(),
        r.pods_in_error@.len() == r.error_pods,
        r.pods_in_error@.map_values(|x: PodInfo| pod_row_of(x)).to_multiset()
            == spec_error_pod_rows(pods@, now_epoch as int).to_multiset(),
        pods_sorted(r.pods_in_error@),
{
    broadcast use vstd::seq_lib::group_to_multiset_ensures;

    let ghost all = pods@;
    let ghost now = now_epoch as int;
    let total_pods = pods.len();
    let mut running_pods: usize = 0;
    let mut pending_pods: usize = 0;
    let mut succeeded_pods: usize = 0;
    let mut failed_pods: usize = 0;
    let mut error_pods: usize = 0;
    let mut in_error: Vec<PodInfo> = Vec::new();

    let mut i: usize = 0;
    proof {
        assert(all.take(0) =~= Seq::<PodRecord>::empty());
        assert(in_error@.map_values(|x: PodInfo| pod_row_of(x)) =~= spec_error_pod_rows(
            all.take(0),
            now,
        ));
    }
    while i < total_pods
        invariant
            total_pods == all.len(),
            i <= total_pods,
            running_pods == pod_phase_count(all.take(i as int), PodPhaseKind::Running),
            pending_pods == pod_phase_count(all.take(i as int), PodPhaseKind::Pending),
            succeeded_pods == pod_phase_count(all.take(i as int), PodPhaseKind::Succeeded),
            failed_pods == pod_phase_count(all.take(i as int), PodPhaseKind::Failed),
            in_error@.map_values(|x: PodInfo| pod_row_of(x)) == spec_error_pod_rows(
                all.take(i as int),
                now,
            ),
            error_pods == spec_error_pod_rows(all.take(i as int), now).len(),
            pods@ == all,
            now == now_epoch as int,
        decreases total_pods - i,
    {
        let p = &pods[i];
        proof {
            assert(all.take(i + 1).drop_last() =~= all.take(i as int));
            assert(all.take(i + 1).last() == all[i as int]);
            lemma_phase_literals_distinct();
            lemma_pod_phase_count_le(all.take(i as int), PodPhaseKind::Running);
            lemma_pod_phase_count_le(all.take(i as int), PodPhaseKind::Pending);
            lemma_pod_phase_count_le(all.take(i as int), PodPhaseKind::Succeeded);
            lemma_pod_phase_count_le(all.take(i as int), PodPhaseKind::Failed);
            lemma_error_pod_rows_len(all.take(i as int), now);
        }
        let phase = phase_of(p);
        if str_eq(phase.as_str(), "Running") {
            running_pods += 1;
        } else if str_eq(phase.as_str(), "Pending") {
            pending_pods += 1;
        } else if str_eq(phase.as_str(), "Succeeded") {
            succeeded_pods += 1;
        } else if str_eq(phase.as_str(), "Failed") {
            failed_pods += 1;
        }

        let (is_error, reason, message) = detect_pod_error(p);
        if is_error {
            let (age, age_seconds) = pod_age(p, now_epoch);
            let restart_count = sum_restarts(&p.containers);
            let containers = build_container_infos(p);
            let info = PodInfo {
                name: p.name.clone(),
                namespace: p.namespace.clone(),
                status: phase,
                reason,
                message,
                node: p.node_name.clone(),
                restart_count,
                age,
                age_seconds,
                containers,
            };
            proof {
                assert(pod_row_of(info) == spec_pod_row(all[i as int], now));
            }
            error_pods += 1;
            in_error.push(info);
            proof {
                assert(in_error@.map_values(|x: PodInfo| pod_row_of(x)) =~= spec_error_pod_rows(
                    all.take(i + 1),
                    now,
                ));
            }
        }
        i += 1;
    }
    proof {
        assert(all.take(total_pods as int) =~= all);
    }
    let pods_in_error = sort_error_pods(in_error);
    PodsStatusResponse {
        total_pods,
        running_pods,
        pending_pods,
        succeeded_pods,
        failed_pods,
        error_pods,
        pods_in_error,
    }
}

/// Computes a pod's rendered age and age in seconds.
fn pod_age(p: &PodRecord, now_epoch: i64) -> (r: (String, i64))
    ensures
        r.0@ == spec_pod_age(*p, now_epoch as int).0,
        r.1 == spec_pod_age(*p, now_epoch as int).1,
{
    match &p.created_at {
        Some(ts) => match parse_rfc3339_seconds(ts.as_str()) {
            Some(t) => match now_epoch.checked_sub(t) {
                Some(d) => (format_age(d), d),
                None => (String::from_str("Unknown"), 0),
            },
            None => (String::from_str("Unknown"), 0),
        },
        None => (String::from_str("Unknown"), 0),
    }
}


// ---------------------------------------------------------------------------
// Force deletion
// ---------------------------------------------------------------------------

/// A request to force-delete one pod.
#[derive(Clone, Debug)]
pub struct ForceDeleteRequest {
    pub namespace: String,
    pub pod_name: String,
}

/// The reply to a force-delete request.
#[derive(Clone, Debug)]
pub struct ForceDeleteResponse {
    pub success: bool,
    pub message: String,
    pub pod_name: String,
    pub namespace: String,
}

/// The message a force deletion reports: on success it names the pod, on
/// failure it names pod, namespace and the transport's error.
pub open spec fn spec_force_delete_message(
    namespace: Seq<char>,
    pod_name: Seq<char>,
    error: Option<Seq<char>>,
) -> Seq<char> {
    match error {
        Some(e) => "Failed to delete pod "@ + namespace + "/"@ + pod_name + ": "@ + e,
        None => "Pod "@ + pod_name + " successfully force deleted"@,
    }
}

/// Builds the reply to a force-delete request from the deletion outcome.
pub fn force_delete_response(namespace: &str, pod_name: &str, error: Option<&str>) -> (r:
    ForceDeleteResponse)
    ensures
        r.success == (error is None),
        r.message@ == spec_force_delete_message(
            namespace@,
            pod_name@,
            match error {
                Some(e) => Some(e@),
                None => None,
            },
        ),
        r.pod_name@ == pod_name@,
        r.namespace@ == namespace@,
{
    match error {
        Some(e) => {
            let mut message = String::from_str("Failed to delete pod ");
            message.append(namespace);
            message.append("/");
            message.append(pod_name);
            message.append(": ");
            message.append(e);
            proof {
                assert(message@ =~= spec_force_delete_message(
                    namespace@,
                    pod_name@,
                    Some(e@),
                ));
            }
            ForceDeleteResponse {
                success: false,
                message,
                pod_name: String::from_str(pod_name),
                namespace: String::from_str(namespace),
            }
        },
        None => {
            let mut message = String::from_str("Pod ");
            message.append(pod_name);
            message.append(" successfully force deleted");
            proof {
                assert(message@ =~= spec_force_delete_message(namespace@, pod_name@, None));
            }
            ForceDeleteResponse {
                success: true,
                message,
                pod_name: String::from_str(pod_name),
                namespace: String::from_str(namespace),
            }
        },
    }
}

} // verus!

