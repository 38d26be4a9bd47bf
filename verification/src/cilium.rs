//! Network flow visualisation: sample flows, the flow matrix, anomaly
//! screening, and CSV export of both.

use vstd::prelude::*;
use crate::strfmt::{contains_sub, dec_str, str_contains, str_eq, u64_to_string};

verus! {

/// One network flow between two pods.
#[derive(Clone, Debug)]
pub struct NetworkFlow {
    pub source_namespace: String,
    pub source_pod: String,
    pub source_labels: Vec<String>,
    pub destination_namespace: String,
    pub destination_pod: String,
    pub destination_labels: Vec<String>,
    pub destination_port: u16,
    pub protocol: String,
    pub verdict: String,
    pub bytes_sent: u64,
    pub bytes_received: u64,
    pub last_seen: String,
}

/// Aggregated flows between two endpoints.
#[derive(Clone, Debug)]
pub struct FlowMatrixEntry {
    pub source: String,
    pub destination: String,
    pub protocol: String,
    pub port: u16,
    pub flow_count: u64,
    pub bytes_total: u64,
    pub verdict: String,
}

/// Flows, their matrix, and the namespaces seen.
#[derive(Clone, Debug)]
pub struct HubbleFlowsResponse {
    pub total_flows: u64,
    pub flows: Vec<NetworkFlow>,
    pub matrix: Vec<FlowMatrixEntry>,
    pub namespaces: Vec<String>,
    pub timestamp: String,
}

/// One screened network anomaly.
#[derive(Clone, Debug)]
pub struct NetworkAnomaly {
    pub anomaly_type: String,
    pub severity: String,
    pub source: String,
    pub destination: String,
    pub description: String,
    pub timestamp: String,
}

/// A network policy, simplified.
#[derive(Clone, Debug)]
pub struct CiliumNetworkPolicy {
    pub name: String,
    pub namespace: String,
    pub spec_json: String,
    pub endpoints_matched: i32,
    pub enabled: bool,
}

/// Export parameters.
#[derive(Clone, Debug)]
pub struct ExportOptions {
    pub format: String,
    pub namespace: Option<String>,
    pub limit: Option<usize>,
}

// ---------------------------------------------------------------------------
// Sample flows
// ---------------------------------------------------------------------------

/// One line of the sample-flow table.
pub struct SampleFlow {
    pub src_ns: Seq<char>,
    pub src_pod: Seq<char>,
    pub dst_ns: Seq<char>,
    pub dst_pod: Seq<char>,
    pub port: int,
    pub proto: Seq<char>,
    pub bytes: int,
}

/// The fixed sample-flow table.
pub open spec fn spec_sample(k: int) -> SampleFlow {
    if k == 0 {
        SampleFlow {
            src_ns: "argocd"@,
            src_pod: "argocd-server"@,
            dst_ns: "kusanagi"@,
            dst_pod: "kusanagi-app"@,
            port: 8080,
            proto: "TCP"@,
            bytes: 1024,
        }
    } else if k == 1 {
        SampleFlow {
            src_ns: "monitoring"@,
            src_pod: "prometheus"@,
            dst_ns: "kusanagi"@,
            dst_pod: "kusanagi-app"@,
            port: 8080,
            proto: "TCP"@,
            bytes: 2048,
        }
    } else if k == 2 {
        SampleFlow {
            src_ns: "default"@,
            src_pod: "nginx"@,
            dst_ns: "kube-system"@,
            dst_pod: "coredns"@,
            port: 53,
            proto: "UDP"@,
            bytes: 256,
        }
    } else if k == 3 {
        SampleFlow {
            src_ns: "n8n"@,
            src_pod: "n8n-main"@,
            dst_ns: "minio"@,
            dst_pod: "minio-api"@,
            port: 9000,
            proto: "TCP"@,
            bytes: 4096,
        }
    } else {
        SampleFlow {
            src_ns: "paperless"@,
            src_pod: "paperless-web"@,
            dst_ns: "monitoring"@,
            dst_pod: "grafana"@,
            port: 3000,
            proto: "TCP"@,
            bytes: 512,
        }
    }
}

/// A sample passes the namespace filter when no filter is given or the
/// namespace matches either end.
pub open spec fn spec_sample_included(k: int, ns: Option<Seq<char>>) -> bool {
    match ns {
        Some(f) => spec_sample(k).src_ns == f || spec_sample(k).dst_ns == f,
        None => true,
    }
}

#[verifier::ext_equal]
pub struct FlowRow {
    pub source_namespace: Seq<char>,
    pub source_pod: Seq<char>,
    pub source_labels: Seq<Seq<char>>,
    pub destination_namespace: Seq<char>,
    pub destination_pod: Seq<char>,
    pub destination_labels: Seq<Seq<char>>,
    pub destination_port: int,
    pub protocol: Seq<char>,
    pub verdict: Seq<char>,
    pub bytes_sent: int,
    pub bytes_received: int,
    pub last_seen: Seq<char>,
}

#[verifier::ext_equal]
pub struct MatrixRow {
    pub source: Seq<char>,
    pub destination: Seq<char>,
    pub protocol: Seq<char>,
    pub port: int,
    pub flow_count: int,
    pub bytes_total: int,
    pub verdict: Seq<char>,
}

pub open spec fn flow_row_of(f: NetworkFlow) -> FlowRow {
    FlowRow {
        source_namespace: f.source_namespace@,
        source_pod: f.source_pod@,
        source_labels: f.source_labels@.map_values(|s: String| s@),
        destination_namespace: f.destination_namespace@,
        destination_pod: f.destination_pod@,
        destination_labels: f.destination_labels@.map_values(|s: String| s@),
        destination_port: f.destination_port as int,
        protocol: f.protocol@,
        verdict: f.verdict@,
        bytes_sent: f.bytes_sent as int,
        bytes_received: f.bytes_received as int,
        last_seen: f.last_seen@,
    }
}

pub open spec fn matrix_row_of(e: FlowMatrixEntry) -> MatrixRow {
    MatrixRow {
        source: e.source@,
        destination: e.destination@,
        protocol: e.protocol@,
        port: e.port as int,
        flow_count: e.flow_count as int,
        bytes_total: e.bytes_total as int,
        verdict: e.verdict@,
    }
}

/// The flow a sample line gives rise to.
pub open spec fn spec_sample_flow_row(k: int, ts: Seq<char>) -> FlowRow {
    let s = spec_sample(k);
    FlowRow {
        source_namespace: s.src_ns,
        source_pod: s.src_pod,
        source_labels: seq!["app="@ + s.src_pod],
        destination_namespace: s.dst_ns,
        destination_pod: s.dst_pod,
        destination_labels: seq!["app="@ + s.dst_pod],
        destination_port: s.port,
        protocol: s.proto,
        verdict: "FORWARDED"@,
        bytes_sent: s.bytes,
        bytes_received: s.bytes / 2,
        last_seen: ts,
    }
}

/// The matrix entry a sample line gives rise to.
pub open spec fn spec_sample_matrix_row(k: int) -> MatrixRow {
    let s = spec_sample(k);
    MatrixRow {
        source: s.src_ns + "/"@ + s.src_pod,
        destination: s.dst_ns + "/"@ + s.dst_pod,
        protocol: s.proto,
        port: s.port,
        flow_count: 100,
        bytes_total: s.bytes * 100,
        verdict: "FORWARDED"@,
    }
}

/// Rows of the included samples among the first `k`, capped at `limit`.
pub open spec fn spec_flow_rows(k: int, ns: Option<Seq<char>>, ts: Seq<char>, limit: int)
    -> Seq<FlowRow>
    decreases k,
{
    if k <= 0 {
        Seq::<FlowRow>::empty()
    } else {
        let prev = spec_flow_rows(k - 1, ns, ts, limit);
        if spec_sample_included(k - 1, ns) && prev.len() < limit {
            prev.push(spec_sample_flow_row(k - 1, ts))
        } else {
            prev
        }
    }
}

/// Matrix rows of the included samples among the first `k`.
pub open spec fn spec_matrix_rows(k: int, ns: Option<Seq<char>>) -> Seq<MatrixRow>
    decreases k,
{
    if k <= 0 {
        Seq::<MatrixRow>::empty()
    } else {
        let prev = spec_matrix_rows(k - 1, ns);
        if spec_sample_included(k - 1, ns) {
            prev.push(spec_sample_matrix_row(k - 1))
        } else {
            prev
        }
    }
}

pub open spec fn spec_opt_str_view(s: Option<&str>) -> Option<Seq<char>> {
    match s {
        Some(v) => Some(v@),
        None => None,
    }
}

fn sample_parts(k: usize) -> (r: (&'static str, &'static str, &'static str, &'static str, u16,
    &'static str, u64))
    requires
        k < 5,
    ensures
        r.0@ == spec_sample(k as int).src_ns,
        r.1@ == spec_sample(k as int).src_pod,
        r.2@ == spec_sample(k as int).dst_ns,
        r.3@ == spec_sample(k as int).dst_pod,
        r.4 as int == spec_sample(k as int).port,
        r.5@ == spec_sample(k as int).proto,
        r.6 as int == spec_sample(k as int).bytes,
{
    if k == 0 {
        ("argocd", "argocd-server", "kusanagi", "kusanagi-app", 8080, "TCP", 1024)
    } else if k == 1 {
        ("monitoring", "prometheus", "kusanagi", "kusanagi-app", 8080, "TCP", 2048)
    } else if k == 2 {
        ("default", "nginx", "kube-system", "coredns", 53, "UDP", 256)
    } else if k == 3 {
        ("n8n", "n8n-main", "minio", "minio-api", 9000, "TCP", 4096)
    } else {
        ("paperless", "paperless-web", "monitoring", "grafana", 3000, "TCP", 512)
    }
}

/// Builds the sample flows and their matrix, filtered to a namespace when
/// one is given and with at most `limit` flows, dated `timestamp`.
pub fn get_mock_flows(namespace: Option<&str>, limit: usize, timestamp: &str) -> (r:
    HubbleFlowsResponse)
    ensures
        r.flows@.map_values(|f: NetworkFlow| flow_row_of(f)) == spec_flow_rows(
            5,
            spec_opt_str_view(namespace),
            timestamp@,
            limit as int,
        ),
        r.matrix@.map_values(|e: FlowMatrixEntry| matrix_row_of(e)) == spec_matrix_rows(
            5,
            spec_opt_str_view(namespace),
        ),
        r.total_flows == r.flows@.len(),
        r.namespaces@.map_values(|s: String| s@) == seq![
            "default"@,
            "kube-system"@,
            "argocd"@,
            "monitoring"@,
            "kusanagi"@,
            "n8n"@,
            "paperless"@,
            "minio"@,
        ],
        r.timestamp@ == timestamp@,
{
    let ghost ns_v = spec_opt_str_view(namespace);
    let mut flows: Vec<NetworkFlow> = Vec::new();
    let mut matrix: Vec<FlowMatrixEntry> = Vec::new();
    let mut k: usize = 0;
    proof {
        assert(flows@.map_values(|f: NetworkFlow| flow_row_of(f)) =~= spec_flow_rows(
            0,
            ns_v,
            timestamp@,
            limit as int,
        ));
        assert(matrix@.map_values(|e: FlowMatrixEntry| matrix_row_of(e)) =~= spec_matrix_rows(
            0,
            ns_v,
        ));
    }
    while k < 5
        invariant
            k <= 5,
            ns_v == spec_opt_str_view(namespace),
            flows@.map_values(|f: NetworkFlow| flow_row_of(f)) == spec_flow_rows(
                k as int,
                ns_v,
                timestamp@,
                limit as int,
            ),
            matrix@.map_values(|e: FlowMatrixEntry| matrix_row_of(e)) == spec_matrix_rows(
                k as int,
                ns_v,
            ),
            flows@.len() <= limit,
        decreases 5 - k,
    {
        let (src_ns, src_pod, dst_ns, dst_pod, port, proto, bytes) = sample_parts(k);
        let included = match namespace {
            Some(f) => str_eq(f, src_ns) || str_eq(f, dst_ns),
            None => true,
        };
        if included {
            if flows.len() < limit {
                let mut src_label = String::from_str("app=");
                src_label.append(src_pod);
                let mut dst_label = String::from_str("app=");
                dst_label.append(dst_pod);
                let mut source_labels: Vec<String> = Vec::new();
                source_labels.push(src_label);
                let mut destination_labels: Vec<String> = Vec::new();
                destination_labels.push(dst_label);
                let flow = NetworkFlow {
                    source_namespace: String::from_str(src_ns),
                    source_pod: String::from_str(src_pod),
                    source_labels,
                    destination_namespace: String::from_str(dst_ns),
                    destination_pod: String::from_str(dst_pod),
                    destination_labels,
                    destination_port: port,
                    protocol: String::from_str(proto),
                    verdict: String::from_str("FORWARDED"),
                    bytes_sent: bytes,
                    bytes_received: bytes / 2,
                    last_seen: String::from_str(timestamp),
                };
                proof {
                    assert(flow_row_of(flow).source_labels =~= seq![
                        "app="@ + spec_sample(k as int).src_pod,
                    ]);
                    assert(flow_row_of(flow).destination_labels =~= seq![
                        "app="@ + spec_sample(k as int).dst_pod,
                    ]);
                    assert(flow_row_of(flow) =~= spec_sample_flow_row(k as int, timestamp@));
                }
                flows.push(flow);
                proof {
                    assert(flows@.map_values(|f: NetworkFlow| flow_row_of(f)) =~= spec_flow_rows(
                        k + 1,
                        ns_v,
                        timestamp@,
                        limit as int,
                    ));
                }
            }
            let mut source = String::from_str(src_ns);
            source.append("/");
            source.append(src_pod);
            let mut destination = String::from_str(dst_ns);
            destination.append("/");
            destination.append(dst_pod);
            let entry = FlowMatrixEntry {
                source,
                destination,
                protocol: String::from_str(proto),
                port,
                flow_count: 100,
                bytes_total: bytes * 100,
                verdict: String::from_str("FORWARDED"),
            };
            proof {
                assert(matrix_row_of(entry) =~= spec_sample_matrix_row(k as int));
            }
            matrix.push(entry);
            proof {
                assert(matrix@.map_values(|e: FlowMatrixEntry| matrix_row_of(e))
                    =~= spec_matrix_rows(k + 1, ns_v));
            }
        }
        k += 1;
    }
    let mut namespaces: Vec<String> = Vec::new();
    namespaces.push(String::from_str("default"));
    namespaces.push(String::from_str("kube-system"));
    namespaces.push(String::from_str("argocd"));
    namespaces.push(String::from_str("monitoring"));
    namespaces.push(String::from_str("kusanagi"));
    namespaces.push(String::from_str("n8n"));
    namespaces.push(String::from_str("paperless"));
    namespaces.push(String::from_str("minio"));
    proof {
        assert(namespaces@.map_values(|s: String| s@) =~= seq![
            "default"@,
            "kube-system"@,
            "argocd"@,
            "monitoring"@,
            "kusanagi"@,
            "n8n"@,
            "paperless"@,
            "minio"@,
        ]);
    }
    let total_flows = flows.len() as u64;
    HubbleFlowsResponse {
        total_flows,
        flows,
        matrix,
        namespaces,
        timestamp: String::from_str(timestamp),
    }
}

// ---------------------------------------------------------------------------
// Anomaly screening
// ---------------------------------------------------------------------------

/// The sample anomaly's source and destination.
pub open spec fn spec_anomaly_source() -> Seq<char> {
    "unknown-pod/default"@
}

pub open spec fn spec_anomaly_destination() -> Seq<char> {
    "argocd-server/argocd"@
}

/// The screened anomaly list is non-empty exactly when no namespace
/// filter is given, or the filter occurs in the sample's source or
/// destination.
pub open spec fn spec_anomaly_kept(ns: Option<Seq<char>>) -> bool {
    match ns {
        Some(f) => contains_sub(spec_anomaly_source(), f) || contains_sub(
            spec_anomaly_destination(),
            f,
        ),
        None => true,
    }
}

/// Screens for network anomalies; the sample finding is kept when it
/// touches the given namespace.
pub fn detect_anomalies(namespace: Option<&str>, timestamp: &str) -> (r: Vec<NetworkAnomaly>)
    ensures
        spec_anomaly_kept(spec_opt_str_view(namespace)) ==> r@.len() == 1 && {
            let a = r@[0];
            &&& a.anomaly_type@ == "unexpected_flow"@
            &&& a.severity@ == "medium"@
            &&& a.source@ == spec_anomaly_source()
            &&& a.destination@ == spec_anomaly_destination()
            &&& a.description@ == "Unexpected traffic from unknown source to ArgoCD"@
            &&& a.timestamp@ == timestamp@
        },
        !spec_anomaly_kept(spec_opt_str_view(namespace)) ==> r@.len() == 0,
{
    let source = String::from_str("unknown-pod/default");
    let destination = String::from_str("argocd-server/argocd");
    let kept = match namespace {
        Some(f) => str_contains(source.as_str(), f) || str_contains(destination.as_str(), f),
        None => true,
    };
    let mut r: Vec<NetworkAnomaly> = Vec::new();
    if kept {
        r.push(
            NetworkAnomaly {
                anomaly_type: String::from_str("unexpected_flow"),
                severity: String::from_str("medium"),
                source,
                destination,
                description: String::from_str(
                    "Unexpected traffic from unknown source to ArgoCD",
                ),
                timestamp: String::from_str(timestamp),
            },
        );
    }
    r
}

// ---------------------------------------------------------------------------
// CSV export
// ---------------------------------------------------------------------------

/// One flow's CSV line.
pub open spec fn spec_flow_csv_line(f: NetworkFlow) -> Seq<char> {
    f.source_namespace@ + ","@ + f.source_pod@ + ","@ + f.destination_namespace@ + ","@
        + f.destination_pod@ + ","@ + dec_str(f.destination_port as nat) + ","@ + f.protocol@
        + ","@ + f.verdict@ + ","@ + dec_str(f.bytes_sent as nat) + ","@ + dec_str(
        f.bytes_received as nat,
    ) + "\n"@
}

/// The flow CSV: a header, then one line per flow.
pub open spec fn spec_flows_csv(flows: Seq<NetworkFlow>) -> Seq<char>
    decreases flows.len(),
{
    if flows.len() == 0 {
        Seq::<char>::empty()
    } else {
        spec_flows_csv(flows.drop_last()) + spec_flow_csv_line(flows.last())
    }
}

/// Renders flows as CSV.
pub fn export_flows_csv(flows: &HubbleFlowsResponse) -> (csv: String)
    ensures
        csv@
            == "source_namespace,source_pod,destination_namespace,destination_pod,port,protocol,verdict,bytes_sent,bytes_received\n"@
            + spec_flows_csv(flows.flows@),
{
    let mut csv = String::from_str(
        "source_namespace,source_pod,destination_namespace,destination_pod,port,protocol,verdict,bytes_sent,bytes_received\n",
    );
    let ghost head = csv@;
    let n = flows.flows.len();
    let mut i: usize = 0;
    proof {
        assert(csv@ =~= head + spec_flows_csv(flows.flows@.take(0)));
    }
    while i < n
        invariant
            i <= n,
            n == flows.flows@.len(),
            csv@ == head + spec_flows_csv(flows.flows@.take(i as int)),
        decreases n - i,
    {
        proof {
            assert(flows.flows@.take(i + 1).drop_last() =~= flows.flows@.take(i as int));
            assert(flows.flows@.take(i + 1).last() == flows.flows@[i as int]);
        }
        let line = flow_csv_line(&flows.flows[i]);
        csv.append(line.as_str());
        i += 1;
    }
    proof {
        assert(flows.flows@.take(n as int) =~= flows.flows@);
    }
    csv
}

fn flow_csv_line(f: &NetworkFlow) -> (line: String)
    ensures
        line@ == spec_flow_csv_line(*f),
{
    let mut line = String::new();
    line.append(f.source_namespace.as_str());
    line.append(",");
    line.append(f.source_pod.as_str());
    line.append(",");
    line.append(f.destination_namespace.as_str());
    line.append(",");
    line.append(f.destination_pod.as_str());
    line.append(",");
    let v = u64_to_string(f.destination_port as u64);
    line.append(v.as_str());
    line.append(",");
    line.append(f.protocol.as_str());
    line.append(",");
    line.append(f.verdict.as_str());
    line.append(",");
    let v = u64_to_string(f.bytes_sent);
    line.append(v.as_str());
    line.append(",");
    let v = u64_to_string(f.bytes_received);
    line.append(v.as_str());
    line.append("\n");
    proof {
        assert(line@ =~= spec_flow_csv_line(*f));
    }
    line
}

/// One matrix entry's CSV line.
pub open spec fn spec_matrix_csv_line(e: FlowMatrixEntry) -> Seq<char> {
    e.source@ + ","@ + e.destination@ + ","@ + e.protocol@ + ","@ + dec_str(e.port as nat)
        + ","@ + dec_str(e.flow_count as nat) + ","@ + dec_str(e.bytes_total as nat) + ","@
        + e.verdict@ + "\n"@
}

/// The matrix CSV body.
pub open spec fn spec_matrix_csv(entries: Seq<FlowMatrixEntry>) -> Seq<char>
    decreases entries.len(),
{
    if entries.len() == 0 {
        Seq::<char>::empty()
    } else {
        spec_matrix_csv(entries.drop_last()) + spec_matrix_csv_line(entries.last())
    }
}

/// Renders the flow matrix as CSV.
pub fn export_matrix_csv(matrix: &Vec<FlowMatrixEntry>) -> (csv: String)
    ensures
        csv@ == "source,destination,protocol,port,flow_count,bytes_total,verdict\n"@
            + spec_matrix_csv(matrix@),
{
    let mut csv = String::from_str("source,destination,protocol,port,flow_count,bytes_total,verdict\n");
    let ghost head = csv@;
    let n = matrix.len();
    let mut i: usize = 0;
    proof {
        assert(csv@ =~= head + spec_matrix_csv(matrix@.take(0)));
    }
    while i < n
        invariant
            i <= n,
            n == matrix@.len(),
            csv@ == head + spec_matrix_csv(matrix@.take(i as int)),
        decreases n - i,
    {
        proof {
            assert(matrix@.take(i + 1).drop_last() =~= matrix@.take(i as int));
            assert(matrix@.take(i + 1).last() == matrix@[i as int]);
        }
        let line = matrix_csv_line(&matrix[i]);
        csv.append(line.as_str());
        i += 1;
    }
    proof {
        assert(matrix@.take(n as int) =~= matrix@);
    }
    csv
}

fn matrix_csv_line(e: &FlowMatrixEntry) -> (line: String)
    ensures
        line@ == spec_matrix_csv_line(*e),
{
    let mut line = String::new();
    line.append(e.source.as_str());
    line.append(",");
    line.append(e.destination.as_str());
    line.append(",");
    line.append(e.protocol.as_str());
    line.append(",");
    let v = u64_to_string(e.port as u64);
    line.append(v.as_str());
    line.append(",");
    let v = u64_to_string(e.flow_count);
    line.append(v.as_str());
    line.append(",");
    let v = u64_to_string(e.bytes_total);
    line.append(v.as_str());
    line.append(",");
    line.append(e.verdict.as_str());
    line.append("\n");
    proof {
        assert(line@ =~= spec_matrix_csv_line(*e));
    }
    line
}

} // verus!
