//! Alert records and the active-alerts builder: alerts grouped by severity,
//! most recent first.

use vstd::prelude::*;
use crate::classify::opt_view;
use crate::strfmt::str_eq;
use crate::time::{parse_rfc3339_seconds, rfc3339_epoch_seconds};

verus! {

/// One alert, as delivered by the alert manager's API: labels and
/// annotations as key-value pairs, and the firing state.
#[derive(Clone, Debug)]
pub struct AmAlertRecord {
    pub labels: Vec<(String, String)>,
    pub annotations: Vec<(String, String)>,
    pub starts_at: String,
    pub ends_at: String,
    pub fingerprint: String,
    pub state: String,
}

/// One alert, ready for display.
#[derive(Clone, Debug)]
pub struct Alert {
    pub name: String,
    pub severity: String,
    pub state: String,
    pub summary: String,
    pub description: Option<String>,
    pub namespace: Option<String>,
    pub pod: Option<String>,
    pub started_at: String,
    pub fingerprint: String,
}

/// Active alerts grouped by severity.
#[derive(Clone, Debug)]
pub struct AlertsResponse {
    pub critical: Vec<Alert>,
    pub warning: Vec<Alert>,
    pub info: Vec<Alert>,
    pub total: i32,
    pub firing: i32,
    pub pending: i32,
}

/// One alert silence.
#[derive(Clone, Debug)]
pub struct Silence {
    pub id: String,
    pub matchers: Vec<SilenceMatcher>,
    pub starts_at: String,
    pub ends_at: String,
    pub created_by: String,
    pub comment: String,
    pub status: SilenceStatus,
}

#[derive(Clone, Debug)]
pub struct SilenceMatcher {
    pub name: String,
    pub value: String,
    pub is_regex: bool,
    pub is_equal: bool,
}

#[derive(Clone, Debug)]
pub struct SilenceStatus {
    pub state: String,
}

// ---------------------------------------------------------------------------
// Key-value lookup
// ---------------------------------------------------------------------------

/// The value under the first occurrence of `key`, if any.
pub open spec fn spec_lookup(kvs: Seq<(String, String)>, key: Seq<char>) -> Option<Seq<char>>
    decreases kvs.len(),
{
    if kvs.len() == 0 {
        None
    } else if kvs.first().0@ == key {
        Some(kvs.first().1@)
    } else {
        spec_lookup(kvs.drop_first(), key)
    }
}

/// Looks a key up in a key-value list, first match wins.
pub fn lookup(kvs: &Vec<(String, String)>, key: &str) -> (r: Option<String>)
    ensures
        opt_view(r) == spec_lookup(kvs@, key@),
{
    let n = kvs.len();
    let mut i: usize = 0;
    proof {
        assert(kvs@.skip(0) =~= kvs@);
    }
    while i < n
        invariant
            i <= n,
            n == kvs@.len(),
            spec_lookup(kvs@, key@) == spec_lookup(kvs@.skip(i as int), key@),
        decreases n - i,
    {
        proof {
            assert(kvs@.skip(i as int).first() == kvs@[i as int]);
            assert(kvs@.skip(i as int).drop_first() =~= kvs@.skip(i + 1));
        }
        if str_eq(kvs[i].0.as_str(), key) {
            return Some(kvs[i].1.clone());
        }
        i += 1;
    }
    proof {
        assert(kvs@.skip(n as int).len() == 0);
    }
    None
}

// ---------------------------------------------------------------------------
// Rows and derivation
// ---------------------------------------------------------------------------

#[verifier::ext_equal]
pub struct AlertRow {
    pub name: Seq<char>,
    pub severity: Seq<char>,
    pub state: Seq<char>,
    pub summary: Seq<char>,
    pub description: Option<Seq<char>>,
    pub namespace: Option<Seq<char>>,
    pub pod: Option<Seq<char>>,
    pub started_at: Seq<char>,
    pub fingerprint: Seq<char>,
}

pub open spec fn alert_row_of(x: Alert) -> AlertRow {
    AlertRow {
        name: x.name@,
        severity: x.severity@,
        state: x.state@,
        summary: x.summary@,
        description: opt_view(x.description),
        namespace: opt_view(x.namespace),
        pod: opt_view(x.pod),
        started_at: x.started_at@,
        fingerprint: x.fingerprint@,
    }
}

pub open spec fn or_view(s: Option<Seq<char>>, d: Seq<char>) -> Seq<char> {
    match s {
        Some(v) => v,
        None => d,
    }
}

/// The alert's severity; missing reads `"info"`.
pub open spec fn spec_severity_of(a: AmAlertRecord) -> Seq<char> {
    or_view(spec_lookup(a.labels@, "severity"@), "info"@)
}

/// The display row of one alert.
pub open spec fn spec_alert_row(a: AmAlertRecord) -> AlertRow {
    AlertRow {
        name: or_view(spec_lookup(a.labels@, "alertname"@), "Unknown"@),
        severity: spec_severity_of(a),
        state: a.state@,
        summary: or_view(spec_lookup(a.annotations@, "summary"@), "No summary"@),
        description: spec_lookup(a.annotations@, "description"@),
        namespace: spec_lookup(a.labels@, "namespace"@),
        pod: spec_lookup(a.labels@, "pod"@),
        started_at: a.starts_at@,
        fingerprint: a.fingerprint@,
    }
}

/// Builds the displayable alert for one record.
fn build_alert(a: &AmAlertRecord) -> (x: Alert)
    ensures
        alert_row_of(x) == spec_alert_row(*a),
        x.severity@ == spec_severity_of(*a),
        x.state@ == a.state@,
{
    let name = match lookup(&a.labels, "alertname") {
        Some(v) => v,
        None => String::from_str("Unknown"),
    };
    let severity = match lookup(&a.labels, "severity") {
        Some(v) => v,
        None => String::from_str("info"),
    };
    let summary = match lookup(&a.annotations, "summary") {
        Some(v) => v,
        None => String::from_str("No summary"),
    };
    Alert {
        name,
        severity,
        state: a.state.clone(),
        summary,
        description: lookup(&a.annotations, "description"),
        namespace: lookup(&a.labels, "namespace"),
        pod: lookup(&a.labels, "pod"),
        started_at: a.starts_at.clone(),
        fingerprint: a.fingerprint.clone(),
    }
}

// ---------------------------------------------------------------------------
// Grouping and ordering
// ---------------------------------------------------------------------------

/// The instant an alert is sorted by: its start time when it parses, else
/// `now`.
pub open spec fn spec_alert_key(x: Alert, now: int) -> int {
    match rfc3339_epoch_seconds(x.started_at@) {
        Some(t) => t,
        None => now,
    }
}

/// Display order of alerts: most recent first.
pub open spec fn alerts_sorted(s: Seq<Alert>, now: int) -> bool {
    forall|i: int, j: int|
        0 <= i < j < s.len() ==> spec_alert_key(#[trigger] s[i], now) >= spec_alert_key(
            #[trigger] s[j],
            now,
        )
}

fn alert_key(x: &Alert, now_epoch: i64) -> (k: i64)
    ensures
        k as int == spec_alert_key(*x, now_epoch as int),
{
    match parse_rfc3339_seconds(x.started_at.as_str()) {
        Some(t) => t,
        None => now_epoch,
    }
}

/// Sorts alerts most recent first, keeping exactly the same rows.
fn sort_alerts(v: Vec<Alert>, now_epoch: i64) -> (r: Vec<Alert>)
    ensures
        r@.map_values(|x: Alert| alert_row_of(x)).to_multiset() == v@.map_values(
            |x: Alert| alert_row_of(x),
        ).to_multiset(),
        alerts_sorted(r@, now_epoch as int),
        r@.len() == v@.len(),
{
    broadcast use vstd::seq_lib::group_to_multiset_ensures;

    let ghost now = now_epoch as int;
    let ghost orig = v@.map_values(|x: Alert| alert_row_of(x)).to_multiset();
    let mut input = v;
    let mut out: Vec<Alert> = Vec::new();
    while input.len() > 0
        invariant
            out@.map_values(|x: Alert| alert_row_of(x)).to_multiset().add(
                input@.map_values(|x: Alert| alert_row_of(x)).to_multiset(),
            ) =~= orig,
            out@.len() + input@.len() == orig.len(),
            alerts_sorted(out@, now),
            forall|i: int, j: int|
                0 <= i < out@.len() && 0 <= j < input@.len() ==> spec_alert_key(
                    #[trigger] out@[i],
                    now,
                ) >= spec_alert_key(#[trigger] input@[j], now),
            now == now_epoch as int,
        decreases input@.len(),
    {
        let mut mi: usize = 0;
        let mut k: usize = 1;
        while k < input.len()
            invariant
                mi < input@.len(),
                k <= input@.len(),
                forall|t: int|
                    0 <= t < k ==> spec_alert_key(input@[mi as int], now) >= spec_alert_key(
                        #[trigger] input@[t],
                        now,
                    ),
                now == now_epoch as int,
            decreases input@.len() - k,
        {
            if alert_key(&input[k], now_epoch) > alert_key(&input[mi], now_epoch) {
                mi = k;
            }
            k += 1;
        }
        let ghost pre = input@;
        let ghost out_pre = out@;
        let x = input.remove(mi);
        out.push(x);
        proof {
            let ghost row = alert_row_of(x);
            let ghost m_pre = pre.map_values(|y: Alert| alert_row_of(y));
            let ghost m_in = input@.map_values(|y: Alert| alert_row_of(y));
            let ghost m_out_pre = out_pre.map_values(|y: Alert| alert_row_of(y));
            let ghost m_out = out@.map_values(|y: Alert| alert_row_of(y));
            assert(input@ == pre.remove(mi as int));
            assert(m_pre[mi as int] == row);
            assert forall|t: int| 0 <= t < m_in.len() implies m_in[t] == #[trigger] m_pre.remove(
                mi as int,
            )[t] by {
                if t < mi {
                    assert(input@[t] == pre[t]);
                    assert(m_in[t] == alert_row_of(input@[t]));
                    assert(m_pre[t] == alert_row_of(pre[t]));
                } else {
                    assert(input@[t] == pre[t + 1]);
                    assert(m_in[t] == alert_row_of(input@[t]));
                    assert(m_pre[t + 1] == alert_row_of(pre[t + 1]));
                }
            }
            assert(m_in =~= m_pre.remove(mi as int));
            vstd::seq_lib::to_multiset_remove(m_pre, mi as int);
            assert(out@ == out_pre.push(x));
            assert forall|t: int| 0 <= t < m_out.len() implies m_out[t]
                == #[trigger] m_out_pre.push(row)[t] by {
                if t < m_out_pre.len() {
                    assert(out@[t] == out_pre[t]);
                    assert(m_out[t] == alert_row_of(out@[t]));
                    assert(m_out_pre[t] == alert_row_of(out_pre[t]));
                } else {
                    assert(out@[t] == x);
                    assert(m_out[t] == alert_row_of(out@[t]));
                }
            }
            assert(m_out =~= m_out_pre.push(row));
            vstd::seq_lib::to_multiset_build(m_out_pre, row);
            vstd::seq_lib::to_multiset_contains(m_pre, row);
            assert(m_pre.to_multiset().count(row) > 0) by {
                assert(m_pre[mi as int] == row);
                assert(m_pre.contains(row));
            }
            assert(m_out.to_multiset().add(m_in.to_multiset()) =~= m_out_pre.to_multiset().add(
                m_pre.to_multiset(),
            ));
            assert forall|i: int, j: int|
                0 <= i < out@.len() && 0 <= j < input@.len() implies spec_alert_key(
                #[trigger] out@[i],
                now,
            ) >= spec_alert_key(#[trigger] input@[j], now) by {
                let jj = if j < mi {
                    j
                } else {
                    j + 1
                };
                assert(input@[j] == pre[jj]);
                if i == out@.len() - 1 {
                    assert(spec_alert_key(pre[mi as int], now) >= spec_alert_key(pre[jj], now));
                }
            }
        }
    }
    out
}

// ---------------------------------------------------------------------------
// Counting and the builder
// ---------------------------------------------------------------------------

/// The severity group an alert lands in.
pub enum SeverityKind {
    Critical,
    Warning,
    Info,
}

pub open spec fn severity_matches(a: AmAlertRecord, k: SeverityKind) -> bool {
    match k {
        SeverityKind::Critical => spec_severity_of(a) == "critical"@,
        SeverityKind::Warning => spec_severity_of(a) == "warning"@,
        SeverityKind::Info => spec_severity_of(a) != "critical"@ && spec_severity_of(a)
            != "warning"@,
    }
}

/// Number of alerts in a severity group.
pub open spec fn severity_count(s: Seq<AmAlertRecord>, k: SeverityKind) -> nat
    decreases s.len(),
{
    if s.len() == 0 {
        0
    } else {
        severity_count(s.drop_last(), k) + (if severity_matches(s.last(), k) {
            1nat
        } else {
            0nat
        })
    }
}

/// Number of firing alerts; the rest count as pending.
pub open spec fn firing_count(s: Seq<AmAlertRecord>) -> nat
    decreases s.len(),
{
    if s.len() == 0 {
        0
    } else {
        firing_count(s.drop_last()) + (if s.last().state@ == "firing"@ {
            1nat
        } else {
            0nat
        })
    }
}

/// Every alert lands in exactly one severity group.
proof fn lemma_severity_partition(s: Seq<AmAlertRecord>)
    ensures
        severity_count(s, SeverityKind::Critical) + severity_count(s, SeverityKind::Warning)
            + severity_count(s, SeverityKind::Info) == s.len(),
    decreases s.len(),
{
    if s.len() > 0 {
        lemma_severity_partition(s.drop_last());
        reveal_strlit("critical");
        reveal_strlit("warning");
        assert("critical"@.len() == 8);
        assert("warning"@.len() == 7);
    }
}

proof fn lemma_alert_counts_le(s: Seq<AmAlertRecord>, k: SeverityKind)
    ensures
        severity_count(s, k) <= s.len(),
        firing_count(s) <= s.len(),
    decreases s.len(),
{
    if s.len() > 0 {
        lemma_alert_counts_le(s.drop_last(), k);
    }
}

/// Rows of one severity group, in input order.
pub open spec fn spec_severity_rows(s: Seq<AmAlertRecord>, k: SeverityKind) -> Seq<AlertRow>
    decreases s.len(),
{
    if s.len() == 0 {
        Seq::<AlertRow>::empty()
    } else {
        let prev = spec_severity_rows(s.drop_last(), k);
        if severity_matches(s.last(), k) {
            prev.push(spec_alert_row(s.last()))
        } else {
            prev
        }
    }
}

/// A count clamped into `i32` range.
pub open spec fn clamp_i32(v: int) -> int {
    if v > i32::MAX as int {
        i32::MAX as int
    } else {
        v
    }
}

fn usize_to_i32_clamped(v: usize) -> (r: i32)
    ensures
        r as int == clamp_i32(v as int),
{
    if v > 0x7fff_ffff {
        i32::MAX
    } else {
        v as i32
    }
}

/// Groups fetched alerts by severity, most recent first within each group,
/// and counts firing and pending ones; `now_epoch` stands in for alerts
/// whose start time does not parse.
pub fn get_active_alerts(alerts: &Vec<AmAlertRecord>, now_epoch: i64) -> (r: AlertsResponse)
    ensures
        r.critical@.map_values(|x: Alert| alert_row_of(x)).to_multiset() == spec_severity_rows(
            alerts@,
            SeverityKind::Critical,
        ).to_multiset(),
        r.warning@.map_values(|x: Alert| alert_row_of(x)).to_multiset() == spec_severity_rows(
            alerts@,
            SeverityKind::Warning,
        ).to_multiset(),
        r.info@.map_values(|x: Alert| alert_row_of(x)).to_multiset() == spec_severity_rows(
            alerts@,
            SeverityKind::Info,
        ).to_multiset(),
        alerts_sorted(r.critical@, now_epoch as int),
        alerts_sorted(r.warning@, now_epoch as int),
        alerts_sorted(r.info@, now_epoch as int),
        r.critical@.len() == severity_count(alerts@, SeverityKind::Critical),
        r.warning@.len() == severity_count(alerts@, SeverityKind::Warning),
        r.info@.len() == severity_count(alerts@, SeverityKind::Info),
        r.total as int == clamp_i32(
            severity_count(alerts@, SeverityKind::Critical) + severity_count(
                alerts@,
                SeverityKind::Warning,
            ) + severity_count(alerts@, SeverityKind::Info) as int,
        ),
        r.firing as int == clamp_i32(firing_count(alerts@) as int),
        r.pending as int == clamp_i32(alerts@.len() - firing_count(alerts@)),
{
    broadcast use vstd::seq_lib::group_to_multiset_ensures;

    let ghost all = alerts@;
    let n = alerts.len();
    let mut critical: Vec<Alert> = Vec::new();
    let mut warning: Vec<Alert> = Vec::new();
    let mut info: Vec<Alert> = Vec::new();
    let mut firing: usize = 0;
    let mut pending: usize = 0;
    let mut i: usize = 0;
    proof {
        assert(all.take(0) =~= Seq::<AmAlertRecord>::empty());
        assert(critical@.map_values(|x: Alert| alert_row_of(x)) =~= spec_severity_rows(
            all.take(0),
            SeverityKind::Critical,
        ));
        assert(warning@.map_values(|x: Alert| alert_row_of(x)) =~= spec_severity_rows(
            all.take(0),
            SeverityKind::Warning,
        ));
        assert(info@.map_values(|x: Alert| alert_row_of(x)) =~= spec_severity_rows(
            all.take(0),
            SeverityKind::Info,
        ));
        reveal_strlit("critical");
        reveal_strlit("warning");
        assert("critical"@.len() == 8);
        assert("warning"@.len() == 7);
    }
    while i < n
        invariant
            n == all.len(),
            i <= n,
            critical@.map_values(|x: Alert| alert_row_of(x)) == spec_severity_rows(
                all.take(i as int),
                SeverityKind::Critical,
            ),
            warning@.map_values(|x: Alert| alert_row_of(x)) == spec_severity_rows(
                all.take(i as int),
                SeverityKind::Warning,
            ),
            info@.map_values(|x: Alert| alert_row_of(x)) == spec_severity_rows(
                all.take(i as int),
                SeverityKind::Info,
            ),
            critical@.len() == severity_count(all.take(i as int), SeverityKind::Critical),
            warning@.len() == severity_count(all.take(i as int), SeverityKind::Warning),
            info@.len() == severity_count(all.take(i as int), SeverityKind::Info),
            firing == firing_count(all.take(i as int)),
            firing + pending == i,
            alerts@ == all,
            "critical"@ != "warning"@,
        decreases n - i,
    {
        let a = &alerts[i];
        proof {
            assert(all.take(i + 1).drop_last() =~= all.take(i as int));
            assert(all.take(i + 1).last() == all[i as int]);
            lemma_alert_counts_le(all.take(i as int), SeverityKind::Critical);
            lemma_alert_counts_le(all.take(i as int), SeverityKind::Warning);
            lemma_alert_counts_le(all.take(i as int), SeverityKind::Info);
        }
        let alert = build_alert(a);
        if str_eq(alert.state.as_str(), "firing") {
            firing += 1;
        } else {
            pending += 1;
        }
        if str_eq(alert.severity.as_str(), "critical") {
            critical.push(alert);
            proof {
                assert(critical@.map_values(|x: Alert| alert_row_of(x)) =~= spec_severity_rows(
                    all.take(i + 1),
                    SeverityKind::Critical,
                ));
            }
        } else if str_eq(alert.severity.as_str(), "warning") {
            warning.push(alert);
            proof {
                assert(warning@.map_values(|x: Alert| alert_row_of(x)) =~= spec_severity_rows(
                    all.take(i + 1),
                    SeverityKind::Warning,
                ));
            }
        } else {
            info.push(alert);
            proof {
                assert(info@.map_values(|x: Alert| alert_row_of(x)) =~= spec_severity_rows(
                    all.take(i + 1),
                    SeverityKind::Info,
                ));
            }
        }
        i += 1;
    }
    proof {
        assert(all.take(n as int) =~= all);
    }
    proof {
        lemma_severity_partition(all);
    }
    let total = usize_to_i32_clamped(n);
    let critical_sorted = sort_alerts(critical, now_epoch);
    let warning_sorted = sort_alerts(warning, now_epoch);
    let info_sorted = sort_alerts(info, now_epoch);
    AlertsResponse {
        critical: critical_sorted,
        warning: warning_sorted,
        info: info_sorted,
        total,
        firing: usize_to_i32_clamped(firing),
        pending: usize_to_i32_clamped(pending),
    }
}

} // verus!
