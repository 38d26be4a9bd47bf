//! Scheduled-job records and the backups status builder.

use vstd::prelude::*;
use crate::classify::opt_view;
use crate::duration::{format_duration, format_job_duration, spec_format_duration, spec_format_job_duration};
use crate::events::{lemma_opt_lex_le_refl, lemma_opt_lex_le_total, lemma_opt_lex_le_trans, opt_lex_le};
use crate::strfmt::{lemma_lex_le_antisym, lemma_lex_le_refl, lemma_lex_le_total, lemma_lex_le_trans, lex_le, str_eq, str_le};
use crate::time::{parse_rfc3339_seconds, rfc3339_epoch_seconds};

verus! {

/// One scheduled job, as read from the control plane.
#[derive(Clone, Debug)]
pub struct CronJobRecord {
    pub name: Option<String>,
    pub namespace: Option<String>,
    pub schedule: Option<String>,
    pub last_schedule_time: Option<String>,
    pub active_count: i32,
    pub suspend: Option<bool>,
}

/// One job run, as read from the control plane. `cronjob_owners` names
/// the scheduled jobs that own this run.
#[derive(Clone, Debug)]
pub struct JobRecord {
    pub name: Option<String>,
    pub namespace: Option<String>,
    pub cronjob_owners: Vec<String>,
    pub active: Option<i32>,
    pub succeeded: Option<i32>,
    pub failed: Option<i32>,
    pub start_time: Option<String>,
    pub completion_time: Option<String>,
}

/// One job run, ready for display.
#[derive(Clone, Debug)]
pub struct JobInfo {
    pub name: String,
    pub status: String,
    pub started_at: Option<String>,
    pub completed_at: Option<String>,
    pub duration: Option<String>,
}

/// One scheduled job with its recent runs.
#[derive(Clone, Debug)]
pub struct CronJobInfo {
    pub name: String,
    pub namespace: String,
    pub schedule: String,
    pub last_schedule: Option<String>,
    pub last_schedule_age: Option<String>,
    pub active_jobs: i32,
    pub suspend: bool,
    pub recent_jobs: Vec<JobInfo>,
}

/// The backups summary.
#[derive(Clone, Debug)]
pub struct BackupsResponse {
    pub total_cronjobs: usize,
    pub active_jobs: usize,
    pub succeeded_jobs: usize,
    pub failed_jobs: usize,
    pub cronjobs: Vec<CronJobInfo>,
}

// ---------------------------------------------------------------------------
// Job derivation
// ---------------------------------------------------------------------------

pub open spec fn opt_i32(v: Option<i32>) -> int {
    match v {
        Some(x) => x as int,
        None => 0,
    }
}

/// A job's displayed status: running while active, else by outcome.
pub open spec fn spec_job_status(j: JobRecord) -> Seq<char> {
    if opt_i32(j.active) > 0 {
        "Running"@
    } else if opt_i32(j.succeeded) > 0 {
        "Succeeded"@
    } else if opt_i32(j.failed) > 0 {
        "Failed"@
    } else {
        "Unknown"@
    }
}

/// A job's rendered duration: from its parsed start to its parsed
/// completion, or to `now` while unfinished; absent when the start does
/// not parse or the span leaves the machine range.
pub open spec fn spec_job_duration(j: JobRecord, now: int) -> Option<Seq<char>> {
    let start = match j.start_time {
        Some(ts) => rfc3339_epoch_seconds(ts@),
        None => None,
    };
    match start {
        Some(s) => {
            let end = match j.completion_time {
                Some(ts) => match rfc3339_epoch_seconds(ts@) {
                    Some(e) => e,
                    None => now,
                },
                None => now,
            };
            if i64::MIN as int <= end - s <= i64::MAX as int {
                Some(spec_format_job_duration(end - s))
            } else {
                None
            }
        },
        None => None,
    }
}

#[verifier::ext_equal]
pub struct JobRow {
    pub name: Seq<char>,
    pub status: Seq<char>,
    pub started_at: Option<Seq<char>>,
    pub completed_at: Option<Seq<char>>,
    pub duration: Option<Seq<char>>,
}

pub open spec fn job_row_of(x: JobInfo) -> JobRow {
    JobRow {
        name: x.name@,
        status: x.status@,
        started_at: opt_view(x.started_at),
        completed_at: opt_view(x.completed_at),
        duration: opt_view(x.duration),
    }
}

pub open spec fn or_empty(s: Option<String>) -> Seq<char> {
    match s {
        Some(v) => v@,
        None => Seq::<char>::empty(),
    }
}

/// The display row of one job run.
pub open spec fn spec_job_row(j: JobRecord, now: int) -> JobRow {
    JobRow {
        name: or_empty(j.name),
        status: spec_job_status(j),
        started_at: opt_view(j.start_time),
        completed_at: opt_view(j.completion_time),
        duration: spec_job_duration(j, now),
    }
}

/// A run belongs to the scheduled job when it sits in the same namespace
/// and names it among its owners.
pub open spec fn spec_job_owned(j: JobRecord, cj_name: Seq<char>, cj_ns: Seq<char>) -> bool {
    &&& (match j.namespace {
        Some(ns) => ns@ == cj_ns,
        None => "default"@ == cj_ns,
    })
    &&& exists|i: int| 0 <= i < j.cronjob_owners@.len() && (#[trigger] j.cronjob_owners@[i])@
        == cj_name
}

/// Rows of the owned runs, in input order.
pub open spec fn spec_owned_rows(
    jobs: Seq<JobRecord>,
    cj_name: Seq<char>,
    cj_ns: Seq<char>,
    now: int,
) -> Seq<JobRow>
    decreases jobs.len(),
{
    if jobs.len() == 0 {
        Seq::<JobRow>::empty()
    } else {
        let prev = spec_owned_rows(jobs.drop_last(), cj_name, cj_ns, now);
        if spec_job_owned(jobs.last(), cj_name, cj_ns) {
            prev.push(spec_job_row(jobs.last(), now))
        } else {
            prev
        }
    }
}

proof fn lemma_owned_rows_le(jobs: Seq<JobRecord>, cj_name: Seq<char>, cj_ns: Seq<char>, now: int)
    ensures
        spec_owned_rows(jobs, cj_name, cj_ns, now).len() <= jobs.len(),
    decreases jobs.len(),
{
    if jobs.len() > 0 {
        lemma_owned_rows_le(jobs.drop_last(), cj_name, cj_ns, now);
    }
}

fn build_job_info(j: &JobRecord, now_epoch: i64) -> (x: JobInfo)
    ensures
        job_row_of(x) == spec_job_row(*j, now_epoch as int),
{
    let active = match j.active {
        Some(v) => v,
        None => 0,
    };
    let succeeded = match j.succeeded {
        Some(v) => v,
        None => 0,
    };
    let failed = match j.failed {
        Some(v) => v,
        None => 0,
    };
    let status = if active > 0 {
        String::from_str("Running")
    } else if succeeded > 0 {
        String::from_str("Succeeded")
    } else if failed > 0 {
        String::from_str("Failed")
    } else {
        String::from_str("Unknown")
    };
    let duration: Option<String> = match &j.start_time {
        Some(ts) => match parse_rfc3339_seconds(ts.as_str()) {
            Some(s) => {
                let end = match &j.completion_time {
                    Some(cts) => match parse_rfc3339_seconds(cts.as_str()) {
                        Some(e) => e,
                        None => now_epoch,
                    },
                    None => now_epoch,
                };
                match end.checked_sub(s) {
                    Some(d) => Some(format_job_duration(d)),
                    None => None,
                }
            },
            None => None,
        },
        None => None,
    };
    JobInfo {
        name: match &j.name {
            Some(v) => v.clone(),
            None => String::new(),
        },
        status,
        started_at: match &j.start_time {
            Some(v) => Some(v.clone()),
            None => None,
        },
        completed_at: match &j.completion_time {
            Some(v) => Some(v.clone()),
            None => None,
        },
        duration,
    }
}

// ---------------------------------------------------------------------------
// Ordering runs: latest start first, at most five kept
// ---------------------------------------------------------------------------

pub open spec fn job_le(a: JobInfo, b: JobInfo) -> bool {
    opt_lex_le(opt_view(b.started_at), opt_view(a.started_at))
}

pub open spec fn jobs_sorted(s: Seq<JobInfo>) -> bool {
    forall|i: int, j: int| 0 <= i < j < s.len() ==> job_le(#[trigger] s[i], #[trigger] s[j])
}

fn job_le_x(a: &JobInfo, b: &JobInfo) -> (r: bool)
    ensures
        r == job_le(*a, *b),
{
    match (&b.started_at, &a.started_at) {
        (Option::None, _) => true,
        (Option::Some(x), Option::None) => false,
        (Option::Some(x), Option::Some(y)) => str_le(x.as_str(), y.as_str()),
    }
}

/// Sorts runs latest first, keeping exactly the same rows.
fn sort_jobs(v: Vec<JobInfo>) -> (r: Vec<JobInfo>)
    ensures
        r@.map_values(|x: JobInfo| job_row_of(x)).to_multiset() == v@.map_values(
            |x: JobInfo| job_row_of(x),
        ).to_multiset(),
        jobs_sorted(r@),
        r@.len() == v@.len(),
{
    broadcast use vstd::seq_lib::group_to_multiset_ensures;

    let ghost orig = v@.map_values(|x: JobInfo| job_row_of(x)).to_multiset();
    let mut input = v;
    let mut out: Vec<JobInfo> = Vec::new();
    while input.len() > 0
        invariant
            out@.map_values(|x: JobInfo| job_row_of(x)).to_multiset().add(
                input@.map_values(|x: JobInfo| job_row_of(x)).to_multiset(),
            ) =~= orig,
            out@.len() + input@.len() == orig.len(),
            jobs_sorted(out@),
            forall|i: int, j: int|
                0 <= i < out@.len() && 0 <= j < input@.len() ==> job_le(
                    #[trigger] out@[i],
                    #[trigger] input@[j],
                ),
        decreases input@.len(),
    {
        let mut mi: usize = 0;
        let mut k: usize = 1;
        proof {
            lemma_opt_lex_le_refl(opt_view(input@[0].started_at));
        }
        while k < input.len()
            invariant
                mi < input@.len(),
                k <= input@.len(),
                forall|t: int| 0 <= t < k ==> job_le(input@[mi as int], #[trigger] input@[t]),
            decreases input@.len() - k,
        {
            if !job_le_x(&input[mi], &input[k]) {
                proof {
                    lemma_opt_lex_le_total(
                        opt_view(input@[mi as int].started_at),
                        opt_view(input@[k as int].started_at),
                    );
                    lemma_opt_lex_le_refl(opt_view(input@[k as int].started_at));
                    assert forall|t: int| 0 <= t < k + 1 implies job_le(
                        input@[k as int],
                        #[trigger] input@[t],
                    ) by {
                        if t < k {
                            lemma_opt_lex_le_trans(
                                opt_view(input@[t].started_at),
                                opt_view(input@[mi as int].started_at),
                                opt_view(input@[k as int].started_at),
                            );
                        }
                    }
                }
                mi = k;
            }
            k += 1;
        }
        let ghost pre = input@;
        let ghost out_pre = out@;
        let x = input.remove(mi);
        out.push(x);
        proof {
            let ghost row = job_row_of(x);
            let ghost m_pre = pre.map_values(|y: JobInfo| job_row_of(y));
            let ghost m_in = input@.map_values(|y: JobInfo| job_row_of(y));
            let ghost m_out_pre = out_pre.map_values(|y: JobInfo| job_row_of(y));
            let ghost m_out = out@.map_values(|y: JobInfo| job_row_of(y));
            assert(input@ == pre.remove(mi as int));
            assert(m_pre[mi as int] == row);
            assert forall|t: int| 0 <= t < m_in.len() implies m_in[t] == #[trigger] m_pre.remove(
                mi as int,
            )[t] by {
                if t < mi {
                    assert(input@[t] == pre[t]);
                    assert(m_in[t] == job_row_of(input@[t]));
                    assert(m_pre[t] == job_row_of(pre[t]));
                } else {
                    assert(input@[t] == pre[t + 1]);
                    assert(m_in[t] == job_row_of(input@[t]));
                    assert(m_pre[t + 1] == job_row_of(pre[t + 1]));
                }
            }
            assert(m_in =~= m_pre.remove(mi as int));
            vstd::seq_lib::to_multiset_remove(m_pre, mi as int);
            assert(out@ == out_pre.push(x));
            assert forall|t: int| 0 <= t < m_out.len() implies m_out[t]
                == #[trigger] m_out_pre.push(row)[t] by {
                if t < m_out_pre.len() {
                    assert(out@[t] == out_pre[t]);
                    assert(m_out[t] == job_row_of(out@[t]));
                    assert(m_out_pre[t] == job_row_of(out_pre[t]));
                } else {
                    assert(out@[t] == x);
                    assert(m_out[t] == job_row_of(out@[t]));
                }
            }
            assert(m_out =~= m_out_pre.push(row));
            vstd::seq_lib::to_multiset_build(m_out_pre, row);
            vstd::seq_lib::to_multiset_contains(m_pre, row);
            assert(m_pre.to_multiset().count(row) > 0) by {
                assert(m_pre[mi as int] == row);
                assert(m_pre.contains(row));
            }
            assert(m_out.to_multiset().add(m_in.to_multiset()) =~= m_out_pre.to_multiset().add(
                m_pre.to_multiset(),
            ));
            assert forall|i: int, j: int|
                0 <= i < out@.len() && 0 <= j < input@.len() implies job_le(
                #[trigger] out@[i],
                #[trigger] input@[j],
            ) by {
                let jj = if j < mi {
                    j
                } else {
                    j + 1
                };
                assert(input@[j] == pre[jj]);
                if i == out@.len() - 1 {
                    assert(job_le(pre[mi as int], pre[jj]));
                }
            }
        }
    }
    out
}

/// Collects, orders and caps the recent runs of one scheduled job: latest
/// start first, at most five, drawn from the owned runs.
pub fn get_jobs_for_cronjob(
    cronjob_name: &str,
    namespace: &str,
    all_jobs: &Vec<JobRecord>,
    now_epoch: i64,
) -> (r: Vec<JobInfo>)
    ensures
        jobs_sorted(r@),
        r@.len() == vstd::math::min(
            5,
            spec_owned_rows(all_jobs@, cronjob_name@, namespace@, now_epoch as int).len() as int,
        ),
        r@.map_values(|x: JobInfo| job_row_of(x)).to_multiset().subset_of(
            spec_owned_rows(all_jobs@, cronjob_name@, namespace@, now_epoch as int).to_multiset(),
        ),
{
    broadcast use vstd::seq_lib::group_to_multiset_ensures;

    let ghost cj_name = cronjob_name@;
    let ghost cj_ns = namespace@;
    let ghost now = now_epoch as int;
    let n = all_jobs.len();
    let mut owned: Vec<JobInfo> = Vec::new();
    let mut i: usize = 0;
    proof {
        assert(owned@.map_values(|x: JobInfo| job_row_of(x)) =~= spec_owned_rows(
            all_jobs@.take(0),
            cj_name,
            cj_ns,
            now,
        ));
    }
    while i < n
        invariant
            i <= n,
            n == all_jobs@.len(),
            owned@.map_values(|x: JobInfo| job_row_of(x)) == spec_owned_rows(
                all_jobs@.take(i as int),
                cj_name,
                cj_ns,
                now,
            ),
            cj_name == cronjob_name@,
            cj_ns == namespace@,
            now == now_epoch as int,
        decreases n - i,
    {
        let j = &all_jobs[i];
        proof {
            assert(all_jobs@.take(i + 1).drop_last() =~= all_jobs@.take(i as int));
            assert(all_jobs@.take(i + 1).last() == all_jobs@[i as int]);
            lemma_owned_rows_le(all_jobs@.take(i as int), cj_name, cj_ns, now);
        }
        let ns_match = match &j.namespace {
            Some(ns) => str_eq(ns.as_str(), namespace),
            None => str_eq("default", namespace),
        };
        let mut owner_match = false;
        let no = j.cronjob_owners.len();
        let mut t: usize = 0;
        while t < no
            invariant
                t <= no,
                no == j.cronjob_owners@.len(),
                cj_name == cronjob_name@,
                owner_match == exists|u: int|
                    0 <= u < t && (#[trigger] j.cronjob_owners@[u])@ == cj_name,
            decreases no - t,
        {
            if str_eq(j.cronjob_owners[t].as_str(), cronjob_name) {
                owner_match = true;
            }
            t += 1;
        }
        if ns_match && owner_match {
            let info = build_job_info(j, now_epoch);
            owned.push(info);
            proof {
                assert(owned@.map_values(|x: JobInfo| job_row_of(x)) =~= spec_owned_rows(
                    all_jobs@.take(i + 1),
                    cj_name,
                    cj_ns,
                    now,
                ));
            }
        }
        i += 1;
    }
    proof {
        assert(all_jobs@.take(n as int) =~= all_jobs@);
    }
    let sorted = sort_jobs(owned);
    let keep = if sorted.len() < 5 {
        sorted.len()
    } else {
        5
    };
    let mut r: Vec<JobInfo> = Vec::new();
    let mut k: usize = 0;
    proof {
        assert(r@ =~= sorted@.take(0));
    }
    while k < keep
        invariant
            k <= keep,
            keep <= sorted@.len(),
            r@ == sorted@.take(k as int),
            jobs_sorted(sorted@),
        decreases keep - k,
    {
        let info = clone_job_info(&sorted[k]);
        proof {
            assert(info == sorted@[k as int]);
        }
        r.push(info);
        proof {
            assert(r@ =~= sorted@.take(k + 1));
        }
        k += 1;
    }
    proof {
        let ghost full = sorted@.map_values(|x: JobInfo| job_row_of(x));
        let ghost part = r@.map_values(|x: JobInfo| job_row_of(x));
        assert(part =~= full.take(keep as int));
        lemma_take_subset(full, keep as int);
        assert(jobs_sorted(r@)) by {
            assert forall|a: int, b: int| 0 <= a < b < r@.len() implies job_le(
                #[trigger] r@[a],
                #[trigger] r@[b],
            ) by {
                assert(r@[a] == sorted@[a]);
                assert(r@[b] == sorted@[b]);
            }
        }
    }
    r
}

/// A prefix's multiset is contained in the whole sequence's.
proof fn lemma_take_subset<T>(s: Seq<T>, k: int)
    requires
        0 <= k <= s.len(),
    ensures
        s.take(k).to_multiset().subset_of(s.to_multiset()),
    decreases s.len() - k,
{
    broadcast use vstd::seq_lib::group_to_multiset_ensures;

    if k == s.len() {
        assert(s.take(k) =~= s);
    } else {
        lemma_take_subset(s, k + 1);
        assert(s.take(k + 1).drop_last() =~= s.take(k));
        assert(s.take(k + 1) =~= s.take(k).push(s[k]));
        assert(s.take(k).push(s[k]).to_multiset() =~= s.take(k).to_multiset().insert(s[k]));
    }
}

fn clone_job_info(j: &JobInfo) -> (x: JobInfo)
    ensures
        x == *j,
{
    JobInfo {
        name: j.name.clone(),
        status: j.status.clone(),
        started_at: match &j.started_at {
            Some(v) => Some(v.clone()),
            None => None,
        },
        completed_at: match &j.completed_at {
            Some(v) => Some(v.clone()),
            None => None,
        },
        duration: match &j.duration {
            Some(v) => Some(v.clone()),
            None => None,
        },
    }
}

// ---------------------------------------------------------------------------
// Whole-cluster job tallies
// ---------------------------------------------------------------------------

/// The tally bucket a run falls in: running while active, else by
/// outcome; runs with no reported outcome fall in no bucket.
pub enum JobTally {
    Active,
    Succeeded,
    Failed,
}

pub open spec fn job_tally_matches(j: JobRecord, k: JobTally) -> bool {
    match k {
        JobTally::Active => opt_i32(j.active) > 0,
        JobTally::Succeeded => opt_i32(j.active) <= 0 && opt_i32(j.succeeded) > 0,
        JobTally::Failed => opt_i32(j.active) <= 0 && opt_i32(j.succeeded) <= 0 && opt_i32(
            j.failed,
        ) > 0,
    }
}

pub open spec fn job_tally_count(s: Seq<JobRecord>, k: JobTally) -> nat
    decreases s.len(),
{
    if s.len() == 0 {
        0
    } else {
        job_tally_count(s.drop_last(), k) + (if job_tally_matches(s.last(), k) {
            1nat
        } else {
            0nat
        })
    }
}

proof fn lemma_job_tally_le(s: Seq<JobRecord>, k: JobTally)
    ensures
        job_tally_count(s, k) <= s.len(),
    decreases s.len(),
{
    if s.len() > 0 {
        lemma_job_tally_le(s.drop_last(), k);
    }
}


// ---------------------------------------------------------------------------
// Scheduled jobs: rows, ordering and the builder
// ---------------------------------------------------------------------------

#[verifier::ext_equal]
pub struct CronJobHeadRow {
    pub name: Seq<char>,
    pub namespace: Seq<char>,
    pub schedule: Seq<char>,
    pub last_schedule: Option<Seq<char>>,
    pub last_schedule_age: Option<Seq<char>>,
    pub active_jobs: int,
    pub suspend: bool,
}

pub open spec fn cronjob_head_row_of(x: CronJobInfo) -> CronJobHeadRow {
    CronJobHeadRow {
        name: x.name@,
        namespace: x.namespace@,
        schedule: x.schedule@,
        last_schedule: opt_view(x.last_schedule),
        last_schedule_age: opt_view(x.last_schedule_age),
        active_jobs: x.active_jobs as int,
        suspend: x.suspend,
    }
}

/// The rendered age of the last scheduled run: present exactly when a
/// last-schedule time is reported; it reads `"Unknown"` when that time
/// does not parse or the elapsed seconds leave the machine range.
pub open spec fn spec_last_schedule_age(cj: CronJobRecord, now: int) -> Option<Seq<char>> {
    match cj.last_schedule_time {
        Some(ts) => match rfc3339_epoch_seconds(ts@) {
            Some(t) => if i64::MIN as int <= now - t <= i64::MAX as int {
                Some(spec_format_duration(now - t))
            } else {
                Some("Unknown"@)
            },
            None => Some("Unknown"@),
        },
        None => None,
    }
}

/// The head row of one scheduled job.
pub open spec fn spec_cronjob_head(cj: CronJobRecord, now: int) -> CronJobHeadRow {
    CronJobHeadRow {
        name: or_empty(cj.name),
        namespace: match cj.namespace {
            Some(ns) => ns@,
            None => "default"@,
        },
        schedule: match cj.schedule {
            Some(sc) => sc@,
            None => "Unknown"@,
        },
        last_schedule: opt_view(cj.last_schedule_time),
        last_schedule_age: spec_last_schedule_age(cj, now),
        active_jobs: cj.active_count as int,
        suspend: match cj.suspend {
            Some(b) => b,
            None => false,
        },
    }
}

pub open spec fn spec_cronjob_heads(s: Seq<CronJobRecord>, now: int) -> Seq<CronJobHeadRow>
    decreases s.len(),
{
    if s.len() == 0 {
        Seq::<CronJobHeadRow>::empty()
    } else {
        spec_cronjob_heads(s.drop_last(), now).push(spec_cronjob_head(s.last(), now))
    }
}

/// The recent-runs cap and ordering hold of a built scheduled-job entry.
pub open spec fn recent_ok(x: CronJobInfo, jobs: Seq<JobRecord>, now: int) -> bool {
    let owned = spec_owned_rows(jobs, x.name@, x.namespace@, now);
    &&& jobs_sorted(x.recent_jobs@)
    &&& x.recent_jobs@.len() == vstd::math::min(5, owned.len() as int)
    &&& x.recent_jobs@.map_values(|j: JobInfo| job_row_of(j)).to_multiset().subset_of(
        owned.to_multiset(),
    )
}

fn build_cronjob_info(cj: &CronJobRecord, all_jobs: &Vec<JobRecord>, now_epoch: i64) -> (x:
    CronJobInfo)
    ensures
        cronjob_head_row_of(x) == spec_cronjob_head(*cj, now_epoch as int),
        recent_ok(x, all_jobs@, now_epoch as int),
{
    let name = match &cj.name {
        Some(v) => v.clone(),
        None => String::new(),
    };
    let namespace = match &cj.namespace {
        Some(v) => v.clone(),
        None => String::from_str("default"),
    };
    let last_schedule_age: Option<String> = match &cj.last_schedule_time {
        Some(ts) => match parse_rfc3339_seconds(ts.as_str()) {
            Some(t) => match now_epoch.checked_sub(t) {
                Some(d) => Some(format_duration(d)),
                None => Some(String::from_str("Unknown")),
            },
            None => Some(String::from_str("Unknown")),
        },
        None => None,
    };
    let recent_jobs = get_jobs_for_cronjob(
        name.as_str(),
        namespace.as_str(),
        all_jobs,
        now_epoch,
    );
    CronJobInfo {
        name,
        namespace,
        schedule: match &cj.schedule {
            Some(v) => v.clone(),
            None => String::from_str("Unknown"),
        },
        last_schedule: match &cj.last_schedule_time {
            Some(v) => Some(v.clone()),
            None => None,
        },
        last_schedule_age,
        active_jobs: cj.active_count,
        suspend: match cj.suspend {
            Some(b) => b,
            None => false,
        },
        recent_jobs,
    }
}

/// Display order of scheduled jobs: by namespace, then name.
pub open spec fn cronjob_le(a: CronJobInfo, b: CronJobInfo) -> bool {
    ||| (a.namespace@ != b.namespace@ && lex_le(a.namespace@, b.namespace@))
    ||| (a.namespace@ == b.namespace@ && lex_le(a.name@, b.name@))
}

pub open spec fn cronjobs_sorted(s: Seq<CronJobInfo>) -> bool {
    forall|i: int, j: int| 0 <= i < j < s.len() ==> cronjob_le(#[trigger] s[i], #[trigger] s[j])
}

proof fn lemma_cronjob_le_refl(a: CronJobInfo)
    ensures
        cronjob_le(a, a),
{
    lemma_lex_le_refl(a.name@);
}

proof fn lemma_cronjob_le_total(a: CronJobInfo, b: CronJobInfo)
    ensures
        cronjob_le(a, b) || cronjob_le(b, a),
{
    lemma_lex_le_total(a.namespace@, b.namespace@);
    lemma_lex_le_total(a.name@, b.name@);
}

proof fn lemma_cronjob_le_trans(a: CronJobInfo, b: CronJobInfo, c: CronJobInfo)
    requires
        cronjob_le(a, b),
        cronjob_le(b, c),
    ensures
        cronjob_le(a, c),
{
    if a.namespace@ == b.namespace@ && b.namespace@ == c.namespace@ {
        lemma_lex_le_trans(a.name@, b.name@, c.name@);
    } else if a.namespace@ != b.namespace@ && b.namespace@ != c.namespace@ {
        lemma_lex_le_trans(a.namespace@, b.namespace@, c.namespace@);
        if a.namespace@ == c.namespace@ {
            lemma_lex_le_antisym(a.namespace@, b.namespace@);
        }
    }
}

fn cronjob_le_x(a: &CronJobInfo, b: &CronJobInfo) -> (r: bool)
    ensures
        r == cronjob_le(*a, *b),
{
    if str_eq(a.namespace.as_str(), b.namespace.as_str()) {
        str_le(a.name.as_str(), b.name.as_str())
    } else {
        str_le(a.namespace.as_str(), b.namespace.as_str())
    }
}

/// Sorts scheduled jobs by namespace then name, keeping the same head
/// rows and the recent-runs properties of every entry.
fn sort_cronjobs(v: Vec<CronJobInfo>, Ghost(jobs): Ghost<Seq<JobRecord>>, Ghost(now): Ghost<int>)
    -> (r: Vec<CronJobInfo>)
    requires
        forall|i: int| 0 <= i < v@.len() ==> recent_ok(#[trigger] v@[i], jobs, now),
    ensures
        r@.map_values(|x: CronJobInfo| cronjob_head_row_of(x)).to_multiset() == v@.map_values(
            |x: CronJobInfo| cronjob_head_row_of(x),
        ).to_multiset(),
        cronjobs_sorted(r@),
        r@.len() == v@.len(),
        forall|i: int| 0 <= i < r@.len() ==> recent_ok(#[trigger] r@[i], jobs, now),
{
    broadcast use vstd::seq_lib::group_to_multiset_ensures;

    let ghost orig = v@.map_values(|x: CronJobInfo| cronjob_head_row_of(x)).to_multiset();
    let mut input = v;
    let mut out: Vec<CronJobInfo> = Vec::new();
    while input.len() > 0
        invariant
            out@.map_values(|x: CronJobInfo| cronjob_head_row_of(x)).to_multiset().add(
                input@.map_values(|x: CronJobInfo| cronjob_head_row_of(x)).to_multiset(),
            ) =~= orig,
            out@.len() + input@.len() == orig.len(),
            cronjobs_sorted(out@),
            forall|i: int, j: int|
                0 <= i < out@.len() && 0 <= j < input@.len() ==> cronjob_le(
                    #[trigger] out@[i],
                    #[trigger] input@[j],
                ),
            forall|i: int| 0 <= i < out@.len() ==> recent_ok(#[trigger] out@[i], jobs, now),
            forall|i: int| 0 <= i < input@.len() ==> recent_ok(#[trigger] input@[i], jobs, now),
        decreases input@.len(),
    {
        let mut mi: usize = 0;
        let mut k: usize = 1;
        proof {
            lemma_cronjob_le_refl(input@[0]);
        }
        while k < input.len()
            invariant
                mi < input@.len(),
                k <= input@.len(),
                forall|t: int| 0 <= t < k ==> cronjob_le(input@[mi as int], #[trigger] input@[t]),
            decreases input@.len() - k,
        {
            if !cronjob_le_x(&input[mi], &input[k]) {
                proof {
                    lemma_cronjob_le_total(input@[mi as int], input@[k as int]);
                    lemma_cronjob_le_refl(input@[k as int]);
                    assert forall|t: int| 0 <= t < k + 1 implies cronjob_le(
                        input@[k as int],
                        #[trigger] input@[t],
                    ) by {
                        if t < k {
                            lemma_cronjob_le_trans(
                                input@[k as int],
                                input@[mi as int],
                                input@[t],
                            );
                        }
                    }
                }
                mi = k;
            }
            k += 1;
        }
        let ghost pre = input@;
        let ghost out_pre = out@;
        let x = input.remove(mi);
        out.push(x);
        proof {
            let ghost row = cronjob_head_row_of(x);
            let ghost m_pre = pre.map_values(|y: CronJobInfo| cronjob_head_row_of(y));
            let ghost m_in = input@.map_values(|y: CronJobInfo| cronjob_head_row_of(y));
            let ghost m_out_pre = out_pre.map_values(|y: CronJobInfo| cronjob_head_row_of(y));
            let ghost m_out = out@.map_values(|y: CronJobInfo| cronjob_head_row_of(y));
            assert(input@ == pre.remove(mi as int));
            assert(m_pre[mi as int] == row);
            assert forall|t: int| 0 <= t < m_in.len() implies m_in[t] == #[trigger] m_pre.remove(
                mi as int,
            )[t] by {
                if t < mi {
                    assert(input@[t] == pre[t]);
                    assert(m_in[t] == cronjob_head_row_of(input@[t]));
                    assert(m_pre[t] == cronjob_head_row_of(pre[t]));
                } else {
                    assert(input@[t] == pre[t + 1]);
                    assert(m_in[t] == cronjob_head_row_of(input@[t]));
                    assert(m_pre[t + 1] == cronjob_head_row_of(pre[t + 1]));
                }
            }
            assert(m_in =~= m_pre.remove(mi as int));
            vstd::seq_lib::to_multiset_remove(m_pre, mi as int);
            assert(out@ == out_pre.push(x));
            assert forall|t: int| 0 <= t < m_out.len() implies m_out[t]
                == #[trigger] m_out_pre.push(row)[t] by {
                if t < m_out_pre.len() {
                    assert(out@[t] == out_pre[t]);
                    assert(m_out[t] == cronjob_head_row_of(out@[t]));
                    assert(m_out_pre[t] == cronjob_head_row_of(out_pre[t]));
                } else {
                    assert(out@[t] == x);
                    assert(m_out[t] == cronjob_head_row_of(out@[t]));
                }
            }
            assert(m_out =~= m_out_pre.push(row));
            vstd::seq_lib::to_multiset_build(m_out_pre, row);
            vstd::seq_lib::to_multiset_contains(m_pre, row);
            assert(m_pre.to_multiset().count(row) > 0) by {
                assert(m_pre[mi as int] == row);
                assert(m_pre.contains(row));
            }
            assert(m_out.to_multiset().add(m_in.to_multiset()) =~= m_out_pre.to_multiset().add(
                m_pre.to_multiset(),
            ));
            assert forall|i: int, j: int|
                0 <= i < out@.len() && 0 <= j < input@.len() implies cronjob_le(
                #[trigger] out@[i],
                #[trigger] input@[j],
            ) by {
                let jj = if j < mi {
                    j
                } else {
                    j + 1
                };
                assert(input@[j] == pre[jj]);
                if i == out@.len() - 1 {
                    assert(cronjob_le(pre[mi as int], pre[jj]));
                }
            }
            assert forall|i: int| 0 <= i < input@.len() implies recent_ok(
                #[trigger] input@[i],
                jobs,
                now,
            ) by {
                let jj = if i < mi {
                    i
                } else {
                    i + 1
                };
                assert(input@[i] == pre[jj]);
            }
        }
    }
    out
}

/// Assembles the backups summary: one entry per scheduled job, ordered by
/// namespace then name, each carrying its most recent runs, plus tallies
/// over every run in the cluster.
pub fn get_backups_status(
    cronjobs: &Vec<CronJobRecord>,
    jobs: &Vec<JobRecord>,
    now_epoch: i64,
) -> (r: BackupsResponse)
    ensures
        r.total_cronjobs == cronjobs@.len(),
        r.cronjobs@.len() == cronjobs@.len(),
        r.cronjobs@.map_values(|x: CronJobInfo| cronjob_head_row_of(x)).to_multiset()
            == spec_cronjob_heads(cronjobs@, now_epoch as int).to_multiset(),
        cronjobs_sorted(r.cronjobs@),
        forall|i: int|
            0 <= i < r.cronjobs@.len() ==> recent_ok(
                #[trigger] r.cronjobs@[i],
                jobs@,
                now_epoch as int,
            ),
        r.active_jobs == job_tally_count(jobs@, JobTally::Active),
        r.succeeded_jobs == job_tally_count(jobs@, JobTally::Succeeded),
        r.failed_jobs == job_tally_count(jobs@, JobTally::Failed),
{
    broadcast use vstd::seq_lib::group_to_multiset_ensures;

    let ghost all = cronjobs@;
    let ghost now = now_epoch as int;
    let n = cronjobs.len();
    let mut infos: Vec<CronJobInfo> = Vec::new();
    let mut i: usize = 0;
    proof {
        assert(infos@.map_values(|x: CronJobInfo| cronjob_head_row_of(x)) =~= spec_cronjob_heads(
            all.take(0),
            now,
        ));
    }
    while i < n
        invariant
            i <= n,
            n == all.len(),
            infos@.len() == i,
            infos@.map_values(|x: CronJobInfo| cronjob_head_row_of(x)) == spec_cronjob_heads(
                all.take(i as int),
                now,
            ),
            forall|t: int| 0 <= t < infos@.len() ==> recent_ok(#[trigger] infos@[t], jobs@, now),
            cronjobs@ == all,
            now == now_epoch as int,
        decreases n - i,
    {
        let cj = &cronjobs[i];
        proof {
            assert(all.take(i + 1).drop_last() =~= all.take(i as int));
            assert(all.take(i + 1).last() == all[i as int]);
        }
        let info = build_cronjob_info(cj, jobs, now_epoch);
        infos.push(info);
        proof {
            assert(infos@.map_values(|x: CronJobInfo| cronjob_head_row_of(x))
                =~= spec_cronjob_heads(all.take(i + 1), now));
        }
        i += 1;
    }
    proof {
        assert(all.take(n as int) =~= all);
    }
    let sorted = sort_cronjobs(infos, Ghost(jobs@), Ghost(now));

    let nj = jobs.len();
    let mut active_jobs: usize = 0;
    let mut succeeded_jobs: usize = 0;
    let mut failed_jobs: usize = 0;
    let mut j: usize = 0;
    proof {
        assert(jobs@.take(0) =~= Seq::<JobRecord>::empty());
    }
    while j < nj
        invariant
            j <= nj,
            nj == jobs@.len(),
            active_jobs == job_tally_count(jobs@.take(j as int), JobTally::Active),
            succeeded_jobs == job_tally_count(jobs@.take(j as int), JobTally::Succeeded),
            failed_jobs == job_tally_count(jobs@.take(j as int), JobTally::Failed),
        decreases nj - j,
    {
        let jr = &jobs[j];
        proof {
            assert(jobs@.take(j + 1).drop_last() =~= jobs@.take(j as int));
            assert(jobs@.take(j + 1).last() == jobs@[j as int]);
            lemma_job_tally_le(jobs@.take(j as int), JobTally::Active);
            lemma_job_tally_le(jobs@.take(j as int), JobTally::Succeeded);
            lemma_job_tally_le(jobs@.take(j as int), JobTally::Failed);
        }
        let active = match jr.active {
            Some(v) => v,
            None => 0,
        };
        let succeeded = match jr.succeeded {
            Some(v) => v,
            None => 0,
        };
        let failed = match jr.failed {
            Some(v) => v,
            None => 0,
        };
        if active > 0 {
            active_jobs += 1;
        } else if succeeded > 0 {
            succeeded_jobs += 1;
        } else if failed > 0 {
            failed_jobs += 1;
        }
        j += 1;
    }
    proof {
        assert(jobs@.take(nj as int) =~= jobs@);
    }
    BackupsResponse {
        total_cronjobs: n,
        active_jobs,
        succeeded_jobs,
        failed_jobs,
        cronjobs: sorted,
    }
}

} // verus!

