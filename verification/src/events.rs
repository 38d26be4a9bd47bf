//! Event records and the recent-events builder: events from the last hour,
//! warnings first.

use vstd::prelude::*;
use crate::classify::opt_view;
use crate::duration::{format_event_age, spec_format_event_age};
use crate::strfmt::{
    lemma_lex_le_refl, lemma_lex_le_total, lemma_lex_le_trans, lex_le, str_eq, str_le,
};
use crate::time::{parse_rfc3339_seconds, rfc3339_epoch_seconds};

verus! {

/// One event, as read from the control plane.
#[derive(Clone, Debug)]
pub struct EventRecord {
    pub name: Option<String>,
    pub namespace: Option<String>,
    pub event_type: Option<String>,
    pub reason: Option<String>,
    pub message: Option<String>,
    pub involved_object_kind: Option<String>,
    pub involved_object_name: Option<String>,
    pub count: Option<i32>,
    pub first_timestamp: Option<String>,
    pub last_timestamp: Option<String>,
}

/// One event, ready for display.
#[derive(Clone, Debug)]
pub struct EventInfo {
    pub name: String,
    pub namespace: String,
    pub event_type: String,
    pub reason: String,
    pub message: String,
    pub involved_object_kind: String,
    pub involved_object_name: String,
    pub count: i32,
    pub first_timestamp: Option<String>,
    pub last_timestamp: Option<String>,
    pub age: Option<String>,
}

/// The events summary.
#[derive(Clone, Debug)]
pub struct EventsResponse {
    pub total_events: usize,
    pub warning_count: usize,
    pub normal_count: usize,
    pub events: Vec<EventInfo>,
}

// ---------------------------------------------------------------------------
// Filtering
// ---------------------------------------------------------------------------

/// The event's last-seen time in epoch seconds, when its timestamp parses.
pub open spec fn spec_event_seen(e: EventRecord) -> Option<int> {
    match e.last_timestamp {
        Some(ts) => rfc3339_epoch_seconds(ts@),
        None => None,
    }
}

/// An event is kept when it has no parseable last-seen time, or was seen
/// within the past hour of `now`.
pub open spec fn spec_event_kept(e: EventRecord, now: int) -> bool {
    match spec_event_seen(e) {
        Some(t) => t >= now - 3600,
        None => true,
    }
}

/// The event's rendered age: present when the last-seen time parses and
/// the elapsed seconds fit the machine range.
pub open spec fn spec_event_age(e: EventRecord, now: int) -> Option<Seq<char>> {
    match spec_event_seen(e) {
        Some(t) => if i64::MIN as int <= now - t <= i64::MAX as int {
            Some(spec_format_event_age(now - t))
        } else {
            None
        },
        None => None,
    }
}

// ---------------------------------------------------------------------------
// Rows
// ---------------------------------------------------------------------------

#[verifier::ext_equal]
pub struct EventRow {
    pub name: Seq<char>,
    pub namespace: Seq<char>,
    pub event_type: Seq<char>,
    pub reason: Seq<char>,
    pub message: Seq<char>,
    pub involved_object_kind: Seq<char>,
    pub involved_object_name: Seq<char>,
    pub count: int,
    pub first_timestamp: Option<Seq<char>>,
    pub last_timestamp: Option<Seq<char>>,
    pub age: Option<Seq<char>>,
}

pub open spec fn event_row_of(x: EventInfo) -> EventRow {
    EventRow {
        name: x.name@,
        namespace: x.namespace@,
        event_type: x.event_type@,
        reason: x.reason@,
        message: x.message@,
        involved_object_kind: x.involved_object_kind@,
        involved_object_name: x.involved_object_name@,
        count: x.count as int,
        first_timestamp: opt_view(x.first_timestamp),
        last_timestamp: opt_view(x.last_timestamp),
        age: opt_view(x.age),
    }
}

pub open spec fn str_or_view(s: Option<String>, d: Seq<char>) -> Seq<char> {
    match s {
        Some(v) => v@,
        None => d,
    }
}

/// The display row of one kept event.
pub open spec fn spec_event_row(e: EventRecord, now: int) -> EventRow {
    EventRow {
        name: str_or_view(e.name, Seq::<char>::empty()),
        namespace: str_or_view(e.namespace, "default"@),
        event_type: str_or_view(e.event_type, "Normal"@),
        reason: str_or_view(e.reason, Seq::<char>::empty()),
        message: str_or_view(e.message, Seq::<char>::empty()),
        involved_object_kind: str_or_view(e.involved_object_kind, Seq::<char>::empty()),
        involved_object_name: str_or_view(e.involved_object_name, Seq::<char>::empty()),
        count: match e.count {
            Some(c) => c as int,
            None => 1,
        },
        first_timestamp: opt_view(e.first_timestamp),
        last_timestamp: opt_view(e.last_timestamp),
        age: spec_event_age(e, now),
    }
}

/// Rows of the kept events, in input order.
pub open spec fn spec_event_rows(s: Seq<EventRecord>, now: int) -> Seq<EventRow>
    decreases s.len(),
{
    if s.len() == 0 {
        Seq::<EventRow>::empty()
    } else {
        let prev = spec_event_rows(s.drop_last(), now);
        if spec_event_kept(s.last(), now) {
            prev.push(spec_event_row(s.last(), now))
        } else {
            prev
        }
    }
}

/// Number of kept events whose type reads `t`.
pub open spec fn spec_kept_typed_count(s: Seq<EventRecord>, now: int, t: Seq<char>) -> nat
    decreases s.len(),
{
    if s.len() == 0 {
        0
    } else {
        spec_kept_typed_count(s.drop_last(), now, t) + (if spec_event_kept(s.last(), now)
            && str_or_view(s.last().event_type, "Normal"@) == t {
            1nat
        } else {
            0nat
        })
    }
}

proof fn lemma_event_counts_le(s: Seq<EventRecord>, now: int, t: Seq<char>)
    ensures
        spec_event_rows(s, now).len() <= s.len(),
        spec_kept_typed_count(s, now, t) <= s.len(),
    decreases s.len(),
{
    if s.len() > 0 {
        lemma_event_counts_le(s.drop_last(), now, t);
    }
}

// ---------------------------------------------------------------------------
// Ordering: warnings first, then last seen, newest first
// ---------------------------------------------------------------------------

/// Order on optional timestamps: absent sorts lowest, else lexicographic.
pub open spec fn opt_lex_le(a: Option<Seq<char>>, b: Option<Seq<char>>) -> bool {
    match (a, b) {
        (Option::None, _) => true,
        (Option::Some(x), Option::None) => false,
        (Option::Some(x), Option::Some(y)) => lex_le(x, y),
    }
}

/// Display order of events: warnings before the rest, and within a class
/// the later-seen event first.
pub open spec fn event_le(a: EventInfo, b: EventInfo) -> bool {
    let aw = a.event_type@ == "Warning"@;
    let bw = b.event_type@ == "Warning"@;
    if aw != bw {
        aw
    } else {
        opt_lex_le(opt_view(b.last_timestamp), opt_view(a.last_timestamp))
    }
}

pub open spec fn events_sorted(s: Seq<EventInfo>) -> bool {
    forall|i: int, j: int| 0 <= i < j < s.len() ==> event_le(#[trigger] s[i], #[trigger] s[j])
}

pub proof fn lemma_opt_lex_le_refl(a: Option<Seq<char>>)
    ensures
        opt_lex_le(a, a),
{
    match a {
        Some(x) => lemma_lex_le_refl(x),
        None => {},
    }
}

pub proof fn lemma_opt_lex_le_total(a: Option<Seq<char>>, b: Option<Seq<char>>)
    ensures
        opt_lex_le(a, b) || opt_lex_le(b, a),
{
    match (a, b) {
        (Option::Some(x), Option::Some(y)) => lemma_lex_le_total(x, y),
        _ => {},
    }
}

pub proof fn lemma_opt_lex_le_trans(a: Option<Seq<char>>, b: Option<Seq<char>>, c: Option<Seq<char>>)
    requires
        opt_lex_le(a, b),
        opt_lex_le(b, c),
    ensures
        opt_lex_le(a, c),
{
    match (a, b, c) {
        (Option::Some(x), Option::Some(y), Option::Some(z)) => lemma_lex_le_trans(x, y, z),
        _ => {},
    }
}

proof fn lemma_event_le_refl(a: EventInfo)
    ensures
        event_le(a, a),
{
    lemma_opt_lex_le_refl(opt_view(a.last_timestamp));
}

proof fn lemma_event_le_total(a: EventInfo, b: EventInfo)
    ensures
        event_le(a, b) || event_le(b, a),
{
    lemma_opt_lex_le_total(opt_view(a.last_timestamp), opt_view(b.last_timestamp));
}

proof fn lemma_event_le_trans(a: EventInfo, b: EventInfo, c: EventInfo)
    requires
        event_le(a, b),
        event_le(b, c),
    ensures
        event_le(a, c),
{
    let aw = a.event_type@ == "Warning"@;
    let bw = b.event_type@ == "Warning"@;
    let cw = c.event_type@ == "Warning"@;
    if aw == bw && bw == cw {
        lemma_opt_lex_le_trans(
            opt_view(c.last_timestamp),
            opt_view(b.last_timestamp),
            opt_view(a.last_timestamp),
        );
    }
}

fn opt_ts_le(a: &Option<String>, b: &Option<String>) -> (r: bool)
    ensures
        r == opt_lex_le(opt_view(*a), opt_view(*b)),
{
    match (a, b) {
        (Option::None, _) => true,
        (Option::Some(x), Option::None) => false,
        (Option::Some(x), Option::Some(y)) => str_le(x.as_str(), y.as_str()),
    }
}

fn event_le_x(a: &EventInfo, b: &EventInfo) -> (r: bool)
    ensures
        r == event_le(*a, *b),
{
    let aw = str_eq(a.event_type.as_str(), "Warning");
    let bw = str_eq(b.event_type.as_str(), "Warning");
    if aw != bw {
        aw
    } else {
        opt_ts_le(&b.last_timestamp, &a.last_timestamp)
    }
}

/// Sorts kept events for display, keeping exactly the same rows.
fn sort_events(v: Vec<EventInfo>) -> (r: Vec<EventInfo>)
    ensures
        r@.map_values(|x: EventInfo| event_row_of(x)).to_multiset() == v@.map_values(
            |x: EventInfo| event_row_of(x),
        ).to_multiset(),
        events_sorted(r@),
        r@.len() == v@.len(),
{
    broadcast use vstd::seq_lib::group_to_multiset_ensures;

    let ghost orig = v@.map_values(|x: EventInfo| event_row_of(x)).to_multiset();
    let mut input = v;
    let mut out: Vec<EventInfo> = Vec::new();
    while input.len() > 0
        invariant
            out@.map_values(|x: EventInfo| event_row_of(x)).to_multiset().add(
                input@.map_values(|x: EventInfo| event_row_of(x)).to_multiset(),
            ) =~= orig,
            out@.len() + input@.len() == orig.len(),
            events_sorted(out@),
            forall|i: int, j: int|
                0 <= i < out@.len() && 0 <= j < input@.len() ==> event_le(
                    #[trigger] out@[i],
                    #[trigger] input@[j],
                ),
        decreases input@.len(),
    {
        let mut mi: usize = 0;
        let mut k: usize = 1;
        proof {
            lemma_event_le_refl(input@[0]);
        }
        while k < input.len()
            invariant
                mi < input@.len(),
                k <= input@.len(),
                forall|t: int| 0 <= t < k ==> event_le(input@[mi as int], #[trigger] input@[t]),
            decreases input@.len() - k,
        {
            if !event_le_x(&input[mi], &input[k]) {
                proof {
                    lemma_event_le_total(input@[mi as int], input@[k as int]);
                    lemma_event_le_refl(input@[k as int]);
                    assert forall|t: int| 0 <= t < k + 1 implies event_le(
                        input@[k as int],
                        #[trigger] input@[t],
                    ) by {
                        if t < k {
                            lemma_event_le_trans(
                                input@[k as int],
                                input@[mi as int],
                                input@[t],
                            );
                        }
                    }
                }
                mi = k;
            }
            k += 1;
        }
        let ghost pre = input@;
        let ghost out_pre = out@;
        let x = input.remove(mi);
        out.push(x);
        proof {
            let ghost row = event_row_of(x);
            let ghost m_pre = pre.map_values(|y: EventInfo| event_row_of(y));
            let ghost m_in = input@.map_values(|y: EventInfo| event_row_of(y));
            let ghost m_out_pre = out_pre.map_values(|y: EventInfo| event_row_of(y));
            let ghost m_out = out@.map_values(|y: EventInfo| event_row_of(y));
            assert(input@ == pre.remove(mi as int));
            assert(m_pre[mi as int] == row);
            assert(m_in.len() == m_pre.len() - 1);
            assert forall|t: int| 0 <= t < m_in.len() implies m_in[t] == #[trigger] m_pre.remove(
                mi as int,
            )[t] by {
                if t < mi {
                    assert(input@[t] == pre[t]);
                    assert(m_in[t] == event_row_of(input@[t]));
                    assert(m_pre[t] == event_row_of(pre[t]));
                } else {
                    assert(input@[t] == pre[t + 1]);
                    assert(m_in[t] == event_row_of(input@[t]));
                    assert(m_pre[t + 1] == event_row_of(pre[t + 1]));
                }
            }
            assert(m_in =~= m_pre.remove(mi as int));
            vstd::seq_lib::to_multiset_remove(m_pre, mi as int);
            assert(out@ == out_pre.push(x));
            assert(m_out.len() == m_out_pre.len() + 1);
            assert forall|t: int| 0 <= t < m_out.len() implies m_out[t]
                == #[trigger] m_out_pre.push(row)[t] by {
                if t < m_out_pre.len() {
                    assert(out@[t] == out_pre[t]);
                    assert(m_out[t] == event_row_of(out@[t]));
                    assert(m_out_pre[t] == event_row_of(out_pre[t]));
                } else {
                    assert(out@[t] == x);
                    assert(m_out[t] == event_row_of(out@[t]));
                }
            }
            assert(m_out =~= m_out_pre.push(row));
            vstd::seq_lib::to_multiset_build(m_out_pre, row);
            vstd::seq_lib::to_multiset_contains(m_pre, row);
            assert(m_pre.to_multiset().count(row) > 0) by {
                assert(m_pre[mi as int] == row);
                assert(m_pre.contains(row));
            }
            assert(m_out.to_multiset().add(m_in.to_multiset()) =~= m_out_pre.to_multiset().add(
                m_pre.to_multiset(),
            ));
            assert forall|i: int, j: int|
                0 <= i < out@.len() && 0 <= j < input@.len() implies event_le(
                #[trigger] out@[i],
                #[trigger] input@[j],
            ) by {
                let jj = if j < mi {
                    j
                } else {
                    j + 1
                };
                assert(input@[j] == pre[jj]);
                if i == out@.len() - 1 {
                    assert(event_le(pre[mi as int], pre[jj]));
                }
            }
        }
    }
    out
}

// ---------------------------------------------------------------------------
// Building
// ---------------------------------------------------------------------------

fn str_or(s: &Option<String>, d: &str) -> (r: String)
    ensures
        r@ == str_or_view(*s, d@),
{
    match s {
        Some(v) => v.clone(),
        None => String::from_str(d),
    }
}

/// Builds the display row of one kept event.
fn build_event_info(e: &EventRecord, now_epoch: i64) -> (x: EventInfo)
    ensures
        event_row_of(x) == spec_event_row(*e, now_epoch as int),
{
    let age: Option<String> = match &e.last_timestamp {
        Some(ts) => match parse_rfc3339_seconds(ts.as_str()) {
            Some(t) => match now_epoch.checked_sub(t) {
                Some(d) => Some(format_event_age(d)),
                None => None,
            },
            None => None,
        },
        None => None,
    };
    proof {
        reveal_strlit("");
        assert(""@ =~= Seq::<char>::empty());
    }
    EventInfo {
        name: str_or(&e.name, ""),
        namespace: str_or(&e.namespace, "default"),
        event_type: str_or(&e.event_type, "Normal"),
        reason: str_or(&e.reason, ""),
        message: str_or(&e.message, ""),
        involved_object_kind: str_or(&e.involved_object_kind, ""),
        involved_object_name: str_or(&e.involved_object_name, ""),
        count: match e.count {
            Some(c) => c,
            None => 1,
        },
        first_timestamp: match &e.first_timestamp {
            Some(t) => Some(t.clone()),
            None => None,
        },
        last_timestamp: match &e.last_timestamp {
            Some(t) => Some(t.clone()),
            None => None,
        },
        age,
    }
}

/// Assembles the recent-events summary from fetched records: events seen
/// in the hour before `now_epoch` (or carrying no parseable timestamp),
/// warnings first, newest first within a class.
pub fn get_events(events: &Vec<EventRecord>, now_epoch: i64) -> (r: EventsResponse)
    ensures
        r.total_events == spec_event_rows(events@, now_epoch as int).len(),
        r.events@.len() == r.total_events,
        r.warning_count == spec_kept_typed_count(events@, now_epoch as int, "Warning"@),
        r.normal_count == spec_kept_typed_count(events@, now_epoch as int, "Normal"@),
        r.events@.map_values(|x: EventInfo| event_row_of(x)).to_multiset() == spec_event_rows(
            events@,
            now_epoch as int,
        ).to_multiset(),
        events_sorted(r.events@),
{
    broadcast use vstd::seq_lib::group_to_multiset_ensures;

    let ghost all = events@;
    let ghost now = now_epoch as int;
    let n = events.len();
    let mut kept: Vec<EventInfo> = Vec::new();
    let mut warning_count: usize = 0;
    let mut normal_count: usize = 0;
    let mut i: usize = 0;
    proof {
        assert(all.take(0) =~= Seq::<EventRecord>::empty());
        assert(kept@.map_values(|x: EventInfo| event_row_of(x)) =~= spec_event_rows(
            all.take(0),
            now,
        ));
        reveal_strlit("Warning");
        reveal_strlit("Normal");
        assert("Warning"@.len() == 7);
        assert("Normal"@.len() == 6);
    }
    while i < n
        invariant
            n == all.len(),
            i <= n,
            kept@.map_values(|x: EventInfo| event_row_of(x)) == spec_event_rows(
                all.take(i as int),
                now,
            ),
            kept@.len() == spec_event_rows(all.take(i as int), now).len(),
            warning_count == spec_kept_typed_count(all.take(i as int), now, "Warning"@),
            normal_count == spec_kept_typed_count(all.take(i as int), now, "Normal"@),
            events@ == all,
            now == now_epoch as int,
            "Warning"@ != "Normal"@,
        decreases n - i,
    {
        let e = &events[i];
        proof {
            assert(all.take(i + 1).drop_last() =~= all.take(i as int));
            assert(all.take(i + 1).last() == all[i as int]);
            lemma_event_counts_le(all.take(i as int), now, "Warning"@);
            lemma_event_counts_le(all.take(i as int), now, "Normal"@);
        }
        let is_kept = match &e.last_timestamp {
            Some(ts) => match parse_rfc3339_seconds(ts.as_str()) {
                Some(t) => match now_epoch.checked_sub(3600) {
                    Some(cutoff) => t >= cutoff,
                    None => true,
                },
                None => true,
            },
            None => true,
        };
        if is_kept {
            let info = build_event_info(e, now_epoch);
            let ty = str_or(&e.event_type, "Normal");
            if str_eq(ty.as_str(), "Warning") {
                warning_count += 1;
            } else if str_eq(ty.as_str(), "Normal") {
                normal_count += 1;
            }
            kept.push(info);
            proof {
                assert(kept@.map_values(|x: EventInfo| event_row_of(x)) =~= spec_event_rows(
                    all.take(i + 1),
                    now,
                ));
            }
        }
        i += 1;
    }
    proof {
        assert(all.take(n as int) =~= all);
    }
    let total_events = kept.len();
    let sorted = sort_events(kept);
    EventsResponse { total_events, warning_count, normal_count, events: sorted }
}

} // verus!
