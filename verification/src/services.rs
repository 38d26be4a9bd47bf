//! Service records and the services listing builder.

use vstd::prelude::*;
use crate::classify::opt_view;
use crate::strfmt::{dec_str, dec_str_i, i32_to_string, u64_to_string};
use crate::time::{parse_rfc3339_seconds, rfc3339_epoch_seconds};

verus! {

/// One service port, as read from the control plane; the target port is
/// already carried as text.
#[derive(Clone, Debug)]
pub struct ServicePortRecord {
    pub port: i32,
    pub target_port: Option<String>,
    pub protocol: Option<String>,
}

/// One service, as read from the control plane.
#[derive(Clone, Debug)]
pub struct ServiceRecord {
    pub name: Option<String>,
    pub namespace: Option<String>,
    pub service_type: Option<String>,
    pub cluster_ip: Option<String>,
    pub external_ip: Option<String>,
    pub ports: Vec<ServicePortRecord>,
    pub created_at: Option<String>,
}

/// One service, ready for display.
#[derive(Clone, Debug)]
pub struct ServiceInfo {
    pub name: String,
    pub namespace: String,
    pub type_: String,
    pub cluster_ip: String,
    pub external_ip: Option<String>,
    pub ports: String,
    pub age: String,
}

/// Coarse age rendering: whole days, else whole hours, else whole
/// minutes; anything before a minute, clock skew included, reads `"0m"`.
pub open spec fn spec_coarse_age(t: int) -> Seq<char> {
    let u: int = if t < 0 {
        0
    } else {
        t
    };
    if u / 86400 > 0 {
        dec_str((u / 86400) as nat) + "d"@
    } else if u / 3600 > 0 {
        dec_str((u / 3600) as nat) + "h"@
    } else {
        dec_str((u / 60) as nat) + "m"@
    }
}

/// Renders a coarse age from elapsed seconds.
pub fn format_coarse_age(seconds: i64) -> (s: String)
    ensures
        s@ == spec_coarse_age(seconds as int),
{
    let t: u64 = if seconds < 0 {
        0
    } else {
        seconds as u64
    };
    if t / 86400 > 0 {
        let mut s = u64_to_string(t / 86400);
        s.append("d");
        s
    } else if t / 3600 > 0 {
        let mut s = u64_to_string(t / 3600);
        s.append("h");
        s
    } else {
        let mut s = u64_to_string(t / 60);
        s.append("m");
        s
    }
}

/// The elapsed seconds a record's creation time denotes, zero when it
/// does not parse or leaves the machine range.
pub open spec fn spec_age_seconds(created_at: Option<String>, now: int) -> int {
    match created_at {
        Some(ts) => match rfc3339_epoch_seconds(ts@) {
            Some(t) => if i64::MIN as int <= now - t <= i64::MAX as int {
                now - t
            } else {
                0
            },
            None => 0,
        },
        None => 0,
    }
}

/// Computes a record's age in seconds.
pub fn age_seconds(created_at: &Option<String>, now_epoch: i64) -> (r: i64)
    ensures
        r as int == spec_age_seconds(*created_at, now_epoch as int),
{
    match created_at {
        Some(ts) => match parse_rfc3339_seconds(ts.as_str()) {
            Some(t) => match now_epoch.checked_sub(t) {
                Some(d) => d,
                None => 0,
            },
            None => 0,
        },
        None => 0,
    }
}

/// One port's rendering: `"{port}:{target}/{protocol}"`.
pub open spec fn spec_port_text(p: ServicePortRecord) -> Seq<char> {
    dec_str_i(p.port as int) + ":"@ + (match p.target_port {
        Some(t) => t@,
        None => Seq::<char>::empty(),
    }) + "/"@ + (match p.protocol {
        Some(t) => t@,
        None => Seq::<char>::empty(),
    })
}

/// The ports joined with `", "`.
pub open spec fn spec_ports_text(ports: Seq<ServicePortRecord>) -> Seq<char>
    decreases ports.len(),
{
    if ports.len() == 0 {
        Seq::<char>::empty()
    } else if ports.len() == 1 {
        spec_port_text(ports.first())
    } else {
        spec_ports_text(ports.drop_last()) + ", "@ + spec_port_text(ports.last())
    }
}

fn push_port_text(out: &mut String, p: &ServicePortRecord)
    ensures
        final(out)@ == old(out)@ + spec_port_text(*p),
{
    let n = i32_to_string(p.port);
    out.append(n.as_str());
    out.append(":");
    match &p.target_port {
        Some(t) => out.append(t.as_str()),
        None => {},
    }
    out.append("/");
    match &p.protocol {
        Some(t) => out.append(t.as_str()),
        None => {},
    }
    proof {
        assert(final(out)@ =~= old(out)@ + spec_port_text(*p));
    }
}

fn ports_text(ports: &Vec<ServicePortRecord>) -> (s: String)
    ensures
        s@ == spec_ports_text(ports@),
{
    let mut s = String::new();
    let n = ports.len();
    let mut i: usize = 0;
    while i < n
        invariant
            i <= n,
            n == ports@.len(),
            s@ == spec_ports_text(ports@.take(i as int)),
        decreases n - i,
    {
        proof {
            assert(ports@.take(i + 1).drop_last() =~= ports@.take(i as int));
            assert(ports@.take(i + 1).last() == ports@[i as int]);
            if i == 0 {
                assert(ports@.take(1).first() == ports@[0]);
            }
        }
        if i > 0 {
            s.append(", ");
        }
        push_port_text(&mut s, &ports[i]);
        proof {
            assert(s@ =~= spec_ports_text(ports@.take(i + 1)));
        }
        i += 1;
    }
    proof {
        assert(ports@.take(n as int) =~= ports@);
    }
    s
}

#[verifier::ext_equal]
pub struct ServiceRow {
    pub name: Seq<char>,
    pub namespace: Seq<char>,
    pub type_: Seq<char>,
    pub cluster_ip: Seq<char>,
    pub external_ip: Option<Seq<char>>,
    pub ports: Seq<char>,
    pub age: Seq<char>,
}

pub open spec fn service_row_of(x: ServiceInfo) -> ServiceRow {
    ServiceRow {
        name: x.name@,
        namespace: x.namespace@,
        type_: x.type_@,
        cluster_ip: x.cluster_ip@,
        external_ip: opt_view(x.external_ip),
        ports: x.ports@,
        age: x.age@,
    }
}

pub open spec fn or_empty(s: Option<String>) -> Seq<char> {
    match s {
        Some(v) => v@,
        None => Seq::<char>::empty(),
    }
}

/// The display row of one service.
pub open spec fn spec_service_row(r: ServiceRecord, now: int) -> ServiceRow {
    ServiceRow {
        name: or_empty(r.name),
        namespace: or_empty(r.namespace),
        type_: or_empty(r.service_type),
        cluster_ip: or_empty(r.cluster_ip),
        external_ip: opt_view(r.external_ip),
        ports: spec_ports_text(r.ports@),
        age: spec_coarse_age(spec_age_seconds(r.created_at, now)),
    }
}

pub open spec fn spec_service_rows(s: Seq<ServiceRecord>, now: int) -> Seq<ServiceRow>
    decreases s.len(),
{
    if s.len() == 0 {
        Seq::<ServiceRow>::empty()
    } else {
        spec_service_rows(s.drop_last(), now).push(spec_service_row(s.last(), now))
    }
}

/// Assembles the services listing from fetched records, one row per
/// record in input order, ages dated against `now_epoch`.
pub fn get_services(services: &Vec<ServiceRecord>, now_epoch: i64) -> (r: Vec<ServiceInfo>)
    ensures
        r@.len() == services@.len(),
        r@.map_values(|x: ServiceInfo| service_row_of(x)) == spec_service_rows(
            services@,
            now_epoch as int,
        ),
{
    let n = services.len();
    let mut out: Vec<ServiceInfo> = Vec::new();
    let mut i: usize = 0;
    proof {
        assert(out@.map_values(|x: ServiceInfo| service_row_of(x)) =~= spec_service_rows(
            services@.take(0),
            now_epoch as int,
        ));
    }
    while i < n
        invariant
            i <= n,
            n == services@.len(),
            out@.len() == i,
            out@.map_values(|x: ServiceInfo| service_row_of(x)) == spec_service_rows(
                services@.take(i as int),
                now_epoch as int,
            ),
        decreases n - i,
    {
        let svc = &services[i];
        proof {
            assert(services@.take(i + 1).drop_last() =~= services@.take(i as int));
            assert(services@.take(i + 1).last() == services@[i as int]);
        }
        let age = format_coarse_age(age_seconds(&svc.created_at, now_epoch));
        let info = ServiceInfo {
            name: match &svc.name {
                Some(v) => v.clone(),
                None => String::new(),
            },
            namespace: match &svc.namespace {
                Some(v) => v.clone(),
                None => String::new(),
            },
            type_: match &svc.service_type {
                Some(v) => v.clone(),
                None => String::new(),
            },
            cluster_ip: match &svc.cluster_ip {
                Some(v) => v.clone(),
                None => String::new(),
            },
            external_ip: match &svc.external_ip {
                Some(v) => Some(v.clone()),
                None => None,
            },
            ports: ports_text(&svc.ports),
            age,
        };
        proof {
            assert(service_row_of(info) == spec_service_row(services@[i as int], now_epoch as int));
        }
        out.push(info);
        proof {
            assert(out@.map_values(|x: ServiceInfo| service_row_of(x)) =~= spec_service_rows(
                services@.take(i + 1),
                now_epoch as int,
            ));
        }
        i += 1;
    }
    proof {
        assert(services@.take(n as int) =~= services@);
    }
    out
}

} // verus!
