//! Ingress records and the ingress listing builder.

use vstd::prelude::*;
use crate::classify::opt_view;
use crate::services::{age_seconds, format_coarse_age, or_empty, spec_age_seconds, spec_coarse_age};

verus! {

/// One routing rule, as read from the control plane: the host, and the
/// paths of its HTTP block when one is present.
#[derive(Clone, Debug)]
pub struct IngressRuleRecord {
    pub host: Option<String>,
    pub http_paths: Option<Vec<Option<String>>>,
}

/// One ingress, as read from the control plane.
#[derive(Clone, Debug)]
pub struct IngressRecord {
    pub name: Option<String>,
    pub namespace: Option<String>,
    pub load_balancer: Option<String>,
    pub rules: Vec<IngressRuleRecord>,
    pub created_at: Option<String>,
}

/// One ingress, ready for display.
#[derive(Clone, Debug)]
pub struct IngressInfo {
    pub name: String,
    pub namespace: String,
    pub load_balancer: Option<String>,
    pub rules: Vec<String>,
    pub age: String,
}

/// A rule's host; missing reads `"*"`.
pub open spec fn spec_host_of(r: IngressRuleRecord) -> Seq<char> {
    match r.host {
        Some(h) => h@,
        None => "*"@,
    }
}

/// The lines one rule yields: the host joined to each HTTP path, or the
/// bare host when the rule has no HTTP block.
pub open spec fn spec_rule_lines(r: IngressRuleRecord) -> Seq<Seq<char>> {
    match r.http_paths {
        Some(paths) => paths@.map_values(
            |p: Option<String>| spec_host_of(r) + (match p {
                Some(v) => v@,
                None => Seq::<char>::empty(),
            }),
        ),
        None => seq![spec_host_of(r)],
    }
}

/// All rules' lines, flattened in order.
pub open spec fn spec_rules_lines(rules: Seq<IngressRuleRecord>) -> Seq<Seq<char>>
    decreases rules.len(),
{
    if rules.len() == 0 {
        Seq::<Seq<char>>::empty()
    } else {
        spec_rules_lines(rules.drop_last()) + spec_rule_lines(rules.last())
    }
}

fn host_of(r: &IngressRuleRecord) -> (h: String)
    ensures
        h@ == spec_host_of(*r),
{
    match &r.host {
        Some(h) => h.clone(),
        None => String::from_str("*"),
    }
}

fn rules_lines(rules: &Vec<IngressRuleRecord>) -> (out: Vec<String>)
    ensures
        out@.map_values(|s: String| s@) == spec_rules_lines(rules@),
{
    let n = rules.len();
    let mut out: Vec<String> = Vec::new();
    let mut i: usize = 0;
    proof {
        assert(out@.map_values(|s: String| s@) =~= spec_rules_lines(rules@.take(0)));
    }
    while i < n
        invariant
            i <= n,
            n == rules@.len(),
            out@.map_values(|s: String| s@) == spec_rules_lines(rules@.take(i as int)),
        decreases n - i,
    {
        let r = &rules[i];
        proof {
            assert(rules@.take(i + 1).drop_last() =~= rules@.take(i as int));
            assert(rules@.take(i + 1).last() == rules@[i as int]);
        }
        let host = host_of(r);
        match &r.http_paths {
            Some(paths) => {
                let np = paths.len();
                let mut j: usize = 0;
                let ghost lines = spec_rule_lines(rules@[i as int]);
                let ghost before = out@.map_values(|s: String| s@);
                proof {
                    assert(lines.len() == paths@.len());
                    assert(before + lines.take(0) =~= before);
                }
                while j < np
                    invariant
                        j <= np,
                        np == paths@.len(),
                        rules@[i as int].http_paths == Some(*paths),
                        host@ == spec_host_of(rules@[i as int]),
                        lines == spec_rule_lines(rules@[i as int]),
                        lines.len() == np,
                        out@.map_values(|s: String| s@) == before + lines.take(j as int),
                    decreases np - j,
                {
                    let mut line = host.clone();
                    match &paths[j] {
                        Some(p) => line.append(p.as_str()),
                        None => {},
                    }
                    proof {
                        assert(lines[j as int] == spec_host_of(rules@[i as int]) + (
                        match paths@[j as int] {
                            Some(v) => v@,
                            None => Seq::<char>::empty(),
                        }));
                        assert(line@ =~= lines[j as int]);
                    }
                    let ghost pre_rows = out@.map_values(|s: String| s@);
                    out.push(line);
                    proof {
                        assert(lines.take(j + 1).drop_last() =~= lines.take(j as int));
                        assert(lines.take(j + 1).last() == lines[j as int]);
                        assert(out@.map_values(|s: String| s@) =~= pre_rows.push(line@));
                        assert(pre_rows.push(line@) =~= before + lines.take(j + 1));
                    }
                    j += 1;
                }
                proof {
                    assert(lines.take(np as int) =~= lines);
                    assert(before + lines =~= spec_rules_lines(rules@.take(i + 1)));
                }
            },
            None => {
                proof {
                    assert(host@ =~= spec_host_of(rules@[i as int]) + Seq::<char>::empty());
                }
                out.push(host);
                proof {
                    assert(out@.map_values(|s: String| s@) =~= spec_rules_lines(
                        rules@.take(i + 1),
                    ));
                }
            },
        }
        i += 1;
    }
    proof {
        assert(rules@.take(n as int) =~= rules@);
    }
    out
}

#[verifier::ext_equal]
pub struct IngressRow {
    pub name: Seq<char>,
    pub namespace: Seq<char>,
    pub load_balancer: Option<Seq<char>>,
    pub rules: Seq<Seq<char>>,
    pub age: Seq<char>,
}

pub open spec fn ingress_row_of(x: IngressInfo) -> IngressRow {
    IngressRow {
        name: x.name@,
        namespace: x.namespace@,
        load_balancer: opt_view(x.load_balancer),
        rules: x.rules@.map_values(|s: String| s@),
        age: x.age@,
    }
}

/// The display row of one ingress.
pub open spec fn spec_ingress_row(r: IngressRecord, now: int) -> IngressRow {
    IngressRow {
        name: or_empty(r.name),
        namespace: or_empty(r.namespace),
        load_balancer: opt_view(r.load_balancer),
        rules: spec_rules_lines(r.rules@),
        age: spec_coarse_age(spec_age_seconds(r.created_at, now)),
    }
}

pub open spec fn spec_ingress_rows(s: Seq<IngressRecord>, now: int) -> Seq<IngressRow>
    decreases s.len(),
{
    if s.len() == 0 {
        Seq::<IngressRow>::empty()
    } else {
        spec_ingress_rows(s.drop_last(), now).push(spec_ingress_row(s.last(), now))
    }
}

/// Assembles the ingress listing from fetched records, one row per record
/// in input order, ages dated against `now_epoch`.
pub fn get_ingresses(ingresses: &Vec<IngressRecord>, now_epoch: i64) -> (r: Vec<IngressInfo>)
    ensures
        r@.len() == ingresses@.len(),
        r@.map_values(|x: IngressInfo| ingress_row_of(x)) == spec_ingress_rows(
            ingresses@,
            now_epoch as int,
        ),
{
    let n = ingresses.len();
    let mut out: Vec<IngressInfo> = Vec::new();
    let mut i: usize = 0;
    proof {
        assert(out@.map_values(|x: IngressInfo| ingress_row_of(x)) =~= spec_ingress_rows(
            ingresses@.take(0),
            now_epoch as int,
        ));
    }
    while i < n
        invariant
            i <= n,
            n == ingresses@.len(),
            out@.len() == i,
            out@.map_values(|x: IngressInfo| ingress_row_of(x)) == spec_ingress_rows(
                ingresses@.take(i as int),
                now_epoch as int,
            ),
        decreases n - i,
    {
        let ing = &ingresses[i];
        proof {
            assert(ingresses@.take(i + 1).drop_last() =~= ingresses@.take(i as int));
            assert(ingresses@.take(i + 1).last() == ingresses@[i as int]);
        }
        let age = format_coarse_age(age_seconds(&ing.created_at, now_epoch));
        let info = IngressInfo {
            name: match &ing.name {
                Some(v) => v.clone(),
                None => String::new(),
            },
            namespace: match &ing.namespace {
                Some(v) => v.clone(),
                None => String::new(),
            },
            load_balancer: match &ing.load_balancer {
                Some(v) => Some(v.clone()),
                None => None,
            },
            rules: rules_lines(&ing.rules),
            age,
        };
        proof {
            assert(ingress_row_of(info) == spec_ingress_row(
                ingresses@[i as int],
                now_epoch as int,
            ));
        }
        out.push(info);
        proof {
            assert(out@.map_values(|x: IngressInfo| ingress_row_of(x)) =~= spec_ingress_rows(
                ingresses@.take(i + 1),
                now_epoch as int,
            ));
        }
        i += 1;
    }
    proof {
        assert(ingresses@.take(n as int) =~= ingresses@);
    }
    out
}

} // verus!
