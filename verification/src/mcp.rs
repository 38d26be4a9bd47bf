//! Infrastructure-tool summaries and their chat renderings.

use vstd::prelude::*;
use crate::strfmt::{dec_str_i, i32_to_string};

verus! {

/// Workload object counts.
#[derive(Clone, Debug)]
pub struct K8sResourceSummary {
    pub deployments: i32,
    pub statefulsets: i32,
    pub daemonsets: i32,
    pub services: i32,
    pub configmaps: i32,
    pub secrets: i32,
}

/// Network policy summary.
#[derive(Clone, Debug)]
pub struct CiliumPolicySummary {
    pub total_policies: i32,
    pub policies: Vec<CiliumPolicy>,
}

#[derive(Clone, Debug)]
pub struct CiliumPolicy {
    pub name: String,
    pub namespace: String,
    pub endpoints_matched: i32,
    pub ingress_rules: i32,
    pub egress_rules: i32,
}

/// Image vulnerability summary.
#[derive(Clone, Debug)]
pub struct TrivyVulnerabilitySummary {
    pub total_images: i32,
    pub critical: i32,
    pub high: i32,
    pub medium: i32,
    pub low: i32,
    pub images: Vec<TrivyImageReport>,
}

#[derive(Clone, Debug)]
pub struct TrivyImageReport {
    pub image: String,
    pub namespace: String,
    pub critical_count: i32,
    pub high_count: i32,
    pub last_scan: String,
}

// ---------------------------------------------------------------------------
// Workload object counts
// ---------------------------------------------------------------------------

/// The chat rendering of the workload object counts.
pub open spec fn spec_format_k8s_resources(r: K8sResourceSummary) -> Seq<char> {
    "## 📦 Kubernetes Resources\n\n| Resource | Count |\n|----------|-------|\n| Deployments | "@
        + dec_str_i(r.deployments as int) + " |\n| StatefulSets | "@ + dec_str_i(
        r.statefulsets as int,
    ) + " |\n| DaemonSets | "@ + dec_str_i(r.daemonsets as int) + " |\n| Services | "@
        + dec_str_i(r.services as int) + " |\n| ConfigMaps | "@ + dec_str_i(r.configmaps as int)
        + " |\n| Secrets | "@ + dec_str_i(r.secrets as int) + " |"@
}

/// Renders the workload object counts as a chat table.
pub fn format_k8s_resources(resources: &K8sResourceSummary) -> (s: String)
    ensures
        s@ == spec_format_k8s_resources(*resources),
{
    let mut s = String::from_str(
        "## 📦 Kubernetes Resources\n\n| Resource | Count |\n|----------|-------|\n| Deployments | ",
    );
    let v = i32_to_string(resources.deployments);
    s.append(v.as_str());
    s.append(" |\n| StatefulSets | ");
    let v = i32_to_string(resources.statefulsets);
    s.append(v.as_str());
    s.append(" |\n| DaemonSets | ");
    let v = i32_to_string(resources.daemonsets);
    s.append(v.as_str());
    s.append(" |\n| Services | ");
    let v = i32_to_string(resources.services);
    s.append(v.as_str());
    s.append(" |\n| ConfigMaps | ");
    let v = i32_to_string(resources.configmaps);
    s.append(v.as_str());
    s.append(" |\n| Secrets | ");
    let v = i32_to_string(resources.secrets);
    s.append(v.as_str());
    s.append(" |");
    proof {
        assert(s@ =~= spec_format_k8s_resources(*resources));
    }
    s
}

// ---------------------------------------------------------------------------
// Network policies
// ---------------------------------------------------------------------------

/// One policy's chat line.
pub open spec fn spec_policy_line(p: CiliumPolicy) -> Seq<char> {
    "- `"@ + p.name@ + "` ("@ + p.namespace@ + ") | "@ + dec_str_i(p.endpoints_matched as int)
        + " endpoints | "@ + dec_str_i(p.ingress_rules as int) + " ingress, "@ + dec_str_i(
        p.egress_rules as int,
    ) + " egress rules"@
}

/// The first `k` policy lines, each preceded by a line break.
pub open spec fn spec_policy_lines(s: Seq<CiliumPolicy>, k: int) -> Seq<char>
    decreases k,
{
    if k <= 0 {
        Seq::<char>::empty()
    } else {
        spec_policy_lines(s, k - 1) + "\n"@ + spec_policy_line(s[k - 1])
    }
}

/// The chat rendering of the policy summary: a note when empty, else a
/// header and the first ten policies.
pub open spec fn spec_format_cilium_policies(r: CiliumPolicySummary) -> Seq<char> {
    if r.policies@.len() == 0 {
        "## 🛡️ Cilium Policies\n\nNo network policies found."@
    } else {
        let shown: int = if r.policies@.len() < 10 {
            r.policies@.len() as int
        } else {
            10
        };
        "## 🛡️ Cilium Network Policies\n\n**Total:** "@ + dec_str_i(r.total_policies as int)
            + " policies\n"@ + spec_policy_lines(r.policies@, shown)
    }
}

/// Renders the policy summary for chat.
pub fn format_cilium_policies(summary: &CiliumPolicySummary) -> (s: String)
    ensures
        s@ == spec_format_cilium_policies(*summary),
{
    let n = summary.policies.len();
    if n == 0 {
        return String::from_str("## 🛡️ Cilium Policies\n\nNo network policies found.");
    }
    let shown: usize = if n < 10 {
        n
    } else {
        10
    };
    let mut s = String::from_str("## 🛡️ Cilium Network Policies\n\n**Total:** ");
    let v = i32_to_string(summary.total_policies);
    s.append(v.as_str());
    s.append(" policies\n");
    let ghost head = s@;
    let mut i: usize = 0;
    while i < shown
        invariant
            i <= shown,
            shown <= summary.policies@.len(),
            s@ == head + spec_policy_lines(summary.policies@, i as int),
        decreases shown - i,
    {
        let p = &summary.policies[i];
        s.append("\n");
        s.append("- `");
        s.append(p.name.as_str());
        s.append("` (");
        s.append(p.namespace.as_str());
        s.append(") | ");
        let v = i32_to_string(p.endpoints_matched);
        s.append(v.as_str());
        s.append(" endpoints | ");
        let v = i32_to_string(p.ingress_rules);
        s.append(v.as_str());
        s.append(" ingress, ");
        let v = i32_to_string(p.egress_rules);
        s.append(v.as_str());
        s.append(" egress rules");
        proof {
            assert(s@ =~= head + spec_policy_lines(summary.policies@, i + 1));
        }
        i += 1;
    }
    proof {
        assert(s@ =~= spec_format_cilium_policies(*summary));
    }
    s
}

// ---------------------------------------------------------------------------
// Image vulnerabilities
// ---------------------------------------------------------------------------

/// An image name cut to at most forty characters.
pub open spec fn spec_image_cut(name: Seq<char>) -> Seq<char> {
    if name.len() <= 40 {
        name
    } else {
        name.take(40)
    }
}

/// One critical image's chat line.
pub open spec fn spec_image_line(img: TrivyImageReport) -> Seq<char> {
    "- `"@ + spec_image_cut(img.image@) + "` ("@ + img.namespace@ + ") - "@ + dec_str_i(
        img.critical_count as int,
    ) + " critical, "@ + dec_str_i(img.high_count as int) + " high"@
}

/// Lines for the first `budget` images carrying critical findings, each
/// preceded by a line break.
pub open spec fn spec_critical_image_lines(s: Seq<TrivyImageReport>, budget: int) -> Seq<char>
    decreases s.len(),
{
    if s.len() == 0 || budget <= 0 {
        Seq::<char>::empty()
    } else if s.first().critical_count > 0 {
        "\n"@ + spec_image_line(s.first()) + spec_critical_image_lines(s.drop_first(), budget - 1)
    } else {
        spec_critical_image_lines(s.drop_first(), budget)
    }
}

/// The chat rendering of the vulnerability summary: the severity table,
/// and, when any image was scanned, up to five images with critical
/// findings.
pub open spec fn spec_format_trivy(r: TrivyVulnerabilitySummary) -> Seq<char> {
    let head = "## 🔍 Security Vulnerabilities (Trivy)\n\n**Images Scanned:** "@ + dec_str_i(
        r.total_images as int,
    ) + "\n\n| Severity | Count |\n|----------|-------|\n| 🔴 Critical | "@ + dec_str_i(
        r.critical as int,
    ) + " |\n| 🟠 High | "@ + dec_str_i(r.high as int) + " |\n| 🟡 Medium | "@ + dec_str_i(
        r.medium as int,
    ) + " |\n| 🟢 Low | "@ + dec_str_i(r.low as int) + " |\n"@;
    if r.images@.len() == 0 {
        head
    } else {
        head + "\n**Images with Critical Vulnerabilities:**\n"@ + spec_critical_image_lines(
            r.images@,
            5,
        )
    }
}

/// Renders the vulnerability summary for chat.
#[verifier::rlimit(60)]
pub fn format_trivy_vulnerabilities(summary: &TrivyVulnerabilitySummary) -> (s: String)
    ensures
        s@ == spec_format_trivy(*summary),
{
    let mut s = String::from_str(
        "## 🔍 Security Vulnerabilities (Trivy)\n\n**Images Scanned:** ",
    );
    let v = i32_to_string(summary.total_images);
    s.append(v.as_str());
    s.append("\n\n| Severity | Count |\n|----------|-------|\n| 🔴 Critical | ");
    let v = i32_to_string(summary.critical);
    s.append(v.as_str());
    s.append(" |\n| 🟠 High | ");
    let v = i32_to_string(summary.high);
    s.append(v.as_str());
    s.append(" |\n| 🟡 Medium | ");
    let v = i32_to_string(summary.medium);
    s.append(v.as_str());
    s.append(" |\n| 🟢 Low | ");
    let v = i32_to_string(summary.low);
    s.append(v.as_str());
    s.append(" |\n");
    let n = summary.images.len();
    if n == 0 {
        proof {
            assert(s@ =~= spec_format_trivy(*summary));
        }
        return s;
    }
    s.append("\n**Images with Critical Vulnerabilities:**\n");
    let ghost head = s@;
    let ghost all = summary.images@;
    let mut taken: usize = 0;
    let mut i: usize = 0;
    proof {
        assert(all.skip(0) =~= all);
    }
    while i < n && taken < 5
        invariant
            i <= n,
            taken <= 5,
            n == all.len(),
            all == summary.images@,
            s@ + spec_critical_image_lines(all.skip(i as int), 5 - taken) == head
                + spec_critical_image_lines(all, 5),
        decreases n - i,
    {
        let img = &summary.images[i];
        proof {
            assert(all.skip(i as int).first() == all[i as int]);
            assert(all.skip(i as int).drop_first() =~= all.skip(i + 1));
        }
        if img.critical_count > 0 {
            let cut: &str = {
                let len = img.image.unicode_len();
                if len <= 40 {
                    img.image.as_str()
                } else {
                    img.image.as_str().substring_char(0, 40)
                }
            };
            s.append("\n");
            s.append("- `");
            s.append(cut);
            s.append("` (");
            s.append(img.namespace.as_str());
            s.append(") - ");
            let v = i32_to_string(img.critical_count);
            s.append(v.as_str());
            s.append(" critical, ");
            let v = i32_to_string(img.high_count);
            s.append(v.as_str());
            s.append(" high");
            proof {
                assert(spec_critical_image_lines(all.skip(i as int), 5 - taken) == "\n"@
                    + spec_image_line(all[i as int]) + spec_critical_image_lines(
                    all.skip(i + 1),
                    5 - taken - 1,
                ));
            }
            taken += 1;
            proof {
                assert(s@ + spec_critical_image_lines(all.skip(i + 1), 5 - taken) =~= head
                    + spec_critical_image_lines(all, 5));
            }
        } else {
            proof {
                assert(spec_critical_image_lines(all.skip(i as int), 5 - taken)
                    == spec_critical_image_lines(all.skip(i + 1), 5 - taken));
            }
        }
        i += 1;
    }
    proof {
        if i == n {
            assert(all.skip(n as int).len() == 0);
            assert(spec_critical_image_lines(all.skip(n as int), 5 - taken)
                =~= Seq::<char>::empty());
        } else {
            assert(taken == 5);
            assert(spec_critical_image_lines(all.skip(i as int), 0) =~= Seq::<char>::empty());
        }
        assert(s@ + Seq::<char>::empty() =~= s@);
        assert(s@ =~= spec_format_trivy(*summary));
    }
    s
}

} // verus!
