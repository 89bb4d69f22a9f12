//! AWS Kubernetes: EKS clusters and node groups.
use vstd::prelude::*;

use crate::migration::providers::aws::compute::{aws_instance_type_to_upcloud_plan, spec_aws_instance_plan};
use crate::migration::providers::shared::{
    hcl_value, spec_hcl_value, spec_upcloud_kubernetes_cluster_hcl, upcloud_kubernetes_cluster_hcl,
};
use crate::migration::types::{
    cat3, cat5, new_result, note, push_note, result_model, MigrationResult, MigrationStatus,
    ResultModel,
};
use crate::terraform::types::TerraformResource;
use crate::text::{
    before_char, before_char_v, chars_of, is_ws, is_ws_exec, push_str, push_vec, starts_with,
    starts_with_exec, string_of, trim, trim_char, trim_char_v, trim_v,
};

verus! {

pub open spec fn spec_map_eks_cluster(res: TerraformResource) -> ResultModel {
    let version = res.attr_trim_or("version"@, "1.31"@);
    let name = res.attr_trim_or("name"@, res.name@);
    result_model(
        res,
        MigrationStatus::Compatible,
        "upcloud_kubernetes_cluster"@,
        Some(spec_upcloud_kubernetes_cluster_hcl(res.name@, spec_hcl_value(name), spec_hcl_value(version))),
        None,
        None,
        seq![
            "EKS → UpCloud Managed Kubernetes (k8s "@ + version + ")"@,
            "network is auto-resolved from the EKS cluster's VPC subnets when a matching upcloud_network exists."@,
            "The upcloud_network used here must have lifecycle { ignore_changes = [router] } — generated automatically."@,
            "IAM roles for service accounts → use UpCloud API credentials instead."@,
            "Uncomment private_node_groups = true if all node-group subnets are private (nodes have no public IPs, outbound via NAT gateway)."@,
        ],
    )
}

/// `aws_eks_cluster` → `upcloud_kubernetes_cluster`.
pub fn map_eks_cluster(res: &TerraformResource) -> (r: MigrationResult)
    ensures
        r@ == spec_map_eks_cluster(*res),
{
    let version = string_of(&res.trimmed_or("version", "1.31"));
    let name = match res.get_trimmed("name") {
        Some(n) => string_of(&n),
        None => res.name.clone(),
    };
    let hcl = upcloud_kubernetes_cluster_hcl(res.name.as_str(), hcl_value(name.as_str()).as_str(), hcl_value(version.as_str()).as_str());
    let mut notes = note(cat3("EKS → UpCloud Managed Kubernetes (k8s ", version.as_str(), ")").as_str());
    push_note(&mut notes, String::from_str("network is auto-resolved from the EKS cluster's VPC subnets when a matching upcloud_network exists."));
    push_note(&mut notes, String::from_str("The upcloud_network used here must have lifecycle { ignore_changes = [router] } — generated automatically."));
    push_note(&mut notes, String::from_str("IAM roles for service accounts → use UpCloud API credentials instead."));
    push_note(&mut notes, String::from_str("Uncomment private_node_groups = true if all node-group subnets are private (nodes have no public IPs, outbound via NAT gateway)."));
    new_result(res, MigrationStatus::Compatible, "upcloud_kubernetes_cluster", Some(hcl), None, None, notes)
}

/// The words of `s` (split at whitespace) joined by single spaces, and whether a
/// space is owed before the next word.
pub open spec fn collapse_ws(s: Seq<char>) -> (Seq<char>, bool)
    decreases s.len(),
{
    if s.len() == 0 {
        (seq![], false)
    } else {
        let (o, p) = collapse_ws(s.drop_last());
        let c = s.last();
        if is_ws(c) {
            (o, o.len() > 0)
        } else {
            ((if p { o.push(' ') } else { o }).push(c), false)
        }
    }
}

fn collapse_ws_exec(s: &Vec<char>) -> (r: Vec<char>)
    ensures
        r@ == collapse_ws(s@).0,
{
    let mut o: Vec<char> = Vec::new();
    let mut p = false;
    let mut i: usize = 0;
    assert(s@.take(0) =~= Seq::<char>::empty());
    while i < s.len()
        invariant
            i <= s@.len(),
            collapse_ws(s@.take(i as int)) == (o@, p),
        decreases s@.len() - i,
    {
        assert(s@.take(i + 1).drop_last() =~= s@.take(i as int));
        assert(s@.take(i + 1).last() == s@[i as int]);
        let c = s[i];
        if is_ws_exec(c) {
            p = o.len() > 0;
        } else {
            if p {
                o.push(' ');
            }
            o.push(c);
            p = false;
        }
        i += 1;
    }
    assert(s@.take(i as int) =~= s@);
    o
}

pub open spec fn is_bracket(c: char) -> bool {
    c == '[' || c == ']'
}

pub open spec fn trim_start_brackets(s: Seq<char>) -> Seq<char>
    decreases s.len(),
{
    if s.len() > 0 && is_bracket(s[0]) {
        trim_start_brackets(s.drop_first())
    } else {
        s
    }
}

pub open spec fn trim_end_brackets(s: Seq<char>) -> Seq<char>
    decreases s.len(),
{
    if s.len() > 0 && is_bracket(s.last()) {
        trim_end_brackets(s.drop_last())
    } else {
        s
    }
}

fn trim_brackets_exec(v: &Vec<char>) -> (r: Vec<char>)
    ensures
        r@ == trim_end_brackets(trim_start_brackets(v@)),
{
    let n = v.len();
    let mut i: usize = 0;
    assert(v@.skip(0) =~= v@);
    while i < n && (v[i] == '[' || v[i] == ']')
        invariant
            n == v@.len(),
            i <= n,
            trim_start_brackets(v@) == trim_start_brackets(v@.skip(i as int)),
        decreases n - i,
    {
        assert(v@.skip(i as int).drop_first() =~= v@.skip(i + 1));
        i += 1;
    }
    assert(i < n ==> v@.skip(i as int)[0] == v@[i as int]);
    let mut j: usize = n;
    assert(v@.subrange(i as int, j as int) =~= v@.skip(i as int));
    while j > i && (v[j - 1] == '[' || v[j - 1] == ']')
        invariant
            n == v@.len(),
            i <= j <= n,
            trim_end_brackets(v@.skip(i as int)) == trim_end_brackets(v@.subrange(i as int, j as int)),
        decreases j,
    {
        assert(v@.subrange(i as int, j as int).drop_last() =~= v@.subrange(i as int, j - 1));
        j -= 1;
    }
    assert(j > i ==> v@.subrange(i as int, j as int).last() == v@[j - 1]);
    crate::text::slice_of(v, i, j)
}

/// The first instance type of a list such as `["t3.medium", ...]`.
pub open spec fn first_instance_type(types: Seq<char>) -> Seq<char> {
    trim_char(trim(before_char(trim_end_brackets(trim_start_brackets(types)), ',')), '"')
}

pub open spec fn spec_map_eks_node_group(res: TerraformResource) -> ResultModel {
    let types = match res.attr("instance_types"@) {
        Some(t) => collapse_ws(t).0,
        None => "[\"t3.medium\"]"@,
    };
    let first = first_instance_type(types);
    let plan = match spec_aws_instance_plan(first) {
        Some(p) => p,
        None => "2xCPU-4GB"@,
    };
    let desired = res.attr_trim_or("scaling_config.desired_size"@, "2"@);
    let min = res.attr_trim_or("scaling_config.min_size"@, "1"@);
    let max = res.attr_trim_or("scaling_config.max_size"@, "3"@);
    let ng_name = match res.attr_trim("node_group_name"@) {
        Some(n) => n,
        None => res.attr_trim_or("name"@, res.name@),
    };
    let n0 = seq![
        "Node group ("@ + types + ") → UpCloud k8s Node Group (plan: "@ + plan + ")"@,
        "UpCloud node groups don't auto-scale — set node_count explicitly."@,
        "cluster reference auto-resolved from the EKS cluster in the same config."@,
    ];
    let notes = if starts_with(first, "var."@) || starts_with(first, "${"@) {
        n0.push("instance_types is a variable reference — update plan manually after resolving the variable."@)
    } else {
        n0
    };
    result_model(
        res,
        MigrationStatus::Compatible,
        "upcloud_kubernetes_node_group"@,
        Some(spec_eks_node_group_hcl(res.name@, spec_hcl_value(ng_name), plan, types, desired, min, max)),
        None,
        None,
        notes,
    )
}

/// `aws_eks_node_group` → `upcloud_kubernetes_node_group`: plan from the first
/// instance type, node count from the desired size.
pub fn map_eks_node_group(res: &TerraformResource) -> (r: MigrationResult)
    ensures
        r@ == spec_map_eks_node_group(*res),
{
    let types = match res.get_attr("instance_types") {
        Some(t) => collapse_ws_exec(&t),
        None => chars_of("[\"t3.medium\"]"),
    };
    let tb = trim_brackets_exec(&types);
    let first = trim_char_v(&trim_v(&before_char_v(&tb, ',')), '"');
    let fs = string_of(&first);
    let plan: &str = match aws_instance_type_to_upcloud_plan(fs.as_str()) {
        Some(p) => p,
        None => "2xCPU-4GB",
    };
    let desired = string_of(&res.trimmed_or("scaling_config.desired_size", "2"));
    let min = string_of(&res.trimmed_or("scaling_config.min_size", "1"));
    let max = string_of(&res.trimmed_or("scaling_config.max_size", "3"));
    let ng_name = match res.get_trimmed("node_group_name") {
        Some(n) => string_of(&n),
        None => string_of(&res.trimmed_or("name", res.name.as_str())),
    };
    let ts = string_of(&types);
    let hcl = eks_node_group_hcl(res.name.as_str(), hcl_value(ng_name.as_str()).as_str(), plan, ts.as_str(), desired.as_str(), min.as_str(), max.as_str());
    let mut n0 = cat3("Node group (", ts.as_str(), ") → UpCloud k8s Node Group (plan: ");
    push_str(&mut n0, plan);
    push_str(&mut n0, ")");
    let mut notes: Vec<String> = Vec::new();
    push_note(&mut notes, n0);
    push_note(&mut notes, String::from_str("UpCloud node groups don't auto-scale — set node_count explicitly."));
    push_note(&mut notes, String::from_str("cluster reference auto-resolved from the EKS cluster in the same config."));
    if starts_with_exec(&first, "var.") || starts_with_exec(&first, "${") {
        push_note(&mut notes, String::from_str("instance_types is a variable reference — update plan manually after resolving the variable."));
    }
    new_result(res, MigrationStatus::Compatible, "upcloud_kubernetes_node_group", Some(hcl), None, None, notes)
}

pub open spec fn spec_eks_node_group_hcl(id: Seq<char>, ng_name_hcl: Seq<char>, plan: Seq<char>, instance_types: Seq<char>, desired: Seq<char>, min: Seq<char>, max: Seq<char>) -> Seq<char> {
    "resource \"upcloud_kubernetes_node_group\" \""@
        + id
        + "\" {\n  cluster    = upcloud_kubernetes_cluster.<TODO>.id\n  name       = "@
        + ng_name_hcl
        + "\n  plan       = \""@
        + plan
        + "\"  # from instance_types: "@
        + instance_types
        + "\n  node_count = "@
        + desired
        + "  # desired_size="@
        + desired
        + " (min="@
        + min
        + ", max="@
        + max
        + "; UpCloud node groups don't auto-scale)\n}\n"@
}

/// The node group resource of an EKS node group.
fn eks_node_group_hcl(id: &str, ng_name_hcl: &str, plan: &str, instance_types: &str, desired: &str, min: &str, max: &str) -> (r: String)
    ensures
        r@ == spec_eks_node_group_hcl(id@, ng_name_hcl@, plan@, instance_types@, desired@, min@, max@),
{
    let mut s = String::new();
    push_str(&mut s, "resource \"upcloud_kubernetes_node_group\" \"");
    push_str(&mut s, id);
    push_str(&mut s, "\" {\n  cluster    = upcloud_kubernetes_cluster.<TODO>.id\n  name       = ");
    push_str(&mut s, ng_name_hcl);
    push_str(&mut s, "\n  plan       = \"");
    push_str(&mut s, plan);
    push_str(&mut s, "\"  # from instance_types: ");
    push_str(&mut s, instance_types);
    push_str(&mut s, "\n  node_count = ");
    push_str(&mut s, desired);
    push_str(&mut s, "  # desired_size=");
    push_str(&mut s, desired);
    push_str(&mut s, " (min=");
    push_str(&mut s, min);
    push_str(&mut s, ", max=");
    push_str(&mut s, max);
    push_str(&mut s, "; UpCloud node groups don't auto-scale)\n}\n");
    s
}

} // verus!
