//! Azure Kubernetes: AKS clusters and node pools.
use vstd::prelude::*;

use crate::migration::providers::aws::network::{attr_seg, seg_after};
use crate::migration::providers::azure::compute::{azure_vm_size_to_upcloud_plan, spec_azure_vm_plan};
use crate::migration::providers::shared::{
    hcl_value, spec_hcl_value, spec_upcloud_kubernetes_cluster_hcl, upcloud_kubernetes_cluster_hcl,
};
use crate::migration::types::{
    cat2, cat3, cat5, new_result, note, opt_view, push_note, result_model, MigrationResult,
    MigrationStatus, ResultModel,
};
use crate::terraform::types::TerraformResource;
use crate::text::{before_char_v, chars_of, push_str, slice_of, starts_with_exec, string_of, trim_char_v};

verus! {

fn attr_seg_exec(res: &TerraformResource, key: &str, prefix: &str) -> (r: Option<String>)
    ensures
        opt_view(r) == attr_seg(*res, key@, prefix@),
{
    match res.get_attr(key) {
        Some(v) => {
            let t = trim_char_v(&v, '"');
            if starts_with_exec(&t, prefix) {
                let pl = chars_of(prefix).len();
                let n = t.len();
                let rest = slice_of(&t, pl, n);
                assert(rest@ =~= t@.skip(prefix@.len() as int));
                Some(string_of(&before_char_v(&rest, '.')))
            } else {
                None
            }
        },
        None => None,
    }
}

pub open spec fn spec_map_kubernetes_cluster(res: TerraformResource) -> ResultModel {
    let version = res.attr_trim_or("kubernetes_version"@, "1.31"@);
    let name = res.attr_trim_or("name"@, res.name@);
    let body = spec_upcloud_kubernetes_cluster_hcl(res.name@, spec_hcl_value(name), spec_hcl_value(version));
    let notes0 = Seq::<Seq<char>>::empty();
    let notes1 = notes0.push("AKS → UpCloud Managed Kubernetes (k8s "@ + version + ")"@);
    let notes2 = notes1.push("network is auto-resolved from the AKS cluster's VNet subnets when a matching upcloud_network exists."@);
    let notes3 = notes2.push("The upcloud_network used here must have lifecycle { ignore_changes = [router] } — generated automatically."@);
    let notes4 = notes3.push("Azure RBAC and AAD integration → use UpCloud API credentials instead."@);
    result_model(res, MigrationStatus::Compatible, "upcloud_kubernetes_cluster"@, Some(body), None, None, notes4)
}

/// `azurerm_kubernetes_cluster` → `upcloud_kubernetes_cluster`.
pub fn map_kubernetes_cluster(res: &TerraformResource) -> (r: MigrationResult)
    ensures
        r@ == spec_map_kubernetes_cluster(*res),
{
    let version: String = string_of(&res.trimmed_or("kubernetes_version", "1.31"));
    let name: String = string_of(&res.trimmed_or("name", res.name.as_str()));
    let body: String = upcloud_kubernetes_cluster_hcl(res.name.as_str(), hcl_value(name.as_str()).as_str(), hcl_value(version.as_str()).as_str());
    let mut hcl = String::new();
    push_str(&mut hcl, body.as_str());
    let mut notes: Vec<String> = Vec::new();
    let mut n0 = String::new();
    push_str(&mut n0, "AKS → UpCloud Managed Kubernetes (k8s ");
    push_str(&mut n0, version.as_str());
    push_str(&mut n0, ")");
    push_note(&mut notes, n0);
    let mut n1 = String::new();
    push_str(&mut n1, "network is auto-resolved from the AKS cluster's VNet subnets when a matching upcloud_network exists.");
    push_note(&mut notes, n1);
    let mut n2 = String::new();
    push_str(&mut n2, "The upcloud_network used here must have lifecycle { ignore_changes = [router] } — generated automatically.");
    push_note(&mut notes, n2);
    let mut n3 = String::new();
    push_str(&mut n3, "Azure RBAC and AAD integration → use UpCloud API credentials instead.");
    push_note(&mut notes, n3);
    new_result(res, MigrationStatus::Compatible, "upcloud_kubernetes_cluster", Some(hcl), None, None, notes)
}

pub open spec fn spec_map_kubernetes_cluster_node_pool(res: TerraformResource) -> ResultModel {
    let vm_size = res.attr_trim_or("vm_size"@, "Standard_D2s_v3"@);
    let plan = match spec_azure_vm_plan(vm_size) { Some(p) => p, None => "2xCPU-4GB"@ };
    let node_count = res.attr_trim_or("node_count"@, "2"@);
    let min = res.attr_trim_or("min_count"@, "1"@);
    let max = res.attr_trim_or("max_count"@, "3"@);
    let ng_name = spec_hcl_value(res.attr_trim_or("name"@, res.name@));
    let cluster_ref = match attr_seg(res, "kubernetes_cluster_id"@, "azurerm_kubernetes_cluster."@) { Some(n) => "upcloud_kubernetes_cluster."@ + n + ".id"@, None => "upcloud_kubernetes_cluster.<TODO>.id"@ };
    let notes0 = Seq::<Seq<char>>::empty();
    let notes1 = notes0.push("AKS Node Pool (vm_size: "@ + vm_size + ") → UpCloud k8s Node Group (plan: "@ + plan + ")"@);
    let notes2 = notes1.push("UpCloud node groups don't auto-scale — set node_count explicitly."@);
    let notes3 = notes2.push("cluster reference auto-resolved from the AKS cluster."@);
    result_model(res, MigrationStatus::Compatible, "upcloud_kubernetes_node_group"@, Some("resource \"upcloud_kubernetes_node_group\" \""@ + res.name@ + "\" {\n  cluster    = "@ + cluster_ref + "\n  name       = "@ + ng_name + "\n  plan       = \""@ + plan + "\"  # from vm_size: "@ + vm_size + "\n  node_count = "@ + node_count + "  # node_count="@ + node_count + " (min="@ + min + ", max="@ + max + "; UpCloud node groups don't auto-scale)\n}\n"@), None, None, notes3)
}

/// An AKS node pool → `upcloud_kubernetes_node_group`.
pub fn map_kubernetes_cluster_node_pool(res: &TerraformResource) -> (r: MigrationResult)
    ensures
        r@ == spec_map_kubernetes_cluster_node_pool(*res),
{
    let vm_size: String = string_of(&res.trimmed_or("vm_size", "Standard_D2s_v3"));
    let plan: String = match azure_vm_size_to_upcloud_plan(vm_size.as_str()) { Some(p) => String::from_str(p), None => String::from_str("2xCPU-4GB") };
    let node_count: String = string_of(&res.trimmed_or("node_count", "2"));
    let min: String = string_of(&res.trimmed_or("min_count", "1"));
    let max: String = string_of(&res.trimmed_or("max_count", "3"));
    let ng_name: String = hcl_value(string_of(&res.trimmed_or("name", res.name.as_str())).as_str());
    let cluster_ref: String = match attr_seg_exec(res, "kubernetes_cluster_id", "azurerm_kubernetes_cluster.") { Some(n) => cat3("upcloud_kubernetes_cluster.", n.as_str(), ".id"), None => String::from_str("upcloud_kubernetes_cluster.<TODO>.id") };
    let mut hcl = String::new();
    push_str(&mut hcl, "resource \"upcloud_kubernetes_node_group\" \"");
    push_str(&mut hcl, res.name.as_str());
    push_str(&mut hcl, "\" {\n  cluster    = ");
    push_str(&mut hcl, cluster_ref.as_str());
    push_str(&mut hcl, "\n  name       = ");
    push_str(&mut hcl, ng_name.as_str());
    push_str(&mut hcl, "\n  plan       = \"");
    push_str(&mut hcl, plan.as_str());
    push_str(&mut hcl, "\"  # from vm_size: ");
    push_str(&mut hcl, vm_size.as_str());
    push_str(&mut hcl, "\n  node_count = ");
    push_str(&mut hcl, node_count.as_str());
    push_str(&mut hcl, "  # node_count=");
    push_str(&mut hcl, node_count.as_str());
    push_str(&mut hcl, " (min=");
    push_str(&mut hcl, min.as_str());
    push_str(&mut hcl, ", max=");
    push_str(&mut hcl, max.as_str());
    push_str(&mut hcl, "; UpCloud node groups don't auto-scale)\n}\n");
    let mut notes: Vec<String> = Vec::new();
    let mut n0 = String::new();
    push_str(&mut n0, "AKS Node Pool (vm_size: ");
    push_str(&mut n0, vm_size.as_str());
    push_str(&mut n0, ") → UpCloud k8s Node Group (plan: ");
    push_str(&mut n0, plan.as_str());
    push_str(&mut n0, ")");
    push_note(&mut notes, n0);
    let mut n1 = String::new();
    push_str(&mut n1, "UpCloud node groups don't auto-scale — set node_count explicitly.");
    push_note(&mut notes, n1);
    let mut n2 = String::new();
    push_str(&mut n2, "cluster reference auto-resolved from the AKS cluster.");
    push_note(&mut notes, n2);
    new_result(res, MigrationStatus::Compatible, "upcloud_kubernetes_node_group", Some(hcl), None, None, notes)
}

} // verus!
