//! Azure-specific source HCL extraction and output processing helpers.
use vstd::prelude::*;

use crate::migration::providers::scan::{
    collect_refs, extract_hcl_attr, find_keyed_pair, find_keyed_ref, find_line_ref,
    first_keyed_ref, spec_collect_refs, spec_extract_hcl_attr, spec_keyed_pair, spec_line_ref,
};
use crate::migration::providers::shared::{lemma_san_wf_for, sanitize_ends_when_markers_lack_prefixes, sanitize_provider_refs, spec_sanitize_provider_refs};
use crate::migration::types::strs_view;
use crate::text::ref_char;
use crate::migration::var_detector::opt_string_view;
use crate::migration::generator::{inside_todo_marker, spec_inside_todo_marker};
use crate::text::{
    before_char, before_char_v, chars_of, count_char, count_char_v, dec, eq_str, find,
    find_char_from, find_from, find_from_exec, lemma_find_from_bounds, lemma_ref_end_bounds, lines,
    matches_at, parse_u32, parse_u32_str, push_str, push_u64, push_vec, ref_end, ref_end_exec,
    replace_char, replace_char_v, slice_of, spec_to_lowercase, starts_with, starts_with_exec,
    string_of, to_lowercase, rfind, rfind_below_exec, lemma_rfind_bounds, string_of_range,
    seq_eq, views,
};
use crate::text_sort::{dedup_adj, dedup_char_vecs, isort_by, lemma_isort_by_map, sort_char_vecs, vec_key};

verus! {

// ── Source HCL extraction helpers ─────────────────────────────────────────────

/// Scan an Azure VM source HCL block and return all NSG resource names
/// referenced in `network_security_group_id` attributes.
pub fn extract_nsg_refs_from_instance_hcl(hcl: &str) -> (r: Vec<String>)
    ensures
        strs_view(r@) == spec_collect_refs(hcl@, "azurerm_network_security_group."@),
{
    proof {
        reveal_strlit("azurerm_network_security_group.");
    }
    collect_refs(hcl, "azurerm_network_security_group.")
}

/// Extract the subnet name from an Azure VM or NIC source HCL block.
/// Returns the subnet resource name from `subnet_id = azurerm_subnet.NAME.id`.
pub fn extract_subnet_from_instance_hcl(hcl: &str) -> (r: Option<String>)
    ensures
        opt_string_view(r) == first_keyed_ref(lines(hcl@), "subnet_id"@, "azurerm_subnet."@, true, false),
{
    find_keyed_ref(hcl, "subnet_id", "azurerm_subnet.", true, false)
}

/// Extract NIC resource names from an Azure VM's `network_interface_ids` attribute.
pub fn extract_nic_refs_from_instance_hcl(hcl: &str) -> (r: Vec<String>)
    ensures
        strs_view(r@) == spec_collect_refs(hcl@, "azurerm_network_interface."@),
{
    proof {
        reveal_strlit("azurerm_network_interface.");
    }
    collect_refs(hcl, "azurerm_network_interface.")
}

/// Parse an `azurerm_subnet_network_security_group_association` source HCL block.
/// Returns `(subnet_name, nsg_name)` if both can be extracted.
pub fn extract_nsg_subnet_association_hcl(hcl: &str) -> (r: Option<(String, String)>)
    ensures
        match r {
            Some((a, b)) => spec_keyed_pair(hcl@, "subnet_id"@, "azurerm_subnet."@, false, "network_security_group_id"@, "azurerm_network_security_group."@, false) == Some((a@, b@)),
            None => spec_keyed_pair(hcl@, "subnet_id"@, "azurerm_subnet."@, false, "network_security_group_id"@, "azurerm_network_security_group."@, false) is None,
        },
{
    find_keyed_pair(hcl, "subnet_id", "azurerm_subnet.", false, "network_security_group_id", "azurerm_network_security_group.", false)
}

/// Extract (backend_pool_name, server_name) from an `azurerm_lb_backend_address_pool_association` source HCL.
pub fn extract_backend_pool_server_from_association_hcl(hcl: &str) -> (r: Option<(String, String)>)
    ensures
        match r {
            Some((a, b)) => spec_keyed_pair(hcl@, "backend_address_pool_id"@, "azurerm_lb_backend_address_pool."@, false, "network_interface_id"@, "azurerm_network_interface."@, true) == Some((a@, b@)),
            None => spec_keyed_pair(hcl@, "backend_address_pool_id"@, "azurerm_lb_backend_address_pool."@, false, "network_interface_id"@, "azurerm_network_interface."@, true) is None,
        },
{
    find_keyed_pair(hcl, "backend_address_pool_id", "azurerm_lb_backend_address_pool.", false, "network_interface_id", "azurerm_network_interface.", true)
}

/// Extract backend pool name from an `azurerm_lb_rule` source HCL.
/// (A `backend_address_pool_ids` line also starts with `backend_address_pool_id`.)
pub fn extract_backend_pool_from_lb_rule_hcl(hcl: &str) -> (r: Option<String>)
    ensures
        opt_string_view(r) == first_keyed_ref(lines(hcl@), "backend_address_pool_id"@, "azurerm_lb_backend_address_pool."@, false, false),
{
    find_keyed_ref(hcl, "backend_address_pool_id", "azurerm_lb_backend_address_pool.", false, false)
}

/// Extract LB resource name from an `azurerm_lb_rule` source HCL.
pub fn extract_lb_name_from_rule_hcl(hcl: &str) -> (r: Option<String>)
    ensures
        opt_string_view(r) == spec_line_ref(hcl@, "loadbalancer_id"@, ""@, "azurerm_lb."@, false),
{
    find_line_ref(hcl, "loadbalancer_id", "", "azurerm_lb.", false)
}

pub open spec fn spec_extract_probe_and_backend(hcl: Seq<char>) -> Option<(Seq<char>, Seq<char>)> {
    match first_keyed_ref(lines(hcl), "backend_address_pool_id"@, "azurerm_lb_backend_address_pool."@, false, false) {
        Some(b) => match spec_line_ref(hcl, "probe_id"@, "azurerm_lb_probe."@, "azurerm_lb_probe."@, true) {
            Some(p) => Some((b, p)),
            None => None,
        },
        None => None,
    }
}

/// Extract (backend_pool_name, probe_name) from an `azurerm_lb_rule` source HCL.
/// Used to chain probe health check properties into the backend pool during generation.
pub fn extract_probe_and_backend_from_lb_rule_hcl(hcl: &str) -> (r: Option<(String, String)>)
    ensures
        match r {
            Some((a, b)) => spec_extract_probe_and_backend(hcl@) == Some((a@, b@)),
            None => spec_extract_probe_and_backend(hcl@) is None,
        },
{
    let backend = extract_backend_pool_from_lb_rule_hcl(hcl);
    match backend {
        Some(b) => match find_line_ref(hcl, "probe_id", "azurerm_lb_probe.", "azurerm_lb_probe.", true) {
            Some(p) => Some((b, p)),
            None => None,
        },
        None => None,
    }
}

/// The health check type for a probe protocol: `http` and `https` (any case) keep
/// their name, anything else is `tcp`.
pub open spec fn spec_hc_type(protocol: Option<Seq<char>>) -> Seq<char> {
    let p = match protocol {
        Some(x) => x,
        None => seq![],
    };
    if spec_to_lowercase(p) == "http"@ {
        "http"@
    } else if spec_to_lowercase(p) == "https"@ {
        "https"@
    } else {
        "tcp"@
    }
}

fn hc_type(protocol: &Option<String>) -> (r: &'static str)
    ensures
        r@ == spec_hc_type(opt_string_view(*protocol)),
{
    let lower = match protocol {
        Some(p) => to_lowercase(p.as_str()),
        None => {
            proof {
                reveal_strlit("");
            }
            let e = to_lowercase("");
            assert(""@ =~= Seq::<char>::empty());
            e
        },
    };
    let lv = chars_of(lower.as_str());
    if eq_str(&lv, "http") {
        "http"
    } else if eq_str(&lv, "https") {
        "https"
    } else {
        "tcp"
    }
}

/// A `    KEY = N` property line when `v` parses as a `u32`.
pub open spec fn num_prop_line(label: Seq<char>, v: Option<Seq<char>>) -> Seq<char> {
    match v {
        Some(s) => match parse_u32(s) {
            Some(n) => label + dec(n as nat) + "\n"@,
            None => seq![],
        },
        None => seq![],
    }
}

fn push_num_prop_line(s: &mut String, label: &str, v: &Option<String>)
    ensures
        final(s)@ == old(s)@ + num_prop_line(label@, opt_string_view(*v)),
{
    match v {
        Some(x) => match parse_u32_str(x.as_str()) {
            Some(n) => {
                push_str(s, label);
                push_u64(s, n as u64);
                push_str(s, "\n");
            },
            None => {},
        },
        None => {},
    }
}

/// Health check property lines for an `azurerm_lb_probe` block: the type, the URL for
/// HTTP(S) probes with a `request_path`, the interval, and rise/fall from
/// `number_of_probes` (numeric values only when they parse).
pub open spec fn spec_probe_health_check_props(hcl: Seq<char>) -> Seq<char> {
    let hc = spec_hc_type(spec_extract_hcl_attr(hcl, "protocol"@));
    let url = if hc == "http"@ || hc == "https"@ {
        match spec_extract_hcl_attr(hcl, "request_path"@) {
            Some(p) => "    health_check_url      = \""@ + p + "\"\n"@,
            None => seq![],
        }
    } else {
        seq![]
    };
    let n = spec_extract_hcl_attr(hcl, "number_of_probes"@);
    "    health_check_type     = \""@ + hc + "\"\n"@ + url
        + num_prop_line("    health_check_interval = "@, spec_extract_hcl_attr(hcl, "interval_in_seconds"@))
        + num_prop_line("    health_check_rise     = "@, n) + num_prop_line("    health_check_fall     = "@, n)
}

/// Extract health check property lines from an `azurerm_lb_probe` source HCL block.
/// Returns the `health_check_*` property lines suitable for an UpCloud backend `properties {}` block.
pub fn extract_probe_health_check_props_hcl(hcl: &str) -> (r: String)
    ensures
        r@ == spec_probe_health_check_props(hcl@),
{
    let protocol = extract_hcl_attr(hcl, "protocol");
    let hc = hc_type(&protocol);
    let mut props = String::new();
    push_str(&mut props, "    health_check_type     = \"");
    push_str(&mut props, hc);
    push_str(&mut props, "\"\n");
    let hv = chars_of(hc);
    if eq_str(&hv, "http") || eq_str(&hv, "https") {
        match extract_hcl_attr(hcl, "request_path") {
            Some(p) => {
                push_str(&mut props, "    health_check_url      = \"");
                push_str(&mut props, p.as_str());
                push_str(&mut props, "\"\n");
            },
            None => {},
        }
    }
    let interval = extract_hcl_attr(hcl, "interval_in_seconds");
    push_num_prop_line(&mut props, "    health_check_interval = ", &interval);
    let n = extract_hcl_attr(hcl, "number_of_probes");
    match &n {
        Some(x) => match parse_u32_str(x.as_str()) {
            Some(v) => {
                push_str(&mut props, "    health_check_rise     = ");
                push_u64(&mut props, v as u64);
                push_str(&mut props, "\n");
                push_str(&mut props, "    health_check_fall     = ");
                push_u64(&mut props, v as u64);
                push_str(&mut props, "\n");
            },
            None => {},
        },
        None => {},
    }
    props
}

/// Replace Azure-specific references that leaked into output HCL.
pub fn sanitize_azure_refs(s: String) -> (r: String)
    ensures
        r@ == spec_sanitize_provider_refs(s@, "azurerm_"@, "azurerm_"@, "Azure"@),
{
    proof {
        reveal_strlit("azurerm_");
        reveal_strlit("Azure");
        assert forall|j: int| 0 <= j < "azurerm_"@.len() implies ref_char(#[trigger] "azurerm_"@[j], false) by {}
        assert(!"Azure"@.contains('.')) by {
            if "Azure"@.contains('.') {
                let i = choose|i: int| 0 <= i < "Azure"@.len() && "Azure"@[i] == '.';
            }
        }
        assert(!"Azure"@.contains('_')) by {
            if "Azure"@.contains('_') {
                let i = choose|i: int| 0 <= i < "Azure"@.len() && "Azure"@[i] == '_';
            }
        }
        lemma_san_wf_for("azurerm_"@, "azurerm_"@, "Azure"@, 7);
        sanitize_ends_when_markers_lack_prefixes(s@, "azurerm_"@, "azurerm_"@, "Azure"@);
    }
    sanitize_provider_refs(s, "azurerm_", "azurerm_", "Azure")
}

// ── Output reference rewriting tables ─────────────────────────────────────────


pub open spec fn spec_upcloud_type_for_azure(azure_type: Seq<char>) -> Option<Seq<char>> {
    if azure_type == "azurerm_linux_virtual_machine"@ || azure_type == "azurerm_windows_virtual_machine"@ || azure_type == "azurerm_virtual_machine"@ {
        Some("upcloud_server"@)
    } else if azure_type == "azurerm_lb"@ {
        Some("upcloud_loadbalancer"@)
    } else if azure_type == "azurerm_virtual_network"@ {
        Some("upcloud_router"@)
    } else if azure_type == "azurerm_subnet"@ {
        Some("upcloud_network"@)
    } else if azure_type == "azurerm_network_security_group"@ {
        Some("upcloud_firewall_rules"@)
    } else if azure_type == "azurerm_postgresql_server"@ || azure_type == "azurerm_postgresql_flexible_server"@ {
        Some("upcloud_managed_database_postgresql"@)
    } else if azure_type == "azurerm_mysql_server"@ || azure_type == "azurerm_mysql_flexible_server"@ {
        Some("upcloud_managed_database_mysql"@)
    } else if azure_type == "azurerm_redis_cache"@ {
        Some("upcloud_managed_database_valkey"@)
    } else if azure_type == "azurerm_storage_account"@ {
        Some("upcloud_managed_object_storage"@)
    } else if azure_type == "azurerm_storage_share"@ || azure_type == "azurerm_storage_share_file"@ {
        Some("upcloud_file_storage"@)
    } else if azure_type == "azurerm_linux_virtual_machine_scale_set"@ {
        Some("upcloud_server"@)
    } else if azure_type == "azurerm_kubernetes_cluster"@ {
        Some("upcloud_kubernetes_cluster"@)
    } else if azure_type == "azurerm_public_ip"@ {
        Some("upcloud_floating_ip_address"@)
    } else {
        None
    }
}

/// Map an Azure resource type name to its UpCloud equivalent.
pub fn upcloud_type_for_azure(azure_type: &str) -> (r: Option<&'static str>)
    ensures
        r matches Some(x) ==> spec_upcloud_type_for_azure(azure_type@) == Some(x@),
        r is None ==> spec_upcloud_type_for_azure(azure_type@) is None,
{
    let v = chars_of(azure_type);
    if eq_str(&v, "azurerm_linux_virtual_machine") || eq_str(&v, "azurerm_windows_virtual_machine") || eq_str(&v, "azurerm_virtual_machine") {
        Some("upcloud_server")
    } else if eq_str(&v, "azurerm_lb") {
        Some("upcloud_loadbalancer")
    } else if eq_str(&v, "azurerm_virtual_network") {
        Some("upcloud_router")
    } else if eq_str(&v, "azurerm_subnet") {
        Some("upcloud_network")
    } else if eq_str(&v, "azurerm_network_security_group") {
        Some("upcloud_firewall_rules")
    } else if eq_str(&v, "azurerm_postgresql_server") || eq_str(&v, "azurerm_postgresql_flexible_server") {
        Some("upcloud_managed_database_postgresql")
    } else if eq_str(&v, "azurerm_mysql_server") || eq_str(&v, "azurerm_mysql_flexible_server") {
        Some("upcloud_managed_database_mysql")
    } else if eq_str(&v, "azurerm_redis_cache") {
        Some("upcloud_managed_database_valkey")
    } else if eq_str(&v, "azurerm_storage_account") {
        Some("upcloud_managed_object_storage")
    } else if eq_str(&v, "azurerm_storage_share") || eq_str(&v, "azurerm_storage_share_file") {
        Some("upcloud_file_storage")
    } else if eq_str(&v, "azurerm_linux_virtual_machine_scale_set") {
        Some("upcloud_server")
    } else if eq_str(&v, "azurerm_kubernetes_cluster") {
        Some("upcloud_kubernetes_cluster")
    } else if eq_str(&v, "azurerm_public_ip") {
        Some("upcloud_floating_ip_address")
    } else {
        None
    }
}

pub open spec fn spec_upcloud_resource_name_for(azure_type: Seq<char>, resource_name: Seq<char>) -> Seq<char> {
    if azure_type == "azurerm_virtual_network"@ {
        resource_name + "_router"@
    } else {
        resource_name
    }
}

/// Map an Azure resource type name to its UpCloud resource name.
pub fn upcloud_resource_name_for(azure_type: &str, resource_name: &str) -> (r: String)
    ensures
        r@ == spec_upcloud_resource_name_for(azure_type@, resource_name@),
{
    let mut s = String::from_str(resource_name);
    if eq_str(&chars_of(azure_type), "azurerm_virtual_network") {
        push_str(&mut s, "_router");
    }
    s
}

/// UpCloud attribute for an Azure attribute on a given UpCloud type; `None` where
/// there is no direct equivalent.
pub open spec fn spec_upcloud_attr_for(upcloud_type: Seq<char>, azure_attr: Seq<char>) -> Option<Seq<char>> {
    let t = upcloud_type;
    let a = azure_attr;
    let db = starts_with(t, "upcloud_managed_database"@);
    if t == "upcloud_server"@ && a == "id"@ {
        Some("id"@)
    } else if t == "upcloud_server"@ && a == "public_ip_address"@ {
        Some("network_interface[0].ip_address"@)
    } else if t == "upcloud_server"@ && a == "private_ip_address"@ {
        Some("network_interface[1].ip_address"@)
    } else if t == "upcloud_loadbalancer"@ && a == "id"@ {
        Some("id"@)
    } else if t == "upcloud_router"@ && a == "id"@ {
        Some("id"@)
    } else if t == "upcloud_network"@ && a == "id"@ {
        Some("id"@)
    } else if t == "upcloud_firewall_rules"@ && a == "id"@ {
        Some("id"@)
    } else if db && a == "id"@ {
        Some("id"@)
    } else if db && a == "fqdn"@ {
        Some("service_host"@)
    } else if db && a == "hostname"@ {
        Some("service_host"@)
    } else if db && a == "port"@ {
        Some("service_port"@)
    } else if t == "upcloud_kubernetes_cluster"@ && a == "id"@ {
        Some("id"@)
    } else if t == "upcloud_kubernetes_cluster"@ && a == "name"@ {
        Some("name"@)
    } else if t == "upcloud_floating_ip_address"@ && a == "id"@ {
        Some("id"@)
    } else if t == "upcloud_floating_ip_address"@ && a == "ip_address"@ {
        Some("ip_address"@)
    } else if t == "upcloud_managed_object_storage"@ && a == "name"@ {
        Some("name"@)
    } else if t == "upcloud_file_storage"@ && a == "name"@ {
        Some("name"@)
    } else {
        None
    }
}

/// Map an Azure attribute name to its UpCloud equivalent for a given UpCloud type.
pub fn upcloud_attr_for(upcloud_type: &str, azure_attr: &str) -> (r: Option<&'static str>)
    ensures
        r matches Some(x) ==> spec_upcloud_attr_for(upcloud_type@, azure_attr@) == Some(x@),
        r is None ==> spec_upcloud_attr_for(upcloud_type@, azure_attr@) is None,
{
    let t = chars_of(upcloud_type);
    let a = chars_of(azure_attr);
    let db = starts_with_exec(&t, "upcloud_managed_database");
    if eq_str(&t, "upcloud_server") && eq_str(&a, "id") {
        Some("id")
    } else if eq_str(&t, "upcloud_server") && eq_str(&a, "public_ip_address") {
        Some("network_interface[0].ip_address")
    } else if eq_str(&t, "upcloud_server") && eq_str(&a, "private_ip_address") {
        Some("network_interface[1].ip_address")
    } else if eq_str(&t, "upcloud_loadbalancer") && eq_str(&a, "id") {
        Some("id")
    } else if eq_str(&t, "upcloud_router") && eq_str(&a, "id") {
        Some("id")
    } else if eq_str(&t, "upcloud_network") && eq_str(&a, "id") {
        Some("id")
    } else if eq_str(&t, "upcloud_firewall_rules") && eq_str(&a, "id") {
        Some("id")
    } else if db && eq_str(&a, "id") {
        Some("id")
    } else if db && eq_str(&a, "fqdn") {
        Some("service_host")
    } else if db && eq_str(&a, "hostname") {
        Some("service_host")
    } else if db && eq_str(&a, "port") {
        Some("service_port")
    } else if eq_str(&t, "upcloud_kubernetes_cluster") && eq_str(&a, "id") {
        Some("id")
    } else if eq_str(&t, "upcloud_kubernetes_cluster") && eq_str(&a, "name") {
        Some("name")
    } else if eq_str(&t, "upcloud_floating_ip_address") && eq_str(&a, "id") {
        Some("id")
    } else if eq_str(&t, "upcloud_floating_ip_address") && eq_str(&a, "ip_address") {
        Some("ip_address")
    } else if eq_str(&t, "upcloud_managed_object_storage") && eq_str(&a, "name") {
        Some("name")
    } else if eq_str(&t, "upcloud_file_storage") && eq_str(&a, "name") {
        Some("name")
    } else {
        None
    }
}


/// `c` split at its first `.`: the part before and the part after (the whole text
/// and nothing when there is no `.`).
pub open spec fn split_dot(c: Seq<char>) -> (Seq<char>, Seq<char>) {
    match find(c, seq!['.']) {
        Some(i) => (c.take(i), c.skip(i + 1)),
        None => (c, seq![]),
    }
}

pub fn split_dot_exec(c: &Vec<char>) -> (r: (Vec<char>, Vec<char>))
    ensures
        (r.0@, r.1@) == split_dot(c@),
{
    let n = c.len();
    match find_char_from(c, '.', 0) {
        Some(i) => {
            assert(c@.skip(0) =~= c@);
            let a = slice_of(c, 0, i);
            let b = slice_of(c, i + 1, n);
            assert(a@ =~= c@.take(i as int));
            assert(b@ =~= c@.skip(i + 1));
            (a, b)
        },
        None => {
            assert(c@.skip(0) =~= c@);
            (slice_of(c, 0, n), Vec::new())
        },
    }
}

/// The UpCloud text for an Azure reference `TYPE.NAME.ATTR...`: the mapped type, name
/// and attribute; a TODO suffix when the attribute has no equivalent; `null` for a
/// resource group; a TODO marker for an unknown type.
pub open spec fn az_replacement(c: Seq<char>) -> Seq<char> {
    let (p0, r1) = split_dot(c);
    let (p1, p2) = split_dot(r1);
    let attr = before_char(p2, '[');
    match spec_upcloud_type_for_azure(p0) {
        Some(uc) => {
            let name = spec_upcloud_resource_name_for(p0, p1);
            match spec_upcloud_attr_for(uc, attr) {
                Some(a) => uc + "."@ + name + "."@ + a,
                None => uc + "."@ + name + ".<TODO: was ."@ + p2 + ">"@,
            }
        },
        None => if p0 == "azurerm_resource_group"@ {
            "null # Azure resource group: no UpCloud equivalent"@
        } else {
            "<TODO: was "@ + c + ">"@
        },
    }
}

fn az_replacement_exec(c: &Vec<char>) -> (r: Vec<char>)
    ensures
        r@ == az_replacement(c@),
{
    let (p0, r1) = split_dot_exec(c);
    let (p1, p2) = split_dot_exec(&r1);
    let attr = before_char_v(&p2, '[');
    let p0s = string_of(&p0);
    let mut out = String::new();
    match upcloud_type_for_azure(p0s.as_str()) {
        Some(uc) => {
            let name = upcloud_resource_name_for(p0s.as_str(), string_of(&p1).as_str());
            let attr_s = string_of(&attr);
            match upcloud_attr_for(uc, attr_s.as_str()) {
                Some(a) => {
                    push_str(&mut out, uc);
                    push_str(&mut out, ".");
                    push_str(&mut out, name.as_str());
                    push_str(&mut out, ".");
                    push_str(&mut out, a);
                },
                None => {
                    push_str(&mut out, uc);
                    push_str(&mut out, ".");
                    push_str(&mut out, name.as_str());
                    push_str(&mut out, ".<TODO: was .");
                    push_vec(&mut out, &p2);
                    push_str(&mut out, ">");
                },
            }
        },
        None => {
            if eq_str(&p0, "azurerm_resource_group") {
                push_str(&mut out, "null # Azure resource group: no UpCloud equivalent");
            } else {
                push_str(&mut out, "<TODO: was ");
                push_vec(&mut out, c);
                push_str(&mut out, ">");
            }
        },
    }
    chars_of(out.as_str())
}

pub proof fn lemma_azurerm_ref_chars(s: Seq<char>, start: int)
    requires
        matches_at(s, "azurerm_"@, start),
    ensures
        start + 8 <= ref_end(s, start, true) <= s.len(),
{
    reveal_strlit("azurerm_");
    assert forall|j: int| start <= j < start + 8 implies ref_char(#[trigger] s[j], true) by {
        assert(s[j] == s.subrange(start, start + 8)[j - start]);
    }
    lemma_ref_end_bounds(s, start, start + 8, true);
}

/// The rewriting scan from `from`: each `azurerm_` reference outside a TODO marker
/// with at least two dots is replaced in place by [`az_replacement`], and the scan
/// continues after the replacement; shorter references are passed over.
pub open spec fn az_rw_loop(s: Seq<char>, from: int) -> Seq<char>
    decreases s.len() - from,
{
    if from < 0 || from > s.len() {
        s
    } else {
        match find_from(s, "azurerm_"@, from) {
            None => s,
            Some(start) => {
                proof {
                    lemma_find_from_bounds(s, "azurerm_"@, from);
                    lemma_azurerm_ref_chars(s, start);
                }
                if spec_inside_todo_marker(s, start) {
                    az_rw_loop(s, start + 8)
                } else {
                    let end = ref_end(s, start, true);
                    let cand = s.subrange(start, end);
                    if count_char(cand, '.') < 2 {
                        az_rw_loop(s, end)
                    } else {
                        let rep = az_replacement(cand);
                        az_rw_loop(s.take(start) + rep + s.skip(end), start + rep.len())
                    }
                }
            },
        }
    }
}

/// Rewrite Azure resource references in output/locals blocks to UpCloud equivalents.
pub fn rewrite_output_refs(s: &str) -> (r: String)
    ensures
        r@ == az_rw_loop(s@, 0),
{
    let mut cur = chars_of(s);
    let az = chars_of("azurerm_");
    let mut from: usize = 0;
    loop
        invariant
            az@ == "azurerm_"@,
            from <= cur@.len(),
            az_rw_loop(s@, 0) == az_rw_loop(cur@, from as int),
        ensures
            az_rw_loop(s@, 0) == cur@,
        decreases cur@.len() - from,
    {
        match find_from_exec(&cur, &az, from) {
            None => {
                break;
            },
            Some(start) => {
                proof {
                    lemma_find_from_bounds(cur@, "azurerm_"@, from as int);
                    lemma_azurerm_ref_chars(cur@, start as int);
                }
                let n = cur.len();
                if inside_todo_marker(&cur, start) {
                    from = start + 8;
                } else {
                    let end = ref_end_exec(&cur, start, true);
                    let cand = slice_of(&cur, start, end);
                    if count_char_v(&cand, '.') < 2 {
                        from = end;
                    } else {
                        let rep = az_replacement_exec(&cand);
                        let mut next = slice_of(&cur, 0, start);
                        let mut k: usize = 0;
                        while k < rep.len()
                            invariant
                                k <= rep@.len(),
                                next@ == cur@.take(start as int) + rep@.take(k as int),
                            decreases rep@.len() - k,
                        {
                            next.push(rep[k]);
                            assert(rep@.take(k + 1) =~= rep@.take(k as int).push(rep@[k as int]));
                            k += 1;
                        }
                        assert(rep@.take(rep@.len() as int) =~= rep@);
                        let mut j = end;
                        while j < n
                            invariant
                                n == cur@.len(),
                                end <= j <= n,
                                next@ == cur@.take(start as int) + rep@ + cur@.subrange(end as int, j as int),
                            decreases n - j,
                        {
                            next.push(cur[j]);
                            assert(cur@.subrange(end as int, j + 1) =~= cur@.subrange(end as int, j as int).push(cur@[j as int]));
                            j += 1;
                        }
                        assert(cur@.subrange(end as int, n as int) =~= cur@.skip(end as int));
                        let nn = next.len();
                        assert(start + rep@.len() <= nn);
                        from = start + rep.len();
                        cur = next;
                    }
                }
            },
        }
    }
    string_of(&cur)
}

pub open spec fn spec_appgw_backend_block(id: Seq<char>, lb: Seq<char>, name: Seq<char>, health: Seq<char>) -> Seq<char> {
    "resource \"upcloud_loadbalancer_backend\" \""@
        + id
        + "\" {\n  loadbalancer = upcloud_loadbalancer."@
        + lb
        + ".id\n  name         = \""@
        + name
        + "\"\n\n  properties {\n"@
        + health
        + "  }\n}\n\n"@
}

/// One `upcloud_loadbalancer_backend` resource.
fn appgw_backend_block(id: &str, lb: &str, name: &str, health: &str) -> (r: String)
    ensures
        r@ == spec_appgw_backend_block(id@, lb@, name@, health@),
{
    let mut s = String::new();
    push_str(&mut s, "resource \"upcloud_loadbalancer_backend\" \"");
    push_str(&mut s, id);
    push_str(&mut s, "\" {\n  loadbalancer = upcloud_loadbalancer.");
    push_str(&mut s, lb);
    push_str(&mut s, ".id\n  name         = \"");
    push_str(&mut s, name);
    push_str(&mut s, "\"\n\n  properties {\n");
    push_str(&mut s, health);
    push_str(&mut s, "  }\n}\n\n");
    s
}

pub open spec fn spec_appgw_frontend_block(lid: Seq<char>, lb: Seq<char>, name: Seq<char>, port: u32, bid: Seq<char>) -> Seq<char> {
    "resource \"upcloud_loadbalancer_frontend\" \""@
        + lid
        + "\" {\n  loadbalancer         = upcloud_loadbalancer."@
        + lb
        + ".id\n  name                 = \""@
        + name
        + "\"\n  mode                 = \"http\"\n  port                 = "@
        + dec(port as nat)
        + "\n  default_backend_name = upcloud_loadbalancer_backend."@
        + bid
        + ".name\n\n  networks {\n    name = \"public\"\n  }\n}\n\n"@
}

/// One `upcloud_loadbalancer_frontend` resource with a default backend.
fn appgw_frontend_block(lid: &str, lb: &str, name: &str, port: u32, bid: &str) -> (r: String)
    ensures
        r@ == spec_appgw_frontend_block(lid@, lb@, name@, port, bid@),
{
    let mut s = String::new();
    push_str(&mut s, "resource \"upcloud_loadbalancer_frontend\" \"");
    push_str(&mut s, lid);
    push_str(&mut s, "\" {\n  loadbalancer         = upcloud_loadbalancer.");
    push_str(&mut s, lb);
    push_str(&mut s, ".id\n  name                 = \"");
    push_str(&mut s, name);
    push_str(&mut s, "\"\n  mode                 = \"http\"\n  port                 = ");
    push_u64(&mut s, port as u64);
    push_str(&mut s, "\n  default_backend_name = upcloud_loadbalancer_backend.");
    push_str(&mut s, bid);
    push_str(&mut s, ".name\n\n  networks {\n    name = \"public\"\n  }\n}\n\n");
    s
}

pub open spec fn spec_appgw_tls_block(lid: Seq<char>, cert_name: Seq<char>, cid: Seq<char>) -> Seq<char> {
    "resource \"upcloud_loadbalancer_frontend_tls_config\" \""@
        + lid
        + "_tls\" {\n  frontend           = upcloud_loadbalancer_frontend."@
        + lid
        + ".name\n  name               = \""@
        + cert_name
        + "\"\n  certificate_bundle = \"<TODO: upcloud_tls_certificate."@
        + cid
        + ".id>\"\n}\n\n"@
}

/// The TLS configuration of an HTTPS frontend.
fn appgw_tls_block(lid: &str, cert_name: &str, cid: &str) -> (r: String)
    ensures
        r@ == spec_appgw_tls_block(lid@, cert_name@, cid@),
{
    let mut s = String::new();
    push_str(&mut s, "resource \"upcloud_loadbalancer_frontend_tls_config\" \"");
    push_str(&mut s, lid);
    push_str(&mut s, "_tls\" {\n  frontend           = upcloud_loadbalancer_frontend.");
    push_str(&mut s, lid);
    push_str(&mut s, ".name\n  name               = \"");
    push_str(&mut s, cert_name);
    push_str(&mut s, "\"\n  certificate_bundle = \"<TODO: upcloud_tls_certificate.");
    push_str(&mut s, cid);
    push_str(&mut s, ".id>\"\n}\n\n");
    s
}

pub open spec fn spec_appgw_redirect_blocks(lid: Seq<char>, lb: Seq<char>, name: Seq<char>, port: u32, cfg_name: Seq<char>) -> Seq<char> {
    "# NOTE: HTTP→HTTPS redirect — the rule below handles all traffic.\nresource \"upcloud_loadbalancer_frontend\" \""@
        + lid
        + "\" {\n  loadbalancer         = upcloud_loadbalancer."@
        + lb
        + ".id\n  name                 = \""@
        + name
        + "\"\n  mode                 = \"http\"\n  port                 = "@
        + dec(port as nat)
        + "\n  default_backend_name = \"<TODO: required — assign a backend (redirect rule handles all traffic)>\"\n\n  networks {\n    name = \"public\"\n  }\n}\n\nresource \"upcloud_loadbalancer_frontend_rule\" \""@
        + lid
        + "_redirect\" {\n  frontend = upcloud_loadbalancer_frontend."@
        + lid
        + ".name\n  name     = \""@
        + cfg_name
        + "\"\n  priority = 100\n\n  actions {\n    http_redirect {\n      scheme = \"https\"\n    }\n  }\n\n  matchers {}\n}\n\n"@
}

/// A frontend whose traffic an HTTPS redirect rule handles, and that rule.
fn appgw_redirect_blocks(lid: &str, lb: &str, name: &str, port: u32, cfg_name: &str) -> (r: String)
    ensures
        r@ == spec_appgw_redirect_blocks(lid@, lb@, name@, port, cfg_name@),
{
    let mut s = String::new();
    push_str(&mut s, "# NOTE: HTTP→HTTPS redirect — the rule below handles all traffic.\nresource \"upcloud_loadbalancer_frontend\" \"");
    push_str(&mut s, lid);
    push_str(&mut s, "\" {\n  loadbalancer         = upcloud_loadbalancer.");
    push_str(&mut s, lb);
    push_str(&mut s, ".id\n  name                 = \"");
    push_str(&mut s, name);
    push_str(&mut s, "\"\n  mode                 = \"http\"\n  port                 = ");
    push_u64(&mut s, port as u64);
    push_str(&mut s, "\n  default_backend_name = \"<TODO: required — assign a backend (redirect rule handles all traffic)>\"\n\n  networks {\n    name = \"public\"\n  }\n}\n\nresource \"upcloud_loadbalancer_frontend_rule\" \"");
    push_str(&mut s, lid);
    push_str(&mut s, "_redirect\" {\n  frontend = upcloud_loadbalancer_frontend.");
    push_str(&mut s, lid);
    push_str(&mut s, ".name\n  name     = \"");
    push_str(&mut s, cfg_name);
    push_str(&mut s, "\"\n  priority = 100\n\n  actions {\n    http_redirect {\n      scheme = \"https\"\n    }\n  }\n\n  matchers {}\n}\n\n");
    s
}

pub open spec fn spec_appgw_cert_comment(cid: Seq<char>, cert_name: Seq<char>) -> Seq<char> {
    "# resource \"upcloud_tls_certificate\" \""@
        + cid
        + "\" {\n#   # certificate, private_key (PEM format) — was: "@
        + cert_name
        + "\n# }\n"@
}

/// A commented-out certificate resource to fill in.
fn appgw_cert_comment(cid: &str, cert_name: &str) -> (r: String)
    ensures
        r@ == spec_appgw_cert_comment(cid@, cert_name@),
{
    let mut s = String::new();
    push_str(&mut s, "# resource \"upcloud_tls_certificate\" \"");
    push_str(&mut s, cid);
    push_str(&mut s, "\" {\n#   # certificate, private_key (PEM format) — was: ");
    push_str(&mut s, cert_name);
    push_str(&mut s, "\n# }\n");
    s
}


/// Every character is a space or a tab.
pub open spec fn all_blank(s: Seq<char>) -> bool {
    forall|i: int| 0 <= i < s.len() ==> s[i] == ' ' || s[i] == '\t'
}

/// The start of the line that holds index `abs`.
pub open spec fn line_start(s: Seq<char>, abs: int) -> int {
    match rfind(s.take(abs), seq!['\n']) {
        Some(p) => p + 1,
        None => 0,
    }
}

/// The index of the `}` that closes a block whose body starts at `i` at nesting
/// `depth`, or the length when the block is not closed.
pub open spec fn close_index(s: Seq<char>, i: int, depth: nat) -> int
    decreases s.len() - i,
{
    if i < 0 || i >= s.len() {
        s.len() as int
    } else if s[i] == '{' {
        close_index(s, i + 1, depth + 1)
    } else if s[i] == '}' {
        if depth <= 1 {
            i
        } else {
            close_index(s, i + 1, (depth - 1) as nat)
        }
    } else {
        close_index(s, i + 1, depth)
    }
}

pub proof fn lemma_close_index_bounds(s: Seq<char>, i: int, depth: nat)
    requires
        0 <= i <= s.len(),
    ensures
        i <= close_index(s, i, depth) <= s.len(),
    decreases s.len() - i,
{
    if i < s.len() {
        if s[i] == '{' {
            lemma_close_index_bounds(s, i + 1, depth + 1);
        } else if s[i] == '}' {
            if depth > 1 {
                lemma_close_index_bounds(s, i + 1, (depth - 1) as nat);
            }
        } else {
            lemma_close_index_bounds(s, i + 1, depth);
        }
    }
}

/// The `(name, body)` of each block opened by `needle` (`TYPE {`) at the start of an
/// indented line, from `from` on, in source order; blocks without a `name` are left
/// out. `None` when a block is not closed: the scan would then read past the end.
pub open spec fn named_blocks(s: Seq<char>, needle: Seq<char>, from: int) -> Option<Seq<(Seq<char>, Seq<char>)>>
    decreases s.len() + 1 - from,
{
    if from > s.len() {
        None
    } else if from < 0 || needle.len() < 2 {
        Some(seq![])
    } else {
        match find_from(s, needle, from) {
            None => Some(seq![]),
            Some(abs) => {
                proof {
                    lemma_find_from_bounds(s, needle, from);
                }
                if !all_blank(s.subrange(line_start(s, abs), abs)) {
                    named_blocks(s, needle, abs + 1)
                } else {
                    let bo = abs + needle.len() - 1;
                    proof {
                        lemma_close_index_bounds(s, bo + 1, 1);
                    }
                    let i = close_index(s, bo + 1, 1);
                    let content = s.subrange(bo + 1, i);
                    match named_blocks(s, needle, i + 1) {
                        None => None,
                        Some(t) => Some(
                            match spec_extract_hcl_attr(content, "name"@) {
                                Some(n) => seq![(n, content)] + t,
                                None => t,
                            },
                        ),
                    }
                }
            },
        }
    }
}

pub open spec fn pairs_view(v: Seq<(String, String)>) -> Seq<(Seq<char>, Seq<char>)> {
    v.map_values(|p: (String, String)| (p.0@, p.1@))
}

fn close_index_exec(v: &Vec<char>, from: usize) -> (r: usize)
    requires
        1 <= from <= v@.len(),
    ensures
        r == close_index(v@, from as int, 1),
{
    let n = v.len();
    let mut depth: usize = 1;
    let mut i = from;
    while i < n
        invariant
            n == v@.len(),
            1 <= from <= i <= n,
            1 <= depth <= i - from + 1,
            close_index(v@, from as int, 1) == close_index(v@, i as int, depth as nat),
        decreases n - i,
    {
        let c = v[i];
        if c == '{' {
            depth += 1;
        } else if c == '}' {
            if depth <= 1 {
                return i;
            }
            depth -= 1;
        }
        i += 1;
    }
    i
}

fn all_blank_exec(v: &Vec<char>, lo: usize, hi: usize) -> (r: bool)
    requires
        lo <= hi <= v@.len(),
    ensures
        r == all_blank(v@.subrange(lo as int, hi as int)),
{
    let mut i = lo;
    while i < hi
        invariant
            lo <= i <= hi <= v@.len(),
            forall|j: int| lo <= j < i ==> v@[j] == ' ' || v@[j] == '\t',
        decreases hi - i,
    {
        if v[i] != ' ' && v[i] != '\t' {
            assert(v@.subrange(lo as int, hi as int)[i - lo] == v@[i as int]);
            return false;
        }
        i += 1;
    }
    assert forall|j: int| 0 <= j < hi - lo implies v@.subrange(lo as int, hi as int)[j] == ' '
        || v@.subrange(lo as int, hi as int)[j] == '\t' by {
        assert(v@.subrange(lo as int, hi as int)[j] == v@[lo + j]);
    }
    true
}

fn line_start_exec(v: &Vec<char>, abs: usize) -> (r: usize)
    requires
        abs <= v@.len(),
    ensures
        r == line_start(v@, abs as int),
        r <= abs,
{
    let head = slice_of(v, 0, abs);
    assert(head@ =~= v@.take(abs as int));
    let nl = chars_of("\n");
    proof {
        reveal_strlit("\n");
        assert(nl@ =~= seq!['\n']);
        assert(!matches_at(head@, nl@, head@.len() as int));
    }
    match rfind_below_exec(&head, &nl, head.len()) {
        Some(p) => {
            proof {
                lemma_rfind_bounds(head@, nl@);
            }
            p + 1
        },
        None => 0,
    }
}

/// The named blocks of `block_type` in Application Gateway source text, or `None`
/// when one of them is not closed.
fn named_blocks_v(hcl: &Vec<char>, block_type: &str) -> (r: Option<Vec<(String, String)>>)
    ensures
        match r {
            Some(v) => named_blocks(hcl@, block_type@ + " {"@, 0) == Some(pairs_view(v@)),
            None => named_blocks(hcl@, block_type@ + " {"@, 0) is None,
        },
{
    let mut nd = String::from_str(block_type);
    push_str(&mut nd, " {");
    let needle = chars_of(nd.as_str());
    let n = hcl.len();
    let mut acc: Vec<(String, String)> = Vec::new();
    let mut from: usize = 0;
    proof {
        reveal_strlit(" {");
    }
    loop
        invariant
            n == hcl@.len(),
            needle@ == block_type@ + " {"@,
            needle@.len() >= 2,
            from <= n + 1,
            named_blocks(hcl@, needle@, 0) == match named_blocks(hcl@, needle@, from as int) {
                Some(t) => Some(pairs_view(acc@) + t),
                None => None::<Seq<(Seq<char>, Seq<char>)>>,
            },
        decreases n + 1 - from,
    {
        if from > n {
            return None;
        }
        match find_from_exec(hcl, &needle, from) {
            None => {
                assert(pairs_view(acc@) + Seq::<(Seq<char>, Seq<char>)>::empty() =~= pairs_view(acc@));
                return Some(acc);
            },
            Some(abs) => {
                proof {
                    lemma_find_from_bounds(hcl@, needle@, from as int);
                }
                let ls = line_start_exec(hcl, abs);
                if !all_blank_exec(hcl, ls, abs) {
                    from = abs + 1;
                } else {
                    let bo = abs + needle.len() - 1;
                    let i = close_index_exec(hcl, bo + 1);
                    proof {
                        lemma_close_index_bounds(hcl@, bo + 1, 1);
                    }
                    if i == n {
                        assert(named_blocks(hcl@, needle@, i + 1) is None);
                        assert(named_blocks(hcl@, needle@, from as int) is None);
                        return None;
                    }
                    let content = string_of_range(hcl, bo + 1, i);
                    let ghost prev = pairs_view(acc@);
                    match extract_hcl_attr(content.as_str(), "name") {
                        Some(name) => {
                            acc.push((name, content));
                            assert(pairs_view(acc@) =~= prev.push((name@, content@)));
                            assert forall|t: Seq<(Seq<char>, Seq<char>)>| #![auto] prev + (seq![(name@, content@)] + t) =~= pairs_view(acc@) + t by {}
                        },
                        None => {},
                    }
                    from = i + 1;
                }
            },
        }
    }
}


/// The `(name, content)` of each `block_type { ... }` block that starts its line (after
/// indentation) in Application Gateway source text, in order; blocks without a `name`
/// attribute are left out. Every such block must be closed.
pub fn extract_appgw_named_blocks(hcl: &str, block_type: &str) -> (r: Vec<(String, String)>)
    requires
        named_blocks(hcl@, block_type@ + " {"@, 0) is Some,
    ensures
        pairs_view(r@) == appgw_blocks(hcl@, block_type@),
{
    named_blocks_v(&chars_of(hcl), block_type).unwrap()
}

/// The named blocks of one type (none when a block is not closed).
pub open spec fn appgw_blocks(hcl: Seq<char>, bt: Seq<char>) -> Seq<(Seq<char>, Seq<char>)> {
    match named_blocks(hcl, bt + " {"@, 0) {
        Some(b) => b,
        None => seq![],
    }
}

/// Every block of the types that the sub-resources are built from is closed.
pub open spec fn appgw_blocks_ok(hcl: Seq<char>) -> bool {
    &&& named_blocks(hcl, "frontend_port"@ + " {"@, 0) is Some
    &&& named_blocks(hcl, "probe"@ + " {"@, 0) is Some
    &&& named_blocks(hcl, "backend_http_settings"@ + " {"@, 0) is Some
    &&& named_blocks(hcl, "request_routing_rule"@ + " {"@, 0) is Some
    &&& named_blocks(hcl, "http_listener"@ + " {"@, 0) is Some
    &&& named_blocks(hcl, "backend_address_pool"@ + " {"@, 0) is Some
}

/// Whether [`generate_appgw_sub_resources`] can read `hcl`: every block it reads is closed.
pub fn appgw_blocks_complete(hcl: &str) -> (r: bool)
    ensures
        r == appgw_blocks_ok(hcl@),
{
    let v = chars_of(hcl);
    named_blocks_v(&v, "frontend_port").is_some()
        && named_blocks_v(&v, "probe").is_some()
        && named_blocks_v(&v, "backend_http_settings").is_some()
        && named_blocks_v(&v, "request_routing_rule").is_some()
        && named_blocks_v(&v, "http_listener").is_some()
        && named_blocks_v(&v, "backend_address_pool").is_some()
}

/// The value of the last entry for `k` (a map filled in order, later entries winning).
pub open spec fn lookup_last<V>(m: Seq<(Seq<char>, V)>, k: Seq<char>) -> Option<V>
    decreases m.len(),
{
    if m.len() == 0 {
        None
    } else if m.last().0 == k {
        Some(m.last().1)
    } else {
        lookup_last(m.drop_last(), k)
    }
}

/// Health check lines of an inline AppGw `probe` block (attributes `protocol`, `path`,
/// `interval`, `unhealthy_threshold`).
pub open spec fn spec_appgw_probe_props(c: Seq<char>) -> Seq<char> {
    let hc = spec_hc_type(spec_extract_hcl_attr(c, "protocol"@));
    let url = if hc == "http"@ || hc == "https"@ {
        match spec_extract_hcl_attr(c, "path"@) {
            Some(p) => "    health_check_url      = \""@ + p + "\"\n"@,
            None => seq![],
        }
    } else {
        seq![]
    };
    "    health_check_type     = \""@ + hc + "\"\n"@ + url
        + num_prop_line("    health_check_interval = "@, spec_extract_hcl_attr(c, "interval"@))
        + num_prop_line("    health_check_fall     = "@, spec_extract_hcl_attr(c, "unhealthy_threshold"@))
}

/// Extract health check properties from an AppGw inline `probe` block.
fn appgw_probe_health_check_props(block_content: &str) -> (r: String)
    ensures
        r@ == spec_appgw_probe_props(block_content@),
{
    let protocol = extract_hcl_attr(block_content, "protocol");
    let hc = hc_type(&protocol);
    let mut props = String::new();
    push_str(&mut props, "    health_check_type     = \"");
    push_str(&mut props, hc);
    push_str(&mut props, "\"\n");
    let hv = chars_of(hc);
    if eq_str(&hv, "http") || eq_str(&hv, "https") {
        match extract_hcl_attr(block_content, "path") {
            Some(p) => {
                push_str(&mut props, "    health_check_url      = \"");
                push_str(&mut props, p.as_str());
                push_str(&mut props, "\"\n");
            },
            None => {},
        }
    }
    let iv = extract_hcl_attr(block_content, "interval");
    push_num_prop_line(&mut props, "    health_check_interval = ", &iv);
    let n = extract_hcl_attr(block_content, "unhealthy_threshold");
    push_num_prop_line(&mut props, "    health_check_fall     = ", &n);
    props
}

pub open spec fn port_entries(bs: Seq<(Seq<char>, Seq<char>)>) -> Seq<(Seq<char>, u32)>
    decreases bs.len(),
{
    if bs.len() == 0 {
        seq![]
    } else {
        let r = port_entries(bs.drop_last());
        match spec_extract_hcl_attr(bs.last().1, "port"@) {
            Some(x) => match parse_u32(x) {
                Some(p) => r.push((bs.last().0, p)),
                None => r,
            },
            None => r,
        }
    }
}

pub open spec fn probe_entries(bs: Seq<(Seq<char>, Seq<char>)>) -> Seq<(Seq<char>, Seq<char>)>
    decreases bs.len(),
{
    if bs.len() == 0 {
        seq![]
    } else {
        probe_entries(bs.drop_last()).push((bs.last().0, spec_appgw_probe_props(bs.last().1)))
    }
}

pub open spec fn settings_entries(bs: Seq<(Seq<char>, Seq<char>)>) -> Seq<(Seq<char>, Seq<char>)>
    decreases bs.len(),
{
    if bs.len() == 0 {
        seq![]
    } else {
        let r = settings_entries(bs.drop_last());
        match spec_extract_hcl_attr(bs.last().1, "probe_name"@) {
            Some(p) => r.push((bs.last().0, p)),
            None => r,
        }
    }
}

pub open spec fn opt_or_empty(o: Option<Seq<char>>) -> Seq<char> {
    match o {
        Some(x) => x,
        None => seq![],
    }
}

/// A routing rule: its listener (empty when absent), backend pool, HTTP settings and
/// redirect configuration.
pub open spec fn rule_of(c: Seq<char>) -> (Seq<char>, Option<Seq<char>>, Option<Seq<char>>, Option<Seq<char>>) {
    (
        opt_or_empty(spec_extract_hcl_attr(c, "http_listener_name"@)),
        spec_extract_hcl_attr(c, "backend_address_pool_name"@),
        spec_extract_hcl_attr(c, "backend_http_settings_name"@),
        spec_extract_hcl_attr(c, "redirect_configuration_name"@),
    )
}

pub open spec fn rule_entries(bs: Seq<(Seq<char>, Seq<char>)>) -> Seq<(Seq<char>, Option<Seq<char>>, Option<Seq<char>>, Option<Seq<char>>)>
    decreases bs.len(),
{
    if bs.len() == 0 {
        seq![]
    } else {
        rule_entries(bs.drop_last()).push(rule_of(bs.last().1))
    }
}

/// A listener: its frontend port name (empty when absent), protocol (`Http` when
/// absent) and TLS certificate name.
pub open spec fn listener_of(c: Seq<char>) -> (Seq<char>, Seq<char>, Option<Seq<char>>) {
    (
        opt_or_empty(spec_extract_hcl_attr(c, "frontend_port_name"@)),
        match spec_extract_hcl_attr(c, "protocol"@) {
            Some(p) => p,
            None => "Http"@,
        },
        spec_extract_hcl_attr(c, "ssl_certificate_name"@),
    )
}

pub open spec fn listener_entries(bs: Seq<(Seq<char>, Seq<char>)>) -> Seq<(Seq<char>, (Seq<char>, Seq<char>, Option<Seq<char>>))>
    decreases bs.len(),
{
    if bs.len() == 0 {
        seq![]
    } else {
        listener_entries(bs.drop_last()).push((bs.last().0, listener_of(bs.last().1)))
    }
}

pub open spec fn pool_names(bs: Seq<(Seq<char>, Seq<char>)>) -> Seq<Seq<char>>
    decreases bs.len(),
{
    if bs.len() == 0 {
        seq![]
    } else {
        pool_names(bs.drop_last()).push(bs.last().0)
    }
}

pub open spec fn default_health() -> Seq<char> {
    "    health_check_type = \"tcp\"\n"@
}

/// The health check lines a backend gets through a rule's HTTP settings and its probe.
pub open spec fn rule_health(st: Seq<char>, settings: Seq<(Seq<char>, Seq<char>)>, probes: Seq<(Seq<char>, Seq<char>)>) -> Seq<char> {
    match lookup_last(settings, st) {
        Some(p) => match lookup_last(probes, p) {
            Some(x) => x,
            None => default_health(),
        },
        None => default_health(),
    }
}

pub open spec fn health_entries(
    rules: Seq<(Seq<char>, Option<Seq<char>>, Option<Seq<char>>, Option<Seq<char>>)>,
    settings: Seq<(Seq<char>, Seq<char>)>,
    probes: Seq<(Seq<char>, Seq<char>)>,
) -> Seq<(Seq<char>, Seq<char>)>
    decreases rules.len(),
{
    if rules.len() == 0 {
        seq![]
    } else {
        let r = health_entries(rules.drop_last(), settings, probes);
        match (rules.last().1, rules.last().2) {
            (Some(b), Some(st)) => r.push((b, rule_health(st, settings, probes))),
            _ => r,
        }
    }
}

pub open spec fn backends_text(pools: Seq<Seq<char>>, health: Seq<(Seq<char>, Seq<char>)>, lb: Seq<char>) -> Seq<char>
    decreases pools.len(),
{
    if pools.len() == 0 {
        seq![]
    } else {
        let name = pools.last();
        let h = match lookup_last(health, name) {
            Some(x) => x,
            None => default_health(),
        };
        backends_text(pools.drop_last(), health, lb) + spec_appgw_backend_block(spec_tf_id(name), lb, name, h)
    }
}

/// The frontend text of one routing rule, and the TLS certificate it uses.
pub open spec fn rule_out(
    r: (Seq<char>, Option<Seq<char>>, Option<Seq<char>>, Option<Seq<char>>),
    listeners: Seq<(Seq<char>, (Seq<char>, Seq<char>, Option<Seq<char>>))>,
    ports: Seq<(Seq<char>, u32)>,
    lb: Seq<char>,
) -> (Seq<char>, Option<Seq<char>>) {
    if r.0.len() == 0 {
        (seq![], None)
    } else {
        match lookup_last(listeners, r.0) {
            None => (seq![], None),
            Some(l) => {
                let port = match lookup_last(ports, l.0) {
                    Some(p) => p,
                    None => 80u32,
                };
                let lid = spec_tf_id(r.0);
                match r.1 {
                    Some(b) => {
                        let f = spec_appgw_frontend_block(lid, lb, r.0, port, spec_tf_id(b));
                        if spec_to_lowercase(l.1) == "https"@ && l.2 is Some {
                            let c = l.2->Some_0;
                            (f + spec_appgw_tls_block(lid, c, spec_tf_id(c)), Some(c))
                        } else {
                            (f, None)
                        }
                    },
                    None => match r.3 {
                        Some(rc) => (spec_appgw_redirect_blocks(lid, lb, r.0, port, rc), None),
                        None => (seq![], None),
                    },
                }
            },
        }
    }
}

pub open spec fn frontends(
    rules: Seq<(Seq<char>, Option<Seq<char>>, Option<Seq<char>>, Option<Seq<char>>)>,
    listeners: Seq<(Seq<char>, (Seq<char>, Seq<char>, Option<Seq<char>>))>,
    ports: Seq<(Seq<char>, u32)>,
    lb: Seq<char>,
) -> (Seq<char>, Seq<Seq<char>>)
    decreases rules.len(),
{
    if rules.len() == 0 {
        (seq![], seq![])
    } else {
        let (t, cs) = frontends(rules.drop_last(), listeners, ports, lb);
        let (x, c) = rule_out(rules.last(), listeners, ports, lb);
        (
            t + x,
            match c {
                Some(c) => cs.push(c),
                None => cs,
            },
        )
    }
}

pub open spec fn cert_lines(cs: Seq<Seq<char>>) -> Seq<char>
    decreases cs.len(),
{
    if cs.len() == 0 {
        seq![]
    } else {
        cert_lines(cs.drop_last()) + spec_appgw_cert_comment(spec_tf_id(cs.last()), cs.last())
    }
}

/// The certificate placeholders: a note, then each distinct certificate name in
/// sorted order; nothing when no frontend uses TLS.
pub open spec fn tls_section(certs: Seq<Seq<char>>) -> Seq<char> {
    if certs.len() == 0 {
        seq![]
    } else {
        "# NOTE: provide SSL/TLS certificates for the frontends above.\n"@ + cert_lines(
            dedup_adj(isort_by(certs, |s: Seq<char>| s)),
        ) + "\n"@
    }
}

/// The UpCloud load balancer sub-resources for an Application Gateway: a backend per
/// backend pool (with the health check that a routing rule's settings and probe give
/// it), a frontend per routing rule with a known listener (with TLS configuration for
/// HTTPS, or a redirect rule), and certificate placeholders.
pub open spec fn spec_generate_appgw(lb: Seq<char>, hcl: Seq<char>) -> Seq<char> {
    let ports = port_entries(appgw_blocks(hcl, "frontend_port"@));
    let probes = probe_entries(appgw_blocks(hcl, "probe"@));
    let settings = settings_entries(appgw_blocks(hcl, "backend_http_settings"@));
    let rules = rule_entries(appgw_blocks(hcl, "request_routing_rule"@));
    let listeners = listener_entries(appgw_blocks(hcl, "http_listener"@));
    let pools = pool_names(appgw_blocks(hcl, "backend_address_pool"@));
    let health = health_entries(rules, settings, probes);
    let (ft, certs) = frontends(rules, listeners, ports, lb);
    backends_text(pools, health, lb) + ft + tls_section(certs)
}


pub open spec fn ports_view(v: Seq<(String, u32)>) -> Seq<(Seq<char>, u32)> {
    v.map_values(|p: (String, u32)| (p.0@, p.1))
}

pub open spec fn rules_view(v: Seq<(String, Option<String>, Option<String>, Option<String>)>) -> Seq<(Seq<char>, Option<Seq<char>>, Option<Seq<char>>, Option<Seq<char>>)> {
    v.map_values(|r: (String, Option<String>, Option<String>, Option<String>)| (r.0@, opt_string_view(r.1), opt_string_view(r.2), opt_string_view(r.3)))
}

pub open spec fn listeners_view(v: Seq<(String, (String, String, Option<String>))>) -> Seq<(Seq<char>, (Seq<char>, Seq<char>, Option<Seq<char>>))> {
    v.map_values(|l: (String, (String, String, Option<String>))| (l.0@, (l.1.0@, l.1.1@, opt_string_view(l.1.2))))
}

fn lookup_pairs(m: &Vec<(String, String)>, k: &str) -> (r: Option<String>)
    ensures
        opt_string_view(r) == lookup_last(pairs_view(m@), k@),
{
    let kv = chars_of(k);
    let mut i = m.len();
    assert(pairs_view(m@).take(i as int) =~= pairs_view(m@));
    while i > 0
        invariant
            i <= m@.len(),
            kv@ == k@,
            lookup_last(pairs_view(m@), k@) == lookup_last(pairs_view(m@).take(i as int), k@),
        decreases i,
    {
        assert(pairs_view(m@).take(i as int).drop_last() =~= pairs_view(m@).take(i - 1));
        assert(pairs_view(m@).take(i as int).last() == (m@[i - 1].0@, m@[i - 1].1@));
        if seq_eq(&chars_of(m[i - 1].0.as_str()), &kv) {
            return Some(m[i - 1].1.clone());
        }
        i -= 1;
    }
    None
}

fn lookup_port(m: &Vec<(String, u32)>, k: &str) -> (r: Option<u32>)
    ensures
        r == lookup_last(ports_view(m@), k@),
{
    let kv = chars_of(k);
    let mut i = m.len();
    assert(ports_view(m@).take(i as int) =~= ports_view(m@));
    while i > 0
        invariant
            i <= m@.len(),
            kv@ == k@,
            lookup_last(ports_view(m@), k@) == lookup_last(ports_view(m@).take(i as int), k@),
        decreases i,
    {
        assert(ports_view(m@).take(i as int).drop_last() =~= ports_view(m@).take(i - 1));
        assert(ports_view(m@).take(i as int).last() == (m@[i - 1].0@, m@[i - 1].1));
        if seq_eq(&chars_of(m[i - 1].0.as_str()), &kv) {
            return Some(m[i - 1].1);
        }
        i -= 1;
    }
    None
}

fn lookup_listener(m: &Vec<(String, (String, String, Option<String>))>, k: &str) -> (r: Option<(String, String, Option<String>)>)
    ensures
        match r {
            Some(x) => lookup_last(listeners_view(m@), k@) == Some((x.0@, x.1@, opt_string_view(x.2))),
            None => lookup_last(listeners_view(m@), k@) is None,
        },
{
    let kv = chars_of(k);
    let mut i = m.len();
    assert(listeners_view(m@).take(i as int) =~= listeners_view(m@));
    while i > 0
        invariant
            i <= m@.len(),
            kv@ == k@,
            lookup_last(listeners_view(m@), k@) == lookup_last(listeners_view(m@).take(i as int), k@),
        decreases i,
    {
        assert(listeners_view(m@).take(i as int).drop_last() =~= listeners_view(m@).take(i - 1));
        assert(listeners_view(m@).take(i as int).last() == (m@[i - 1].0@, (m@[i - 1].1.0@, m@[i - 1].1.1@, opt_string_view(m@[i - 1].1.2))));
        if seq_eq(&chars_of(m[i - 1].0.as_str()), &kv) {
            let l = &m[i - 1].1;
            return Some((l.0.clone(), l.1.clone(), crate::migration::var_detector::copy_opt_string(&l.2)));
        }
        i -= 1;
    }
    None
}

fn port_list(fp: &Vec<(String, String)>) -> (ports: Vec<(String, u32)>)
    ensures
        ports_view(ports@) == port_entries(pairs_view(fp@)),
{
    let mut ports: Vec<(String, u32)> = Vec::new();
    let mut i: usize = 0;
    while i < fp.len()
        invariant
            i <= fp@.len(),
            ports_view(ports@) == port_entries(pairs_view(fp@).take(i as int)),
        decreases fp@.len() - i,
    {
        assert(pairs_view(fp@).take(i + 1).drop_last() =~= pairs_view(fp@).take(i as int));
        assert(pairs_view(fp@).take(i + 1).last() == (fp@[i as int].0@, fp@[i as int].1@));
        let ghost prev = ports_view(ports@);
        match extract_hcl_attr(fp[i].1.as_str(), "port") {
            Some(s) => match parse_u32_str(s.as_str()) {
                Some(p) => {
                    ports.push((fp[i].0.clone(), p));
                    assert(ports_view(ports@) =~= prev.push((fp@[i as int].0@, p)));
                },
                None => {},
            },
            None => {},
        }
        i += 1;
    }
    assert(pairs_view(fp@).take(fp@.len() as int) =~= pairs_view(fp@));
    ports
}

fn probe_list(pb: &Vec<(String, String)>) -> (probes: Vec<(String, String)>)
    ensures
        pairs_view(probes@) == probe_entries(pairs_view(pb@)),
{
    let mut probes: Vec<(String, String)> = Vec::new();
    let mut i: usize = 0;
    while i < pb.len()
        invariant
            i <= pb@.len(),
            pairs_view(probes@) == probe_entries(pairs_view(pb@).take(i as int)),
        decreases pb@.len() - i,
    {
        assert(pairs_view(pb@).take(i + 1).drop_last() =~= pairs_view(pb@).take(i as int));
        assert(pairs_view(pb@).take(i + 1).last() == (pb@[i as int].0@, pb@[i as int].1@));
        let ghost prev = pairs_view(probes@);
        let props = appgw_probe_health_check_props(pb[i].1.as_str());
        probes.push((pb[i].0.clone(), props));
        assert(pairs_view(probes@) =~= prev.push((pb@[i as int].0@, spec_appgw_probe_props(pb@[i as int].1@))));
        i += 1;
    }
    assert(pairs_view(pb@).take(pb@.len() as int) =~= pairs_view(pb@));
    probes
}

fn settings_list(hs: &Vec<(String, String)>) -> (settings: Vec<(String, String)>)
    ensures
        pairs_view(settings@) == settings_entries(pairs_view(hs@)),
{
    let mut settings: Vec<(String, String)> = Vec::new();
    let mut i: usize = 0;
    while i < hs.len()
        invariant
            i <= hs@.len(),
            pairs_view(settings@) == settings_entries(pairs_view(hs@).take(i as int)),
        decreases hs@.len() - i,
    {
        assert(pairs_view(hs@).take(i + 1).drop_last() =~= pairs_view(hs@).take(i as int));
        assert(pairs_view(hs@).take(i + 1).last() == (hs@[i as int].0@, hs@[i as int].1@));
        let ghost prev = pairs_view(settings@);
        match extract_hcl_attr(hs[i].1.as_str(), "probe_name") {
            Some(p) => {
                settings.push((hs[i].0.clone(), p));
                assert(pairs_view(settings@) =~= prev.push((hs@[i as int].0@, p@)));
            },
            None => {},
        }
        i += 1;
    }
    assert(pairs_view(hs@).take(hs@.len() as int) =~= pairs_view(hs@));
    settings
}

fn rule_list(rr: &Vec<(String, String)>) -> (rules: Vec<(String, Option<String>, Option<String>, Option<String>)>)
    ensures
        rules_view(rules@) == rule_entries(pairs_view(rr@)),
{
    let mut rules: Vec<(String, Option<String>, Option<String>, Option<String>)> = Vec::new();
    let mut i: usize = 0;
    while i < rr.len()
        invariant
            i <= rr@.len(),
            rules_view(rules@) == rule_entries(pairs_view(rr@).take(i as int)),
        decreases rr@.len() - i,
    {
        assert(pairs_view(rr@).take(i + 1).drop_last() =~= pairs_view(rr@).take(i as int));
        assert(pairs_view(rr@).take(i + 1).last() == (rr@[i as int].0@, rr@[i as int].1@));
        let ghost prev = rules_view(rules@);
        let c = rr[i].1.as_str();
        let listener = match extract_hcl_attr(c, "http_listener_name") {
            Some(l) => l,
            None => String::new(),
        };
        let rule = (
            listener,
            extract_hcl_attr(c, "backend_address_pool_name"),
            extract_hcl_attr(c, "backend_http_settings_name"),
            extract_hcl_attr(c, "redirect_configuration_name"),
        );
        rules.push(rule);
        assert(rules_view(rules@) =~= prev.push(rule_of(rr@[i as int].1@)));
        i += 1;
    }
    assert(pairs_view(rr@).take(rr@.len() as int) =~= pairs_view(rr@));
    rules
}

fn listener_list(hl: &Vec<(String, String)>) -> (listeners: Vec<(String, (String, String, Option<String>))>)
    ensures
        listeners_view(listeners@) == listener_entries(pairs_view(hl@)),
{
    let mut listeners: Vec<(String, (String, String, Option<String>))> = Vec::new();
    let mut i: usize = 0;
    while i < hl.len()
        invariant
            i <= hl@.len(),
            listeners_view(listeners@) == listener_entries(pairs_view(hl@).take(i as int)),
        decreases hl@.len() - i,
    {
        assert(pairs_view(hl@).take(i + 1).drop_last() =~= pairs_view(hl@).take(i as int));
        assert(pairs_view(hl@).take(i + 1).last() == (hl@[i as int].0@, hl@[i as int].1@));
        let ghost prev = listeners_view(listeners@);
        let c = hl[i].1.as_str();
        let port_name = match extract_hcl_attr(c, "frontend_port_name") {
            Some(p) => p,
            None => String::new(),
        };
        let protocol = match extract_hcl_attr(c, "protocol") {
            Some(p) => p,
            None => String::from_str("Http"),
        };
        let entry = (hl[i].0.clone(), (port_name, protocol, extract_hcl_attr(c, "ssl_certificate_name")));
        listeners.push(entry);
        assert(listeners_view(listeners@) =~= prev.push((hl@[i as int].0@, listener_of(hl@[i as int].1@))));
        i += 1;
    }
    assert(pairs_view(hl@).take(hl@.len() as int) =~= pairs_view(hl@));
    listeners
}

fn pool_list(bp: &Vec<(String, String)>) -> (pools: Vec<String>)
    ensures
        strs_view(pools@) == pool_names(pairs_view(bp@)),
{
    let mut pools: Vec<String> = Vec::new();
    let mut i: usize = 0;
    while i < bp.len()
        invariant
            i <= bp@.len(),
            strs_view(pools@) == pool_names(pairs_view(bp@).take(i as int)),
        decreases bp@.len() - i,
    {
        assert(pairs_view(bp@).take(i + 1).drop_last() =~= pairs_view(bp@).take(i as int));
        assert(pairs_view(bp@).take(i + 1).last() == (bp@[i as int].0@, bp@[i as int].1@));
        let ghost prev = strs_view(pools@);
        pools.push(bp[i].0.clone());
        assert(strs_view(pools@) =~= prev.push(bp@[i as int].0@));
        i += 1;
    }
    assert(pairs_view(bp@).take(bp@.len() as int) =~= pairs_view(bp@));
    pools
}

fn health_list(
    rules: &Vec<(String, Option<String>, Option<String>, Option<String>)>,
    settings: &Vec<(String, String)>,
    probes: &Vec<(String, String)>,
) -> (health: Vec<(String, String)>)
    ensures
        pairs_view(health@) == health_entries(rules_view(rules@), pairs_view(settings@), pairs_view(probes@)),
{
    let ghost g_rules = rules_view(rules@);
    let ghost g_settings = pairs_view(settings@);
    let ghost g_probes = pairs_view(probes@);
    let mut health: Vec<(String, String)> = Vec::new();
    let mut i: usize = 0;
    while i < rules.len()
        invariant
            i <= rules@.len(),
            g_rules == rules_view(rules@),
            g_settings == pairs_view(settings@),
            g_probes == pairs_view(probes@),
            pairs_view(health@) == health_entries(g_rules.take(i as int), g_settings, g_probes),
        decreases rules@.len() - i,
    {
        assert(g_rules.take(i + 1).drop_last() =~= g_rules.take(i as int));
        assert(g_rules.take(i + 1).last() == g_rules[i as int]);
        let ghost prev = pairs_view(health@);
        let r = &rules[i];
        match (&r.1, &r.2) {
            (Some(b), Some(st)) => {
                let h = match lookup_pairs(settings, st.as_str()) {
                    Some(p) => match lookup_pairs(probes, p.as_str()) {
                        Some(x) => x,
                        None => String::from_str("    health_check_type = \"tcp\"\n"),
                    },
                    None => String::from_str("    health_check_type = \"tcp\"\n"),
                };
                health.push((b.clone(), h));
                assert(pairs_view(health@) =~= prev.push((b@, rule_health(st@, g_settings, g_probes))));
            },
            _ => {},
        }
        i += 1;
    }
    assert(g_rules.take(rules@.len() as int) =~= g_rules);
    health
}

fn backends_out(pools: &Vec<String>, health: &Vec<(String, String)>, lb_name: &str) -> (out: String)
    ensures
        out@ == backends_text(strs_view(pools@), pairs_view(health@), lb_name@),
{
    let mut out = String::new();
    let mut i: usize = 0;
    while i < pools.len()
        invariant
            i <= pools@.len(),
            out@ == backends_text(strs_view(pools@).take(i as int), pairs_view(health@), lb_name@),
        decreases pools@.len() - i,
    {
        assert(strs_view(pools@).take(i + 1).drop_last() =~= strs_view(pools@).take(i as int));
        assert(strs_view(pools@).take(i + 1).last() == pools@[i as int]@);
        let name = pools[i].as_str();
        let h = match lookup_pairs(health, name) {
            Some(x) => x,
            None => String::from_str("    health_check_type = \"tcp\"\n"),
        };
        let block = appgw_backend_block(tf_id(name).as_str(), lb_name, name, h.as_str());
        push_str(&mut out, block.as_str());
        i += 1;
    }
    assert(strs_view(pools@).take(pools@.len() as int) =~= strs_view(pools@));
    out
}

fn rule_out_exec(
    r: &(String, Option<String>, Option<String>, Option<String>),
    listeners: &Vec<(String, (String, String, Option<String>))>,
    ports: &Vec<(String, u32)>,
    lb_name: &str,
) -> (res: (String, Option<String>))
    ensures
        (res.0@, opt_string_view(res.1)) == rule_out(
            (r.0@, opt_string_view(r.1), opt_string_view(r.2), opt_string_view(r.3)),
            listeners_view(listeners@),
            ports_view(ports@),
            lb_name@,
        ),
{
    let lname = r.0.as_str();
    if chars_of(lname).len() == 0 {
        return (String::new(), None);
    }
    match lookup_listener(listeners, lname) {
        None => (String::new(), None),
        Some(l) => {
            let port = match lookup_port(ports, l.0.as_str()) {
                Some(p) => p,
                None => 80u32,
            };
            let lid = tf_id(lname);
            match &r.1 {
                Some(b) => {
                    let mut ft = appgw_frontend_block(lid.as_str(), lb_name, lname, port, tf_id(b.as_str()).as_str());
                    let lower = to_lowercase(l.1.as_str());
                    if eq_str(&chars_of(lower.as_str()), "https") && l.2.is_some() {
                        let c = l.2.unwrap();
                        let t = appgw_tls_block(lid.as_str(), c.as_str(), tf_id(c.as_str()).as_str());
                        push_str(&mut ft, t.as_str());
                        (ft, Some(c))
                    } else {
                        (ft, None)
                    }
                },
                None => match &r.3 {
                    Some(rc) => (appgw_redirect_blocks(lid.as_str(), lb_name, lname, port, rc.as_str()), None),
                    None => (String::new(), None),
                },
            }
        },
    }
}

fn frontends_out(
    rules: &Vec<(String, Option<String>, Option<String>, Option<String>)>,
    listeners: &Vec<(String, (String, String, Option<String>))>,
    ports: &Vec<(String, u32)>,
    lb_name: &str,
) -> (res: (String, Vec<Vec<char>>))
    ensures
        (res.0@, views(res.1@)) == frontends(rules_view(rules@), listeners_view(listeners@), ports_view(ports@), lb_name@),
{
    let ghost g_rules = rules_view(rules@);
    let mut certs: Vec<Vec<char>> = Vec::new();
    let mut ft = String::new();
    let mut i: usize = 0;
    while i < rules.len()
        invariant
            i <= rules@.len(),
            g_rules == rules_view(rules@),
            (ft@, views(certs@)) == frontends(g_rules.take(i as int), listeners_view(listeners@), ports_view(ports@), lb_name@),
        decreases rules@.len() - i,
    {
        assert(g_rules.take(i + 1).drop_last() =~= g_rules.take(i as int));
        assert(g_rules.take(i + 1).last() == g_rules[i as int]);
        let ghost prev_c = views(certs@);
        let (t, c) = rule_out_exec(&rules[i], listeners, ports, lb_name);
        push_str(&mut ft, t.as_str());
        match c {
            Some(c) => {
                certs.push(chars_of(c.as_str()));
                assert(views(certs@) =~= prev_c.push(c@));
            },
            None => {},
        }
        i += 1;
    }
    assert(g_rules.take(rules@.len() as int) =~= g_rules);
    (ft, certs)
}

fn tls_out(certs: Vec<Vec<char>>) -> (out: String)
    ensures
        out@ == tls_section(views(certs@)),
{
    let mut out = String::new();
    if certs.len() > 0 {
        push_str(&mut out, "# NOTE: provide SSL/TLS certificates for the frontends above.\n");
        let ghost cs = views(certs@);
        let ghost c0 = certs@;
        let sorted = sort_char_vecs(certs);
        proof {
            lemma_isort_by_map(c0, vec_key(), |s: Seq<char>| s, |x: Vec<char>| x@);
        }
        let uniq = dedup_char_vecs(&sorted);
        let ghost us = dedup_adj(isort_by(cs, |s: Seq<char>| s));
        assert(uniq@.map_values(|x: Vec<char>| x@) == us);
        let mut k: usize = 0;
        let ghost base = out@;
        while k < uniq.len()
            invariant
                k <= uniq@.len(),
                uniq@.map_values(|x: Vec<char>| x@) == us,
                out@ == base + cert_lines(us.take(k as int)),
            decreases uniq@.len() - k,
        {
            assert(us.take(k + 1).drop_last() =~= us.take(k as int));
            assert(us.take(k + 1).last() == uniq@[k as int]@);
            let name = string_of(&uniq[k]);
            let line = appgw_cert_comment(tf_id(name.as_str()).as_str(), name.as_str());
            push_str(&mut out, line.as_str());
            k += 1;
        }
        assert(us.take(uniq@.len() as int) =~= us);
        push_str(&mut out, "\n");
    }
    out
}

/// Generate UpCloud LB sub-resources for an `azurerm_application_gateway`.
///
/// Parses inline blocks (backend pools, probes, listeners, routing rules, TLS certs)
/// and emits:
/// - `upcloud_loadbalancer_backend` (with health checks from probe chain)
/// - `upcloud_loadbalancer_frontend` (from http_listener + request_routing_rule)
/// - `upcloud_loadbalancer_frontend_tls_config` (for HTTPS listeners)
/// - `upcloud_loadbalancer_frontend_rule` (for redirect configurations)
pub fn generate_appgw_sub_resources(lb_name: &str, hcl: &str) -> (r: String)
    requires
        appgw_blocks_ok(hcl@),
    ensures
        r@ == spec_generate_appgw(lb_name@, hcl@),
{
    let v = chars_of(hcl);
    let ports = port_list(&named_blocks_v(&v, "frontend_port").unwrap());
    let probes = probe_list(&named_blocks_v(&v, "probe").unwrap());
    let settings = settings_list(&named_blocks_v(&v, "backend_http_settings").unwrap());
    let rules = rule_list(&named_blocks_v(&v, "request_routing_rule").unwrap());
    let listeners = listener_list(&named_blocks_v(&v, "http_listener").unwrap());
    let pools = pool_list(&named_blocks_v(&v, "backend_address_pool").unwrap());
    let health = health_list(&rules, &settings, &probes);
    let mut out = backends_out(&pools, &health, lb_name);
    let (ft, certs) = frontends_out(&rules, &listeners, &ports, lb_name);
    push_str(&mut out, ft.as_str());
    let tls = tls_out(certs);
    push_str(&mut out, tls.as_str());
    out
}

// ── Application Gateway sub-resource generation ──────────────────────────────

/// A hyphenated Azure name as a Terraform identifier: every `-` becomes `_`.
pub open spec fn spec_tf_id(name: Seq<char>) -> Seq<char> {
    replace_char(name, '-', "_"@)
}

/// Convert a hyphenated Azure name to a valid Terraform resource identifier.
fn tf_id(name: &str) -> (r: String)
    ensures
        r@ == spec_tf_id(name@),
{
    string_of(&replace_char_v(&chars_of(name), '-', "_"))
}

pub open spec fn spec_extract_appgw_subnet_ref(hcl: Seq<char>) -> Option<Seq<char>> {
    match first_keyed_ref(lines(hcl), "subnet_id"@, "azurerm_subnet."@, false, true) {
        Some(n) => Some("upcloud_network."@ + n + ".id"@),
        None => None,
    }
}

/// Extract `upcloud_network.SUBNET_NAME.id` from the AppGw `gateway_ip_configuration` subnet.
pub fn extract_appgw_subnet_ref(hcl: &str) -> (r: Option<String>)
    ensures
        opt_string_view(r) == spec_extract_appgw_subnet_ref(hcl@),
{
    match find_keyed_ref(hcl, "subnet_id", "azurerm_subnet.", false, true) {
        Some(n) => {
            let mut s = String::from_str("upcloud_network.");
            push_str(&mut s, n.as_str());
            push_str(&mut s, ".id");
            Some(s)
        },
        None => None,
    }
}

/// The rewriting leaves text without an `azurerm_` reference as it is.
pub proof fn azure_rewrite_keeps_text_without_refs(s: Seq<char>)
    requires
        !crate::text::contains(s, "azurerm_"@),
    ensures
        az_rw_loop(s, 0) == s,
{
}

/// The Azure resource types that have an UpCloud counterpart, and that counterpart
/// (virtual machines and scale sets to servers, networks to routers, subnets to networks,
/// security groups to firewall rules, PostgreSQL and MySQL to the managed databases,
/// Redis to Valkey, storage to object or file storage, AKS to Kubernetes, public IPs to
/// floating IPs); no other type has one.
pub proof fn azure_type_upcloud_table(azure_type: Seq<char>)
    ensures
        spec_upcloud_type_for_azure("azurerm_linux_virtual_machine"@) == Some("upcloud_server"@),
        spec_upcloud_type_for_azure("azurerm_windows_virtual_machine"@) == Some("upcloud_server"@),
        spec_upcloud_type_for_azure("azurerm_virtual_machine"@) == Some("upcloud_server"@),
        spec_upcloud_type_for_azure("azurerm_lb"@) == Some("upcloud_loadbalancer"@),
        spec_upcloud_type_for_azure("azurerm_virtual_network"@) == Some("upcloud_router"@),
        spec_upcloud_type_for_azure("azurerm_subnet"@) == Some("upcloud_network"@),
        spec_upcloud_type_for_azure("azurerm_network_security_group"@) == Some("upcloud_firewall_rules"@),
        spec_upcloud_type_for_azure("azurerm_postgresql_server"@) == Some("upcloud_managed_database_postgresql"@),
        spec_upcloud_type_for_azure("azurerm_postgresql_flexible_server"@) == Some("upcloud_managed_database_postgresql"@),
        spec_upcloud_type_for_azure("azurerm_mysql_server"@) == Some("upcloud_managed_database_mysql"@),
        spec_upcloud_type_for_azure("azurerm_mysql_flexible_server"@) == Some("upcloud_managed_database_mysql"@),
        spec_upcloud_type_for_azure("azurerm_redis_cache"@) == Some("upcloud_managed_database_valkey"@),
        spec_upcloud_type_for_azure("azurerm_storage_account"@) == Some("upcloud_managed_object_storage"@),
        spec_upcloud_type_for_azure("azurerm_storage_share"@) == Some("upcloud_file_storage"@),
        spec_upcloud_type_for_azure("azurerm_storage_share_file"@) == Some("upcloud_file_storage"@),
        spec_upcloud_type_for_azure("azurerm_linux_virtual_machine_scale_set"@) == Some("upcloud_server"@),
        spec_upcloud_type_for_azure("azurerm_kubernetes_cluster"@) == Some("upcloud_kubernetes_cluster"@),
        spec_upcloud_type_for_azure("azurerm_public_ip"@) == Some("upcloud_floating_ip_address"@),
        spec_upcloud_type_for_azure(azure_type) is Some ==> (azure_type == "azurerm_linux_virtual_machine"@ || azure_type == "azurerm_windows_virtual_machine"@ || azure_type == "azurerm_virtual_machine"@ || azure_type == "azurerm_lb"@ || azure_type == "azurerm_virtual_network"@ || azure_type == "azurerm_subnet"@ || azure_type == "azurerm_network_security_group"@ || azure_type == "azurerm_postgresql_server"@ || azure_type == "azurerm_postgresql_flexible_server"@ || azure_type == "azurerm_mysql_server"@ || azure_type == "azurerm_mysql_flexible_server"@ || azure_type == "azurerm_redis_cache"@ || azure_type == "azurerm_storage_account"@ || azure_type == "azurerm_storage_share"@ || azure_type == "azurerm_storage_share_file"@ || azure_type == "azurerm_linux_virtual_machine_scale_set"@ || azure_type == "azurerm_kubernetes_cluster"@ || azure_type == "azurerm_public_ip"@),
{
    reveal_strlit("azurerm_linux_virtual_machine");
    assert("azurerm_linux_virtual_machine"@[0] == 'a');
    assert("azurerm_linux_virtual_machine"@[1] == 'z');
    assert("azurerm_linux_virtual_machine"@[2] == 'u');
    assert("azurerm_linux_virtual_machine"@[3] == 'r');
    assert("azurerm_linux_virtual_machine"@[4] == 'e');
    assert("azurerm_linux_virtual_machine"@[5] == 'r');
    assert("azurerm_linux_virtual_machine"@[6] == 'm');
    assert("azurerm_linux_virtual_machine"@[7] == '_');
    assert("azurerm_linux_virtual_machine"@[8] == 'l');
    assert("azurerm_linux_virtual_machine"@[9] == 'i');
    assert("azurerm_linux_virtual_machine"@[10] == 'n');
    assert("azurerm_linux_virtual_machine"@[11] == 'u');
    assert("azurerm_linux_virtual_machine"@[12] == 'x');
    assert("azurerm_linux_virtual_machine"@[13] == '_');
    assert("azurerm_linux_virtual_machine"@[14] == 'v');
    assert("azurerm_linux_virtual_machine"@[15] == 'i');
    assert("azurerm_linux_virtual_machine"@[16] == 'r');
    assert("azurerm_linux_virtual_machine"@[17] == 't');
    assert("azurerm_linux_virtual_machine"@[18] == 'u');
    assert("azurerm_linux_virtual_machine"@[19] == 'a');
    assert("azurerm_linux_virtual_machine"@[20] == 'l');
    assert("azurerm_linux_virtual_machine"@[21] == '_');
    assert("azurerm_linux_virtual_machine"@[22] == 'm');
    assert("azurerm_linux_virtual_machine"@[23] == 'a');
    assert("azurerm_linux_virtual_machine"@[24] == 'c');
    assert("azurerm_linux_virtual_machine"@[25] == 'h');
    assert("azurerm_linux_virtual_machine"@[26] == 'i');
    assert("azurerm_linux_virtual_machine"@[27] == 'n');
    assert("azurerm_linux_virtual_machine"@[28] == 'e');
    reveal_strlit("azurerm_windows_virtual_machine");
    assert("azurerm_windows_virtual_machine"@[0] == 'a');
    assert("azurerm_windows_virtual_machine"@[1] == 'z');
    assert("azurerm_windows_virtual_machine"@[2] == 'u');
    assert("azurerm_windows_virtual_machine"@[3] == 'r');
    assert("azurerm_windows_virtual_machine"@[4] == 'e');
    assert("azurerm_windows_virtual_machine"@[5] == 'r');
    assert("azurerm_windows_virtual_machine"@[6] == 'm');
    assert("azurerm_windows_virtual_machine"@[7] == '_');
    assert("azurerm_windows_virtual_machine"@[8] == 'w');
    assert("azurerm_windows_virtual_machine"@[9] == 'i');
    assert("azurerm_windows_virtual_machine"@[10] == 'n');
    assert("azurerm_windows_virtual_machine"@[11] == 'd');
    assert("azurerm_windows_virtual_machine"@[12] == 'o');
    assert("azurerm_windows_virtual_machine"@[13] == 'w');
    assert("azurerm_windows_virtual_machine"@[14] == 's');
    assert("azurerm_windows_virtual_machine"@[15] == '_');
    assert("azurerm_windows_virtual_machine"@[16] == 'v');
    assert("azurerm_windows_virtual_machine"@[17] == 'i');
    assert("azurerm_windows_virtual_machine"@[18] == 'r');
    assert("azurerm_windows_virtual_machine"@[19] == 't');
    assert("azurerm_windows_virtual_machine"@[20] == 'u');
    assert("azurerm_windows_virtual_machine"@[21] == 'a');
    assert("azurerm_windows_virtual_machine"@[22] == 'l');
    assert("azurerm_windows_virtual_machine"@[23] == '_');
    assert("azurerm_windows_virtual_machine"@[24] == 'm');
    assert("azurerm_windows_virtual_machine"@[25] == 'a');
    assert("azurerm_windows_virtual_machine"@[26] == 'c');
    assert("azurerm_windows_virtual_machine"@[27] == 'h');
    assert("azurerm_windows_virtual_machine"@[28] == 'i');
    assert("azurerm_windows_virtual_machine"@[29] == 'n');
    assert("azurerm_windows_virtual_machine"@[30] == 'e');
    reveal_strlit("azurerm_virtual_machine");
    assert("azurerm_virtual_machine"@[0] == 'a');
    assert("azurerm_virtual_machine"@[1] == 'z');
    assert("azurerm_virtual_machine"@[2] == 'u');
    assert("azurerm_virtual_machine"@[3] == 'r');
    assert("azurerm_virtual_machine"@[4] == 'e');
    assert("azurerm_virtual_machine"@[5] == 'r');
    assert("azurerm_virtual_machine"@[6] == 'm');
    assert("azurerm_virtual_machine"@[7] == '_');
    assert("azurerm_virtual_machine"@[8] == 'v');
    assert("azurerm_virtual_machine"@[9] == 'i');
    assert("azurerm_virtual_machine"@[10] == 'r');
    assert("azurerm_virtual_machine"@[11] == 't');
    assert("azurerm_virtual_machine"@[12] == 'u');
    assert("azurerm_virtual_machine"@[13] == 'a');
    assert("azurerm_virtual_machine"@[14] == 'l');
    assert("azurerm_virtual_machine"@[15] == '_');
    assert("azurerm_virtual_machine"@[16] == 'm');
    assert("azurerm_virtual_machine"@[17] == 'a');
    assert("azurerm_virtual_machine"@[18] == 'c');
    assert("azurerm_virtual_machine"@[19] == 'h');
    assert("azurerm_virtual_machine"@[20] == 'i');
    assert("azurerm_virtual_machine"@[21] == 'n');
    assert("azurerm_virtual_machine"@[22] == 'e');
    reveal_strlit("azurerm_lb");
    assert("azurerm_lb"@[0] == 'a');
    assert("azurerm_lb"@[1] == 'z');
    assert("azurerm_lb"@[2] == 'u');
    assert("azurerm_lb"@[3] == 'r');
    assert("azurerm_lb"@[4] == 'e');
    assert("azurerm_lb"@[5] == 'r');
    assert("azurerm_lb"@[6] == 'm');
    assert("azurerm_lb"@[7] == '_');
    assert("azurerm_lb"@[8] == 'l');
    assert("azurerm_lb"@[9] == 'b');
    reveal_strlit("azurerm_virtual_network");
    assert("azurerm_virtual_network"@[0] == 'a');
    assert("azurerm_virtual_network"@[1] == 'z');
    assert("azurerm_virtual_network"@[2] == 'u');
    assert("azurerm_virtual_network"@[3] == 'r');
    assert("azurerm_virtual_network"@[4] == 'e');
    assert("azurerm_virtual_network"@[5] == 'r');
    assert("azurerm_virtual_network"@[6] == 'm');
    assert("azurerm_virtual_network"@[7] == '_');
    assert("azurerm_virtual_network"@[8] == 'v');
    assert("azurerm_virtual_network"@[9] == 'i');
    assert("azurerm_virtual_network"@[10] == 'r');
    assert("azurerm_virtual_network"@[11] == 't');
    assert("azurerm_virtual_network"@[12] == 'u');
    assert("azurerm_virtual_network"@[13] == 'a');
    assert("azurerm_virtual_network"@[14] == 'l');
    assert("azurerm_virtual_network"@[15] == '_');
    assert("azurerm_virtual_network"@[16] == 'n');
    assert("azurerm_virtual_network"@[17] == 'e');
    assert("azurerm_virtual_network"@[18] == 't');
    assert("azurerm_virtual_network"@[19] == 'w');
    assert("azurerm_virtual_network"@[20] == 'o');
    assert("azurerm_virtual_network"@[21] == 'r');
    assert("azurerm_virtual_network"@[22] == 'k');
    reveal_strlit("azurerm_subnet");
    assert("azurerm_subnet"@[0] == 'a');
    assert("azurerm_subnet"@[1] == 'z');
    assert("azurerm_subnet"@[2] == 'u');
    assert("azurerm_subnet"@[3] == 'r');
    assert("azurerm_subnet"@[4] == 'e');
    assert("azurerm_subnet"@[5] == 'r');
    assert("azurerm_subnet"@[6] == 'm');
    assert("azurerm_subnet"@[7] == '_');
    assert("azurerm_subnet"@[8] == 's');
    assert("azurerm_subnet"@[9] == 'u');
    assert("azurerm_subnet"@[10] == 'b');
    assert("azurerm_subnet"@[11] == 'n');
    assert("azurerm_subnet"@[12] == 'e');
    assert("azurerm_subnet"@[13] == 't');
    reveal_strlit("azurerm_network_security_group");
    assert("azurerm_network_security_group"@[0] == 'a');
    assert("azurerm_network_security_group"@[1] == 'z');
    assert("azurerm_network_security_group"@[2] == 'u');
    assert("azurerm_network_security_group"@[3] == 'r');
    assert("azurerm_network_security_group"@[4] == 'e');
    assert("azurerm_network_security_group"@[5] == 'r');
    assert("azurerm_network_security_group"@[6] == 'm');
    assert("azurerm_network_security_group"@[7] == '_');
    assert("azurerm_network_security_group"@[8] == 'n');
    assert("azurerm_network_security_group"@[9] == 'e');
    assert("azurerm_network_security_group"@[10] == 't');
    assert("azurerm_network_security_group"@[11] == 'w');
    assert("azurerm_network_security_group"@[12] == 'o');
    assert("azurerm_network_security_group"@[13] == 'r');
    assert("azurerm_network_security_group"@[14] == 'k');
    assert("azurerm_network_security_group"@[15] == '_');
    assert("azurerm_network_security_group"@[16] == 's');
    assert("azurerm_network_security_group"@[17] == 'e');
    assert("azurerm_network_security_group"@[18] == 'c');
    assert("azurerm_network_security_group"@[19] == 'u');
    assert("azurerm_network_security_group"@[20] == 'r');
    assert("azurerm_network_security_group"@[21] == 'i');
    assert("azurerm_network_security_group"@[22] == 't');
    assert("azurerm_network_security_group"@[23] == 'y');
    assert("azurerm_network_security_group"@[24] == '_');
    assert("azurerm_network_security_group"@[25] == 'g');
    assert("azurerm_network_security_group"@[26] == 'r');
    assert("azurerm_network_security_group"@[27] == 'o');
    assert("azurerm_network_security_group"@[28] == 'u');
    assert("azurerm_network_security_group"@[29] == 'p');
    reveal_strlit("azurerm_postgresql_server");
    assert("azurerm_postgresql_server"@[0] == 'a');
    assert("azurerm_postgresql_server"@[1] == 'z');
    assert("azurerm_postgresql_server"@[2] == 'u');
    assert("azurerm_postgresql_server"@[3] == 'r');
    assert("azurerm_postgresql_server"@[4] == 'e');
    assert("azurerm_postgresql_server"@[5] == 'r');
    assert("azurerm_postgresql_server"@[6] == 'm');
    assert("azurerm_postgresql_server"@[7] == '_');
    assert("azurerm_postgresql_server"@[8] == 'p');
    assert("azurerm_postgresql_server"@[9] == 'o');
    assert("azurerm_postgresql_server"@[10] == 's');
    assert("azurerm_postgresql_server"@[11] == 't');
    assert("azurerm_postgresql_server"@[12] == 'g');
    assert("azurerm_postgresql_server"@[13] == 'r');
    assert("azurerm_postgresql_server"@[14] == 'e');
    assert("azurerm_postgresql_server"@[15] == 's');
    assert("azurerm_postgresql_server"@[16] == 'q');
    assert("azurerm_postgresql_server"@[17] == 'l');
    assert("azurerm_postgresql_server"@[18] == '_');
    assert("azurerm_postgresql_server"@[19] == 's');
    assert("azurerm_postgresql_server"@[20] == 'e');
    assert("azurerm_postgresql_server"@[21] == 'r');
    assert("azurerm_postgresql_server"@[22] == 'v');
    assert("azurerm_postgresql_server"@[23] == 'e');
    assert("azurerm_postgresql_server"@[24] == 'r');
    reveal_strlit("azurerm_postgresql_flexible_server");
    assert("azurerm_postgresql_flexible_server"@[0] == 'a');
    assert("azurerm_postgresql_flexible_server"@[1] == 'z');
    assert("azurerm_postgresql_flexible_server"@[2] == 'u');
    assert("azurerm_postgresql_flexible_server"@[3] == 'r');
    assert("azurerm_postgresql_flexible_server"@[4] == 'e');
    assert("azurerm_postgresql_flexible_server"@[5] == 'r');
    assert("azurerm_postgresql_flexible_server"@[6] == 'm');
    assert("azurerm_postgresql_flexible_server"@[7] == '_');
    assert("azurerm_postgresql_flexible_server"@[8] == 'p');
    assert("azurerm_postgresql_flexible_server"@[9] == 'o');
    assert("azurerm_postgresql_flexible_server"@[10] == 's');
    assert("azurerm_postgresql_flexible_server"@[11] == 't');
    assert("azurerm_postgresql_flexible_server"@[12] == 'g');
    assert("azurerm_postgresql_flexible_server"@[13] == 'r');
    assert("azurerm_postgresql_flexible_server"@[14] == 'e');
    assert("azurerm_postgresql_flexible_server"@[15] == 's');
    assert("azurerm_postgresql_flexible_server"@[16] == 'q');
    assert("azurerm_postgresql_flexible_server"@[17] == 'l');
    assert("azurerm_postgresql_flexible_server"@[18] == '_');
    assert("azurerm_postgresql_flexible_server"@[19] == 'f');
    assert("azurerm_postgresql_flexible_server"@[20] == 'l');
    assert("azurerm_postgresql_flexible_server"@[21] == 'e');
    assert("azurerm_postgresql_flexible_server"@[22] == 'x');
    assert("azurerm_postgresql_flexible_server"@[23] == 'i');
    assert("azurerm_postgresql_flexible_server"@[24] == 'b');
    assert("azurerm_postgresql_flexible_server"@[25] == 'l');
    assert("azurerm_postgresql_flexible_server"@[26] == 'e');
    assert("azurerm_postgresql_flexible_server"@[27] == '_');
    assert("azurerm_postgresql_flexible_server"@[28] == 's');
    assert("azurerm_postgresql_flexible_server"@[29] == 'e');
    assert("azurerm_postgresql_flexible_server"@[30] == 'r');
    assert("azurerm_postgresql_flexible_server"@[31] == 'v');
    assert("azurerm_postgresql_flexible_server"@[32] == 'e');
    assert("azurerm_postgresql_flexible_server"@[33] == 'r');
    reveal_strlit("azurerm_mysql_server");
    assert("azurerm_mysql_server"@[0] == 'a');
    assert("azurerm_mysql_server"@[1] == 'z');
    assert("azurerm_mysql_server"@[2] == 'u');
    assert("azurerm_mysql_server"@[3] == 'r');
    assert("azurerm_mysql_server"@[4] == 'e');
    assert("azurerm_mysql_server"@[5] == 'r');
    assert("azurerm_mysql_server"@[6] == 'm');
    assert("azurerm_mysql_server"@[7] == '_');
    assert("azurerm_mysql_server"@[8] == 'm');
    assert("azurerm_mysql_server"@[9] == 'y');
    assert("azurerm_mysql_server"@[10] == 's');
    assert("azurerm_mysql_server"@[11] == 'q');
    assert("azurerm_mysql_server"@[12] == 'l');
    assert("azurerm_mysql_server"@[13] == '_');
    assert("azurerm_mysql_server"@[14] == 's');
    assert("azurerm_mysql_server"@[15] == 'e');
    assert("azurerm_mysql_server"@[16] == 'r');
    assert("azurerm_mysql_server"@[17] == 'v');
    assert("azurerm_mysql_server"@[18] == 'e');
    assert("azurerm_mysql_server"@[19] == 'r');
    reveal_strlit("azurerm_mysql_flexible_server");
    assert("azurerm_mysql_flexible_server"@[0] == 'a');
    assert("azurerm_mysql_flexible_server"@[1] == 'z');
    assert("azurerm_mysql_flexible_server"@[2] == 'u');
    assert("azurerm_mysql_flexible_server"@[3] == 'r');
    assert("azurerm_mysql_flexible_server"@[4] == 'e');
    assert("azurerm_mysql_flexible_server"@[5] == 'r');
    assert("azurerm_mysql_flexible_server"@[6] == 'm');
    assert("azurerm_mysql_flexible_server"@[7] == '_');
    assert("azurerm_mysql_flexible_server"@[8] == 'm');
    assert("azurerm_mysql_flexible_server"@[9] == 'y');
    assert("azurerm_mysql_flexible_server"@[10] == 's');
    assert("azurerm_mysql_flexible_server"@[11] == 'q');
    assert("azurerm_mysql_flexible_server"@[12] == 'l');
    assert("azurerm_mysql_flexible_server"@[13] == '_');
    assert("azurerm_mysql_flexible_server"@[14] == 'f');
    assert("azurerm_mysql_flexible_server"@[15] == 'l');
    assert("azurerm_mysql_flexible_server"@[16] == 'e');
    assert("azurerm_mysql_flexible_server"@[17] == 'x');
    assert("azurerm_mysql_flexible_server"@[18] == 'i');
    assert("azurerm_mysql_flexible_server"@[19] == 'b');
    assert("azurerm_mysql_flexible_server"@[20] == 'l');
    assert("azurerm_mysql_flexible_server"@[21] == 'e');
    assert("azurerm_mysql_flexible_server"@[22] == '_');
    assert("azurerm_mysql_flexible_server"@[23] == 's');
    assert("azurerm_mysql_flexible_server"@[24] == 'e');
    assert("azurerm_mysql_flexible_server"@[25] == 'r');
    assert("azurerm_mysql_flexible_server"@[26] == 'v');
    assert("azurerm_mysql_flexible_server"@[27] == 'e');
    assert("azurerm_mysql_flexible_server"@[28] == 'r');
    reveal_strlit("azurerm_redis_cache");
    assert("azurerm_redis_cache"@[0] == 'a');
    assert("azurerm_redis_cache"@[1] == 'z');
    assert("azurerm_redis_cache"@[2] == 'u');
    assert("azurerm_redis_cache"@[3] == 'r');
    assert("azurerm_redis_cache"@[4] == 'e');
    assert("azurerm_redis_cache"@[5] == 'r');
    assert("azurerm_redis_cache"@[6] == 'm');
    assert("azurerm_redis_cache"@[7] == '_');
    assert("azurerm_redis_cache"@[8] == 'r');
    assert("azurerm_redis_cache"@[9] == 'e');
    assert("azurerm_redis_cache"@[10] == 'd');
    assert("azurerm_redis_cache"@[11] == 'i');
    assert("azurerm_redis_cache"@[12] == 's');
    assert("azurerm_redis_cache"@[13] == '_');
    assert("azurerm_redis_cache"@[14] == 'c');
    assert("azurerm_redis_cache"@[15] == 'a');
    assert("azurerm_redis_cache"@[16] == 'c');
    assert("azurerm_redis_cache"@[17] == 'h');
    assert("azurerm_redis_cache"@[18] == 'e');
    reveal_strlit("azurerm_storage_account");
    assert("azurerm_storage_account"@[0] == 'a');
    assert("azurerm_storage_account"@[1] == 'z');
    assert("azurerm_storage_account"@[2] == 'u');
    assert("azurerm_storage_account"@[3] == 'r');
    assert("azurerm_storage_account"@[4] == 'e');
    assert("azurerm_storage_account"@[5] == 'r');
    assert("azurerm_storage_account"@[6] == 'm');
    assert("azurerm_storage_account"@[7] == '_');
    assert("azurerm_storage_account"@[8] == 's');
    assert("azurerm_storage_account"@[9] == 't');
    assert("azurerm_storage_account"@[10] == 'o');
    assert("azurerm_storage_account"@[11] == 'r');
    assert("azurerm_storage_account"@[12] == 'a');
    assert("azurerm_storage_account"@[13] == 'g');
    assert("azurerm_storage_account"@[14] == 'e');
    assert("azurerm_storage_account"@[15] == '_');
    assert("azurerm_storage_account"@[16] == 'a');
    assert("azurerm_storage_account"@[17] == 'c');
    assert("azurerm_storage_account"@[18] == 'c');
    assert("azurerm_storage_account"@[19] == 'o');
    assert("azurerm_storage_account"@[20] == 'u');
    assert("azurerm_storage_account"@[21] == 'n');
    assert("azurerm_storage_account"@[22] == 't');
    reveal_strlit("azurerm_storage_share");
    assert("azurerm_storage_share"@[0] == 'a');
    assert("azurerm_storage_share"@[1] == 'z');
    assert("azurerm_storage_share"@[2] == 'u');
    assert("azurerm_storage_share"@[3] == 'r');
    assert("azurerm_storage_share"@[4] == 'e');
    assert("azurerm_storage_share"@[5] == 'r');
    assert("azurerm_storage_share"@[6] == 'm');
    assert("azurerm_storage_share"@[7] == '_');
    assert("azurerm_storage_share"@[8] == 's');
    assert("azurerm_storage_share"@[9] == 't');
    assert("azurerm_storage_share"@[10] == 'o');
    assert("azurerm_storage_share"@[11] == 'r');
    assert("azurerm_storage_share"@[12] == 'a');
    assert("azurerm_storage_share"@[13] == 'g');
    assert("azurerm_storage_share"@[14] == 'e');
    assert("azurerm_storage_share"@[15] == '_');
    assert("azurerm_storage_share"@[16] == 's');
    assert("azurerm_storage_share"@[17] == 'h');
    assert("azurerm_storage_share"@[18] == 'a');
    assert("azurerm_storage_share"@[19] == 'r');
    assert("azurerm_storage_share"@[20] == 'e');
    reveal_strlit("azurerm_storage_share_file");
    assert("azurerm_storage_share_file"@[0] == 'a');
    assert("azurerm_storage_share_file"@[1] == 'z');
    assert("azurerm_storage_share_file"@[2] == 'u');
    assert("azurerm_storage_share_file"@[3] == 'r');
    assert("azurerm_storage_share_file"@[4] == 'e');
    assert("azurerm_storage_share_file"@[5] == 'r');
    assert("azurerm_storage_share_file"@[6] == 'm');
    assert("azurerm_storage_share_file"@[7] == '_');
    assert("azurerm_storage_share_file"@[8] == 's');
    assert("azurerm_storage_share_file"@[9] == 't');
    assert("azurerm_storage_share_file"@[10] == 'o');
    assert("azurerm_storage_share_file"@[11] == 'r');
    assert("azurerm_storage_share_file"@[12] == 'a');
    assert("azurerm_storage_share_file"@[13] == 'g');
    assert("azurerm_storage_share_file"@[14] == 'e');
    assert("azurerm_storage_share_file"@[15] == '_');
    assert("azurerm_storage_share_file"@[16] == 's');
    assert("azurerm_storage_share_file"@[17] == 'h');
    assert("azurerm_storage_share_file"@[18] == 'a');
    assert("azurerm_storage_share_file"@[19] == 'r');
    assert("azurerm_storage_share_file"@[20] == 'e');
    assert("azurerm_storage_share_file"@[21] == '_');
    assert("azurerm_storage_share_file"@[22] == 'f');
    assert("azurerm_storage_share_file"@[23] == 'i');
    assert("azurerm_storage_share_file"@[24] == 'l');
    assert("azurerm_storage_share_file"@[25] == 'e');
    reveal_strlit("azurerm_linux_virtual_machine_scale_set");
    assert("azurerm_linux_virtual_machine_scale_set"@[0] == 'a');
    assert("azurerm_linux_virtual_machine_scale_set"@[1] == 'z');
    assert("azurerm_linux_virtual_machine_scale_set"@[2] == 'u');
    assert("azurerm_linux_virtual_machine_scale_set"@[3] == 'r');
    assert("azurerm_linux_virtual_machine_scale_set"@[4] == 'e');
    assert("azurerm_linux_virtual_machine_scale_set"@[5] == 'r');
    assert("azurerm_linux_virtual_machine_scale_set"@[6] == 'm');
    assert("azurerm_linux_virtual_machine_scale_set"@[7] == '_');
    assert("azurerm_linux_virtual_machine_scale_set"@[8] == 'l');
    assert("azurerm_linux_virtual_machine_scale_set"@[9] == 'i');
    assert("azurerm_linux_virtual_machine_scale_set"@[10] == 'n');
    assert("azurerm_linux_virtual_machine_scale_set"@[11] == 'u');
    assert("azurerm_linux_virtual_machine_scale_set"@[12] == 'x');
    assert("azurerm_linux_virtual_machine_scale_set"@[13] == '_');
    assert("azurerm_linux_virtual_machine_scale_set"@[14] == 'v');
    assert("azurerm_linux_virtual_machine_scale_set"@[15] == 'i');
    assert("azurerm_linux_virtual_machine_scale_set"@[16] == 'r');
    assert("azurerm_linux_virtual_machine_scale_set"@[17] == 't');
    assert("azurerm_linux_virtual_machine_scale_set"@[18] == 'u');
    assert("azurerm_linux_virtual_machine_scale_set"@[19] == 'a');
    assert("azurerm_linux_virtual_machine_scale_set"@[20] == 'l');
    assert("azurerm_linux_virtual_machine_scale_set"@[21] == '_');
    assert("azurerm_linux_virtual_machine_scale_set"@[22] == 'm');
    assert("azurerm_linux_virtual_machine_scale_set"@[23] == 'a');
    assert("azurerm_linux_virtual_machine_scale_set"@[24] == 'c');
    assert("azurerm_linux_virtual_machine_scale_set"@[25] == 'h');
    assert("azurerm_linux_virtual_machine_scale_set"@[26] == 'i');
    assert("azurerm_linux_virtual_machine_scale_set"@[27] == 'n');
    assert("azurerm_linux_virtual_machine_scale_set"@[28] == 'e');
    assert("azurerm_linux_virtual_machine_scale_set"@[29] == '_');
    assert("azurerm_linux_virtual_machine_scale_set"@[30] == 's');
    assert("azurerm_linux_virtual_machine_scale_set"@[31] == 'c');
    assert("azurerm_linux_virtual_machine_scale_set"@[32] == 'a');
    assert("azurerm_linux_virtual_machine_scale_set"@[33] == 'l');
    assert("azurerm_linux_virtual_machine_scale_set"@[34] == 'e');
    assert("azurerm_linux_virtual_machine_scale_set"@[35] == '_');
    assert("azurerm_linux_virtual_machine_scale_set"@[36] == 's');
    assert("azurerm_linux_virtual_machine_scale_set"@[37] == 'e');
    assert("azurerm_linux_virtual_machine_scale_set"@[38] == 't');
    reveal_strlit("azurerm_kubernetes_cluster");
    assert("azurerm_kubernetes_cluster"@[0] == 'a');
    assert("azurerm_kubernetes_cluster"@[1] == 'z');
    assert("azurerm_kubernetes_cluster"@[2] == 'u');
    assert("azurerm_kubernetes_cluster"@[3] == 'r');
    assert("azurerm_kubernetes_cluster"@[4] == 'e');
    assert("azurerm_kubernetes_cluster"@[5] == 'r');
    assert("azurerm_kubernetes_cluster"@[6] == 'm');
    assert("azurerm_kubernetes_cluster"@[7] == '_');
    assert("azurerm_kubernetes_cluster"@[8] == 'k');
    assert("azurerm_kubernetes_cluster"@[9] == 'u');
    assert("azurerm_kubernetes_cluster"@[10] == 'b');
    assert("azurerm_kubernetes_cluster"@[11] == 'e');
    assert("azurerm_kubernetes_cluster"@[12] == 'r');
    assert("azurerm_kubernetes_cluster"@[13] == 'n');
    assert("azurerm_kubernetes_cluster"@[14] == 'e');
    assert("azurerm_kubernetes_cluster"@[15] == 't');
    assert("azurerm_kubernetes_cluster"@[16] == 'e');
    assert("azurerm_kubernetes_cluster"@[17] == 's');
    assert("azurerm_kubernetes_cluster"@[18] == '_');
    assert("azurerm_kubernetes_cluster"@[19] == 'c');
    assert("azurerm_kubernetes_cluster"@[20] == 'l');
    assert("azurerm_kubernetes_cluster"@[21] == 'u');
    assert("azurerm_kubernetes_cluster"@[22] == 's');
    assert("azurerm_kubernetes_cluster"@[23] == 't');
    assert("azurerm_kubernetes_cluster"@[24] == 'e');
    assert("azurerm_kubernetes_cluster"@[25] == 'r');
    reveal_strlit("azurerm_public_ip");
    assert("azurerm_public_ip"@[0] == 'a');
    assert("azurerm_public_ip"@[1] == 'z');
    assert("azurerm_public_ip"@[2] == 'u');
    assert("azurerm_public_ip"@[3] == 'r');
    assert("azurerm_public_ip"@[4] == 'e');
    assert("azurerm_public_ip"@[5] == 'r');
    assert("azurerm_public_ip"@[6] == 'm');
    assert("azurerm_public_ip"@[7] == '_');
    assert("azurerm_public_ip"@[8] == 'p');
    assert("azurerm_public_ip"@[9] == 'u');
    assert("azurerm_public_ip"@[10] == 'b');
    assert("azurerm_public_ip"@[11] == 'l');
    assert("azurerm_public_ip"@[12] == 'i');
    assert("azurerm_public_ip"@[13] == 'c');
    assert("azurerm_public_ip"@[14] == '_');
    assert("azurerm_public_ip"@[15] == 'i');
    assert("azurerm_public_ip"@[16] == 'p');
}

/// The UpCloud attribute an output reference to an Azure attribute is rewritten to, per
/// UpCloud type: ids stay ids, public and private IPs become the server's first and
/// second interface addresses, database FQDNs, host names and ports become the managed
/// database's service fields, names stay names.
pub proof fn azure_attr_upcloud_table(t: Seq<char>)
    ensures
        spec_upcloud_attr_for("upcloud_server"@, "id"@) == Some("id"@),
        spec_upcloud_attr_for("upcloud_server"@, "public_ip_address"@) == Some("network_interface[0].ip_address"@),
        spec_upcloud_attr_for("upcloud_server"@, "private_ip_address"@) == Some("network_interface[1].ip_address"@),
        spec_upcloud_attr_for("upcloud_loadbalancer"@, "id"@) == Some("id"@),
        spec_upcloud_attr_for("upcloud_router"@, "id"@) == Some("id"@),
        spec_upcloud_attr_for("upcloud_network"@, "id"@) == Some("id"@),
        spec_upcloud_attr_for("upcloud_firewall_rules"@, "id"@) == Some("id"@),
        spec_upcloud_attr_for("upcloud_kubernetes_cluster"@, "id"@) == Some("id"@),
        spec_upcloud_attr_for("upcloud_kubernetes_cluster"@, "name"@) == Some("name"@),
        spec_upcloud_attr_for("upcloud_floating_ip_address"@, "id"@) == Some("id"@),
        spec_upcloud_attr_for("upcloud_floating_ip_address"@, "ip_address"@) == Some("ip_address"@),
        spec_upcloud_attr_for("upcloud_managed_object_storage"@, "name"@) == Some("name"@),
        spec_upcloud_attr_for("upcloud_file_storage"@, "name"@) == Some("name"@),
        starts_with(t, "upcloud_managed_database"@) ==> spec_upcloud_attr_for(t, "id"@) == Some("id"@),
        starts_with(t, "upcloud_managed_database"@) ==> spec_upcloud_attr_for(t, "fqdn"@) == Some("service_host"@),
        starts_with(t, "upcloud_managed_database"@) ==> spec_upcloud_attr_for(t, "hostname"@) == Some("service_host"@),
        starts_with(t, "upcloud_managed_database"@) ==> spec_upcloud_attr_for(t, "port"@) == Some("service_port"@),
{
    reveal_strlit("fqdn");
    assert("fqdn"@[0] == 'f');
    assert("fqdn"@[1] == 'q');
    assert("fqdn"@[2] == 'd');
    assert("fqdn"@[3] == 'n');
    reveal_strlit("hostname");
    assert("hostname"@[0] == 'h');
    assert("hostname"@[1] == 'o');
    assert("hostname"@[2] == 's');
    assert("hostname"@[3] == 't');
    assert("hostname"@[4] == 'n');
    assert("hostname"@[5] == 'a');
    assert("hostname"@[6] == 'm');
    assert("hostname"@[7] == 'e');
    reveal_strlit("id");
    assert("id"@[0] == 'i');
    assert("id"@[1] == 'd');
    reveal_strlit("ip_address");
    assert("ip_address"@[0] == 'i');
    assert("ip_address"@[1] == 'p');
    assert("ip_address"@[2] == '_');
    assert("ip_address"@[3] == 'a');
    assert("ip_address"@[4] == 'd');
    assert("ip_address"@[5] == 'd');
    assert("ip_address"@[6] == 'r');
    assert("ip_address"@[7] == 'e');
    assert("ip_address"@[8] == 's');
    assert("ip_address"@[9] == 's');
    reveal_strlit("name");
    assert("name"@[0] == 'n');
    assert("name"@[1] == 'a');
    assert("name"@[2] == 'm');
    assert("name"@[3] == 'e');
    reveal_strlit("port");
    assert("port"@[0] == 'p');
    assert("port"@[1] == 'o');
    assert("port"@[2] == 'r');
    assert("port"@[3] == 't');
    reveal_strlit("private_ip_address");
    assert("private_ip_address"@[0] == 'p');
    assert("private_ip_address"@[1] == 'r');
    assert("private_ip_address"@[2] == 'i');
    assert("private_ip_address"@[3] == 'v');
    assert("private_ip_address"@[4] == 'a');
    assert("private_ip_address"@[5] == 't');
    assert("private_ip_address"@[6] == 'e');
    assert("private_ip_address"@[7] == '_');
    assert("private_ip_address"@[8] == 'i');
    assert("private_ip_address"@[9] == 'p');
    assert("private_ip_address"@[10] == '_');
    assert("private_ip_address"@[11] == 'a');
    assert("private_ip_address"@[12] == 'd');
    assert("private_ip_address"@[13] == 'd');
    assert("private_ip_address"@[14] == 'r');
    assert("private_ip_address"@[15] == 'e');
    assert("private_ip_address"@[16] == 's');
    assert("private_ip_address"@[17] == 's');
    reveal_strlit("public_ip_address");
    assert("public_ip_address"@[0] == 'p');
    assert("public_ip_address"@[1] == 'u');
    assert("public_ip_address"@[2] == 'b');
    assert("public_ip_address"@[3] == 'l');
    assert("public_ip_address"@[4] == 'i');
    assert("public_ip_address"@[5] == 'c');
    assert("public_ip_address"@[6] == '_');
    assert("public_ip_address"@[7] == 'i');
    assert("public_ip_address"@[8] == 'p');
    assert("public_ip_address"@[9] == '_');
    assert("public_ip_address"@[10] == 'a');
    assert("public_ip_address"@[11] == 'd');
    assert("public_ip_address"@[12] == 'd');
    assert("public_ip_address"@[13] == 'r');
    assert("public_ip_address"@[14] == 'e');
    assert("public_ip_address"@[15] == 's');
    assert("public_ip_address"@[16] == 's');
    reveal_strlit("upcloud_file_storage");
    assert("upcloud_file_storage"@[0] == 'u');
    assert("upcloud_file_storage"@[1] == 'p');
    assert("upcloud_file_storage"@[2] == 'c');
    assert("upcloud_file_storage"@[3] == 'l');
    assert("upcloud_file_storage"@[4] == 'o');
    assert("upcloud_file_storage"@[5] == 'u');
    assert("upcloud_file_storage"@[6] == 'd');
    assert("upcloud_file_storage"@[7] == '_');
    assert("upcloud_file_storage"@[8] == 'f');
    assert("upcloud_file_storage"@[9] == 'i');
    assert("upcloud_file_storage"@[10] == 'l');
    assert("upcloud_file_storage"@[11] == 'e');
    assert("upcloud_file_storage"@[12] == '_');
    assert("upcloud_file_storage"@[13] == 's');
    assert("upcloud_file_storage"@[14] == 't');
    assert("upcloud_file_storage"@[15] == 'o');
    assert("upcloud_file_storage"@[16] == 'r');
    assert("upcloud_file_storage"@[17] == 'a');
    assert("upcloud_file_storage"@[18] == 'g');
    assert("upcloud_file_storage"@[19] == 'e');
    reveal_strlit("upcloud_firewall_rules");
    assert("upcloud_firewall_rules"@[0] == 'u');
    assert("upcloud_firewall_rules"@[1] == 'p');
    assert("upcloud_firewall_rules"@[2] == 'c');
    assert("upcloud_firewall_rules"@[3] == 'l');
    assert("upcloud_firewall_rules"@[4] == 'o');
    assert("upcloud_firewall_rules"@[5] == 'u');
    assert("upcloud_firewall_rules"@[6] == 'd');
    assert("upcloud_firewall_rules"@[7] == '_');
    assert("upcloud_firewall_rules"@[8] == 'f');
    assert("upcloud_firewall_rules"@[9] == 'i');
    assert("upcloud_firewall_rules"@[10] == 'r');
    assert("upcloud_firewall_rules"@[11] == 'e');
    assert("upcloud_firewall_rules"@[12] == 'w');
    assert("upcloud_firewall_rules"@[13] == 'a');
    assert("upcloud_firewall_rules"@[14] == 'l');
    assert("upcloud_firewall_rules"@[15] == 'l');
    assert("upcloud_firewall_rules"@[16] == '_');
    assert("upcloud_firewall_rules"@[17] == 'r');
    assert("upcloud_firewall_rules"@[18] == 'u');
    assert("upcloud_firewall_rules"@[19] == 'l');
    assert("upcloud_firewall_rules"@[20] == 'e');
    assert("upcloud_firewall_rules"@[21] == 's');
    reveal_strlit("upcloud_floating_ip_address");
    assert("upcloud_floating_ip_address"@[0] == 'u');
    assert("upcloud_floating_ip_address"@[1] == 'p');
    assert("upcloud_floating_ip_address"@[2] == 'c');
    assert("upcloud_floating_ip_address"@[3] == 'l');
    assert("upcloud_floating_ip_address"@[4] == 'o');
    assert("upcloud_floating_ip_address"@[5] == 'u');
    assert("upcloud_floating_ip_address"@[6] == 'd');
    assert("upcloud_floating_ip_address"@[7] == '_');
    assert("upcloud_floating_ip_address"@[8] == 'f');
    assert("upcloud_floating_ip_address"@[9] == 'l');
    assert("upcloud_floating_ip_address"@[10] == 'o');
    assert("upcloud_floating_ip_address"@[11] == 'a');
    assert("upcloud_floating_ip_address"@[12] == 't');
    assert("upcloud_floating_ip_address"@[13] == 'i');
    assert("upcloud_floating_ip_address"@[14] == 'n');
    assert("upcloud_floating_ip_address"@[15] == 'g');
    assert("upcloud_floating_ip_address"@[16] == '_');
    assert("upcloud_floating_ip_address"@[17] == 'i');
    assert("upcloud_floating_ip_address"@[18] == 'p');
    assert("upcloud_floating_ip_address"@[19] == '_');
    assert("upcloud_floating_ip_address"@[20] == 'a');
    assert("upcloud_floating_ip_address"@[21] == 'd');
    assert("upcloud_floating_ip_address"@[22] == 'd');
    assert("upcloud_floating_ip_address"@[23] == 'r');
    assert("upcloud_floating_ip_address"@[24] == 'e');
    assert("upcloud_floating_ip_address"@[25] == 's');
    assert("upcloud_floating_ip_address"@[26] == 's');
    reveal_strlit("upcloud_kubernetes_cluster");
    assert("upcloud_kubernetes_cluster"@[0] == 'u');
    assert("upcloud_kubernetes_cluster"@[1] == 'p');
    assert("upcloud_kubernetes_cluster"@[2] == 'c');
    assert("upcloud_kubernetes_cluster"@[3] == 'l');
    assert("upcloud_kubernetes_cluster"@[4] == 'o');
    assert("upcloud_kubernetes_cluster"@[5] == 'u');
    assert("upcloud_kubernetes_cluster"@[6] == 'd');
    assert("upcloud_kubernetes_cluster"@[7] == '_');
    assert("upcloud_kubernetes_cluster"@[8] == 'k');
    assert("upcloud_kubernetes_cluster"@[9] == 'u');
    assert("upcloud_kubernetes_cluster"@[10] == 'b');
    assert("upcloud_kubernetes_cluster"@[11] == 'e');
    assert("upcloud_kubernetes_cluster"@[12] == 'r');
    assert("upcloud_kubernetes_cluster"@[13] == 'n');
    assert("upcloud_kubernetes_cluster"@[14] == 'e');
    assert("upcloud_kubernetes_cluster"@[15] == 't');
    assert("upcloud_kubernetes_cluster"@[16] == 'e');
    assert("upcloud_kubernetes_cluster"@[17] == 's');
    assert("upcloud_kubernetes_cluster"@[18] == '_');
    assert("upcloud_kubernetes_cluster"@[19] == 'c');
    assert("upcloud_kubernetes_cluster"@[20] == 'l');
    assert("upcloud_kubernetes_cluster"@[21] == 'u');
    assert("upcloud_kubernetes_cluster"@[22] == 's');
    assert("upcloud_kubernetes_cluster"@[23] == 't');
    assert("upcloud_kubernetes_cluster"@[24] == 'e');
    assert("upcloud_kubernetes_cluster"@[25] == 'r');
    reveal_strlit("upcloud_loadbalancer");
    assert("upcloud_loadbalancer"@[0] == 'u');
    assert("upcloud_loadbalancer"@[1] == 'p');
    assert("upcloud_loadbalancer"@[2] == 'c');
    assert("upcloud_loadbalancer"@[3] == 'l');
    assert("upcloud_loadbalancer"@[4] == 'o');
    assert("upcloud_loadbalancer"@[5] == 'u');
    assert("upcloud_loadbalancer"@[6] == 'd');
    assert("upcloud_loadbalancer"@[7] == '_');
    assert("upcloud_loadbalancer"@[8] == 'l');
    assert("upcloud_loadbalancer"@[9] == 'o');
    assert("upcloud_loadbalancer"@[10] == 'a');
    assert("upcloud_loadbalancer"@[11] == 'd');
    assert("upcloud_loadbalancer"@[12] == 'b');
    assert("upcloud_loadbalancer"@[13] == 'a');
    assert("upcloud_loadbalancer"@[14] == 'l');
    assert("upcloud_loadbalancer"@[15] == 'a');
    assert("upcloud_loadbalancer"@[16] == 'n');
    assert("upcloud_loadbalancer"@[17] == 'c');
    assert("upcloud_loadbalancer"@[18] == 'e');
    assert("upcloud_loadbalancer"@[19] == 'r');
    reveal_strlit("upcloud_managed_database");
    assert("upcloud_managed_database"@[0] == 'u');
    assert("upcloud_managed_database"@[1] == 'p');
    assert("upcloud_managed_database"@[2] == 'c');
    assert("upcloud_managed_database"@[3] == 'l');
    assert("upcloud_managed_database"@[4] == 'o');
    assert("upcloud_managed_database"@[5] == 'u');
    assert("upcloud_managed_database"@[6] == 'd');
    assert("upcloud_managed_database"@[7] == '_');
    assert("upcloud_managed_database"@[8] == 'm');
    assert("upcloud_managed_database"@[9] == 'a');
    assert("upcloud_managed_database"@[10] == 'n');
    assert("upcloud_managed_database"@[11] == 'a');
    assert("upcloud_managed_database"@[12] == 'g');
    assert("upcloud_managed_database"@[13] == 'e');
    assert("upcloud_managed_database"@[14] == 'd');
    assert("upcloud_managed_database"@[15] == '_');
    assert("upcloud_managed_database"@[16] == 'd');
    assert("upcloud_managed_database"@[17] == 'a');
    assert("upcloud_managed_database"@[18] == 't');
    assert("upcloud_managed_database"@[19] == 'a');
    assert("upcloud_managed_database"@[20] == 'b');
    assert("upcloud_managed_database"@[21] == 'a');
    assert("upcloud_managed_database"@[22] == 's');
    assert("upcloud_managed_database"@[23] == 'e');
    reveal_strlit("upcloud_managed_object_storage");
    assert("upcloud_managed_object_storage"@[0] == 'u');
    assert("upcloud_managed_object_storage"@[1] == 'p');
    assert("upcloud_managed_object_storage"@[2] == 'c');
    assert("upcloud_managed_object_storage"@[3] == 'l');
    assert("upcloud_managed_object_storage"@[4] == 'o');
    assert("upcloud_managed_object_storage"@[5] == 'u');
    assert("upcloud_managed_object_storage"@[6] == 'd');
    assert("upcloud_managed_object_storage"@[7] == '_');
    assert("upcloud_managed_object_storage"@[8] == 'm');
    assert("upcloud_managed_object_storage"@[9] == 'a');
    assert("upcloud_managed_object_storage"@[10] == 'n');
    assert("upcloud_managed_object_storage"@[11] == 'a');
    assert("upcloud_managed_object_storage"@[12] == 'g');
    assert("upcloud_managed_object_storage"@[13] == 'e');
    assert("upcloud_managed_object_storage"@[14] == 'd');
    assert("upcloud_managed_object_storage"@[15] == '_');
    assert("upcloud_managed_object_storage"@[16] == 'o');
    assert("upcloud_managed_object_storage"@[17] == 'b');
    assert("upcloud_managed_object_storage"@[18] == 'j');
    assert("upcloud_managed_object_storage"@[19] == 'e');
    assert("upcloud_managed_object_storage"@[20] == 'c');
    assert("upcloud_managed_object_storage"@[21] == 't');
    assert("upcloud_managed_object_storage"@[22] == '_');
    assert("upcloud_managed_object_storage"@[23] == 's');
    assert("upcloud_managed_object_storage"@[24] == 't');
    assert("upcloud_managed_object_storage"@[25] == 'o');
    assert("upcloud_managed_object_storage"@[26] == 'r');
    assert("upcloud_managed_object_storage"@[27] == 'a');
    assert("upcloud_managed_object_storage"@[28] == 'g');
    assert("upcloud_managed_object_storage"@[29] == 'e');
    reveal_strlit("upcloud_network");
    assert("upcloud_network"@[0] == 'u');
    assert("upcloud_network"@[1] == 'p');
    assert("upcloud_network"@[2] == 'c');
    assert("upcloud_network"@[3] == 'l');
    assert("upcloud_network"@[4] == 'o');
    assert("upcloud_network"@[5] == 'u');
    assert("upcloud_network"@[6] == 'd');
    assert("upcloud_network"@[7] == '_');
    assert("upcloud_network"@[8] == 'n');
    assert("upcloud_network"@[9] == 'e');
    assert("upcloud_network"@[10] == 't');
    assert("upcloud_network"@[11] == 'w');
    assert("upcloud_network"@[12] == 'o');
    assert("upcloud_network"@[13] == 'r');
    assert("upcloud_network"@[14] == 'k');
    reveal_strlit("upcloud_router");
    assert("upcloud_router"@[0] == 'u');
    assert("upcloud_router"@[1] == 'p');
    assert("upcloud_router"@[2] == 'c');
    assert("upcloud_router"@[3] == 'l');
    assert("upcloud_router"@[4] == 'o');
    assert("upcloud_router"@[5] == 'u');
    assert("upcloud_router"@[6] == 'd');
    assert("upcloud_router"@[7] == '_');
    assert("upcloud_router"@[8] == 'r');
    assert("upcloud_router"@[9] == 'o');
    assert("upcloud_router"@[10] == 'u');
    assert("upcloud_router"@[11] == 't');
    assert("upcloud_router"@[12] == 'e');
    assert("upcloud_router"@[13] == 'r');
    reveal_strlit("upcloud_server");
    assert("upcloud_server"@[0] == 'u');
    assert("upcloud_server"@[1] == 'p');
    assert("upcloud_server"@[2] == 'c');
    assert("upcloud_server"@[3] == 'l');
    assert("upcloud_server"@[4] == 'o');
    assert("upcloud_server"@[5] == 'u');
    assert("upcloud_server"@[6] == 'd');
    assert("upcloud_server"@[7] == '_');
    assert("upcloud_server"@[8] == 's');
    assert("upcloud_server"@[9] == 'e');
    assert("upcloud_server"@[10] == 'r');
    assert("upcloud_server"@[11] == 'v');
    assert("upcloud_server"@[12] == 'e');
    assert("upcloud_server"@[13] == 'r');
    if starts_with(t, "upcloud_managed_database"@) {
        assert(t.subrange(0, 24)[8] == t[8]);
    }
}

} // verus!
