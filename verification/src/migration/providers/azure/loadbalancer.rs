//! Azure load balancing: load balancers, backend pools, rules, probes, application gateways.
use vstd::prelude::*;

use crate::migration::providers::aws::network::attr_seg;
use crate::migration::providers::azure::generator_support::{
    appgw_blocks_ok, extract_appgw_subnet_ref, extract_backend_pool_from_lb_rule_hcl,
    extract_backend_pool_server_from_association_hcl, extract_lb_name_from_rule_hcl,
    extract_probe_health_check_props_hcl, generate_appgw_sub_resources, spec_extract_appgw_subnet_ref,
    spec_generate_appgw, spec_probe_health_check_props,
};
use crate::migration::providers::scan::{first_keyed_ref, spec_keyed_pair, spec_line_ref};
use crate::migration::providers::shared::{spec_upcloud_loadbalancer_hcl, upcloud_loadbalancer_hcl};
use crate::migration::types::{
    cat2, cat3, new_result, opt_view, push_note, result_model, MigrationResult, MigrationStatus,
    ResultModel,
};
use crate::terraform::types::TerraformResource;
use crate::text::{
    before_char_v, chars_of, eq_str, lines, push_str, slice_of, spec_to_lowercase, starts_with_exec,
    string_of, to_lowercase, trim_char_v,
};

verus! {

fn attr_seg_exec(res: &TerraformResource, key: &str, prefix: &str) -> (r: Option<String>)
    ensures
        opt_view(r) == attr_seg(*res, key@, prefix@),
{
    match res.get_attr(key) {
        Some(v) => {
            let t = trim_char_v(&v, '"');
            if starts_with_exec(&t, prefix) {
                let pl = chars_of(prefix).len();
                let n = t.len();
                let rest = slice_of(&t, pl, n);
                assert(rest@ =~= t@.skip(prefix@.len() as int));
                Some(string_of(&before_char_v(&rest, '.')))
            } else {
                None
            }
        },
        None => None,
    }
}

/// The frontend mode for a rule protocol: `tcp` for TCP and UDP (any case), else `http`.
pub open spec fn spec_lb_rule_mode(protocol: Seq<char>) -> Seq<char> {
    let p = spec_to_lowercase(protocol);
    if p == "tcp"@ || p == "udp"@ { "tcp"@ } else { "http"@ }
}

fn lb_rule_mode(protocol: &str) -> (r: &'static str)
    ensures
        r@ == spec_lb_rule_mode(protocol@),
{
    let p = chars_of(to_lowercase(protocol).as_str());
    if eq_str(&p, "tcp") || eq_str(&p, "udp") { "tcp" } else { "http" }
}

/// The health check type for a probe protocol: `http`, `https` (any case), else `tcp`.
pub open spec fn spec_probe_hc_type(protocol: Seq<char>) -> Seq<char> {
    let p = spec_to_lowercase(protocol);
    if p == "http"@ { "http"@ } else if p == "https"@ { "https"@ } else { "tcp"@ }
}

fn probe_hc_type(protocol: &str) -> (r: &'static str)
    ensures
        r@ == spec_probe_hc_type(protocol@),
{
    let p = chars_of(to_lowercase(protocol).as_str());
    if eq_str(&p, "http") { "http" } else if eq_str(&p, "https") { "https" } else { "tcp" }
}

pub open spec fn spec_map_lb(res: TerraformResource) -> ResultModel {
    let sku = res.attr_trim_or("sku"@, "Standard"@);
    let body = spec_upcloud_loadbalancer_hcl(res.name@, "development"@, "  networks {\n    name    = \"private\"\n    type    = \"private\"\n    family  = \"IPv4\"\n    network = \"<TODO: upcloud_network reference>\"\n  }\n\n  networks {\n    name   = \"public\"\n    type   = \"public\"\n    family = \"IPv4\"\n  }"@, "  # update to production-small or higher for production"@);
    let notes0 = Seq::<Seq<char>>::empty();
    let notes1 = notes0.push("Azure Load Balancer (SKU: "@ + sku + ") → UpCloud Load Balancer"@);
    let notes2 = notes1.push("Backends and frontends are defined as separate Terraform resources."@);
    result_model(res, MigrationStatus::Compatible, "upcloud_loadbalancer"@, Some(body), None, None, notes2)
}

/// `azurerm_lb` → `upcloud_loadbalancer` on a private and a public network.
pub fn map_lb(res: &TerraformResource) -> (r: MigrationResult)
    ensures
        r@ == spec_map_lb(*res),
{
    let sku: String = string_of(&res.trimmed_or("sku", "Standard"));
    let body: String = upcloud_loadbalancer_hcl(res.name.as_str(), "development", "  networks {\n    name    = \"private\"\n    type    = \"private\"\n    family  = \"IPv4\"\n    network = \"<TODO: upcloud_network reference>\"\n  }\n\n  networks {\n    name   = \"public\"\n    type   = \"public\"\n    family = \"IPv4\"\n  }", "  # update to production-small or higher for production");
    let mut hcl = String::new();
    push_str(&mut hcl, body.as_str());
    let mut notes: Vec<String> = Vec::new();
    let mut n0 = String::new();
    push_str(&mut n0, "Azure Load Balancer (SKU: ");
    push_str(&mut n0, sku.as_str());
    push_str(&mut n0, ") → UpCloud Load Balancer");
    push_note(&mut notes, n0);
    let mut n1 = String::new();
    push_str(&mut n1, "Backends and frontends are defined as separate Terraform resources.");
    push_note(&mut notes, n1);
    new_result(res, MigrationStatus::Compatible, "upcloud_loadbalancer", Some(hcl), None, None, notes)
}

pub open spec fn spec_map_lb_backend_address_pool(res: TerraformResource) -> ResultModel {
    let lb_name = attr_seg(res, "loadbalancer_id"@, "azurerm_lb."@);
    let lb_ref = match lb_name { Some(n) => "upcloud_loadbalancer."@ + n + ".id"@, None => "upcloud_loadbalancer.<TODO>.id"@ };
    let notes0 = Seq::<Seq<char>>::empty();
    let notes1 = notes0.push("Azure Backend Address Pool → upcloud_loadbalancer_backend."@);
    let notes2 = notes1.push("Add backend members as upcloud_loadbalancer_static_backend_member resources."@);
    result_model(res, MigrationStatus::Compatible, "upcloud_loadbalancer_backend"@, Some("resource \"upcloud_loadbalancer_backend\" \""@ + res.name@ + "\" {\n  loadbalancer = "@ + lb_ref + "\n  name         = \""@ + res.name@ + "\"\n\n  properties {\n    # __PROBE_HC__\n  }\n}\n"@), None, lb_name, notes2)
}

/// `azurerm_lb_backend_address_pool` → `upcloud_loadbalancer_backend`, with a marker where
/// the probe's health check properties go.
pub fn map_lb_backend_address_pool(res: &TerraformResource) -> (r: MigrationResult)
    ensures
        r@ == spec_map_lb_backend_address_pool(*res),
{
    let lb_name: Option<String> = attr_seg_exec(res, "loadbalancer_id", "azurerm_lb.");
    let lb_ref: String = match &lb_name { Some(n) => cat3("upcloud_loadbalancer.", n.as_str(), ".id"), None => String::from_str("upcloud_loadbalancer.<TODO>.id") };
    let mut hcl = String::new();
    push_str(&mut hcl, "resource \"upcloud_loadbalancer_backend\" \"");
    push_str(&mut hcl, res.name.as_str());
    push_str(&mut hcl, "\" {\n  loadbalancer = ");
    push_str(&mut hcl, lb_ref.as_str());
    push_str(&mut hcl, "\n  name         = \"");
    push_str(&mut hcl, res.name.as_str());
    push_str(&mut hcl, "\"\n\n  properties {\n    # __PROBE_HC__\n  }\n}\n");
    let mut notes: Vec<String> = Vec::new();
    let mut n0 = String::new();
    push_str(&mut n0, "Azure Backend Address Pool → upcloud_loadbalancer_backend.");
    push_note(&mut notes, n0);
    let mut n1 = String::new();
    push_str(&mut n1, "Add backend members as upcloud_loadbalancer_static_backend_member resources.");
    push_note(&mut notes, n1);
    new_result(res, MigrationStatus::Compatible, "upcloud_loadbalancer_backend", Some(hcl), None, lb_name, notes)
}

pub open spec fn spec_map_lb_rule(res: TerraformResource) -> ResultModel {
    let protocol = res.attr_trim_or("protocol"@, "Tcp"@);
    let port = res.attr_trim_or("frontend_port"@, "80"@);
    let mode = spec_lb_rule_mode(protocol);
    let lb_ref = match spec_line_ref(res.raw_hcl@, "loadbalancer_id"@, ""@, "azurerm_lb."@, false) { Some(n) => "upcloud_loadbalancer."@ + n + ".id"@, None => "upcloud_loadbalancer.<TODO>.id"@ };
    let backend_ref = match first_keyed_ref(lines(res.raw_hcl@), "backend_address_pool_id"@, "azurerm_lb_backend_address_pool."@, false, false) { Some(n) => "upcloud_loadbalancer_backend."@ + n + ".name"@, None => "upcloud_loadbalancer_backend.<TODO>.name"@ };
    let notes0 = Seq::<Seq<char>>::empty();
    let notes1 = notes0.push("LB Rule ("@ + protocol + "/"@ + port + ") → UpCloud LB Frontend (mode="@ + mode + ")"@);
    result_model(res, MigrationStatus::Compatible, "upcloud_loadbalancer_frontend"@, Some("resource \"upcloud_loadbalancer_frontend\" \""@ + res.name@ + "\" {\n  loadbalancer         = "@ + lb_ref + "\n  name                 = \""@ + res.name@ + "\"\n  mode                 = \""@ + mode + "\"\n  port                 = "@ + port + "\n  default_backend_name = "@ + backend_ref + "\n\n  networks {\n    name = \"public\"\n  }\n}\n"@), None, None, notes1)
}

/// `azurerm_lb_rule` → `upcloud_loadbalancer_frontend`; the load balancer and backend pool
/// are read from the source block.
pub fn map_lb_rule(res: &TerraformResource) -> (r: MigrationResult)
    ensures
        r@ == spec_map_lb_rule(*res),
{
    let protocol: String = string_of(&res.trimmed_or("protocol", "Tcp"));
    let port: String = string_of(&res.trimmed_or("frontend_port", "80"));
    let mode: String = String::from_str(lb_rule_mode(protocol.as_str()));
    let lb_ref: String = match extract_lb_name_from_rule_hcl(res.raw_hcl.as_str()) { Some(n) => cat3("upcloud_loadbalancer.", n.as_str(), ".id"), None => String::from_str("upcloud_loadbalancer.<TODO>.id") };
    let backend_ref: String = match extract_backend_pool_from_lb_rule_hcl(res.raw_hcl.as_str()) { Some(n) => cat3("upcloud_loadbalancer_backend.", n.as_str(), ".name"), None => String::from_str("upcloud_loadbalancer_backend.<TODO>.name") };
    let mut hcl = String::new();
    push_str(&mut hcl, "resource \"upcloud_loadbalancer_frontend\" \"");
    push_str(&mut hcl, res.name.as_str());
    push_str(&mut hcl, "\" {\n  loadbalancer         = ");
    push_str(&mut hcl, lb_ref.as_str());
    push_str(&mut hcl, "\n  name                 = \"");
    push_str(&mut hcl, res.name.as_str());
    push_str(&mut hcl, "\"\n  mode                 = \"");
    push_str(&mut hcl, mode.as_str());
    push_str(&mut hcl, "\"\n  port                 = ");
    push_str(&mut hcl, port.as_str());
    push_str(&mut hcl, "\n  default_backend_name = ");
    push_str(&mut hcl, backend_ref.as_str());
    push_str(&mut hcl, "\n\n  networks {\n    name = \"public\"\n  }\n}\n");
    let mut notes: Vec<String> = Vec::new();
    let mut n0 = String::new();
    push_str(&mut n0, "LB Rule (");
    push_str(&mut n0, protocol.as_str());
    push_str(&mut n0, "/");
    push_str(&mut n0, port.as_str());
    push_str(&mut n0, ") → UpCloud LB Frontend (mode=");
    push_str(&mut n0, mode.as_str());
    push_str(&mut n0, ")");
    push_note(&mut notes, n0);
    new_result(res, MigrationStatus::Compatible, "upcloud_loadbalancer_frontend", Some(hcl), None, None, notes)
}

pub open spec fn spec_map_lb_backend_address_pool_association(res: TerraformResource) -> ResultModel {
    let pool_name = attr_seg(res, "backend_address_pool_id"@, "azurerm_lb_backend_address_pool."@);
    let backend_ref = match pool_name { Some(n) => "upcloud_loadbalancer_backend."@ + n + ".id"@, None => "upcloud_loadbalancer_backend.<TODO>.id"@ };
    let nic = match spec_keyed_pair(res.raw_hcl@, "backend_address_pool_id"@, "azurerm_lb_backend_address_pool."@, false, "network_interface_id"@, "azurerm_network_interface."@, true) { Some(p) => Some(p.1), None => None };
    let nic_name = match nic { Some(n) => n, None => seq![] };
    let ip_ref = match nic { Some(n) => "upcloud_server.<TODO: server using NIC "@ + n + ">.network_interface[1].ip_address"@, None => "<TODO: server IP>"@ };
    let notes0 = Seq::<Seq<char>>::empty();
    let notes1 = notes0.push("Backend pool association → upcloud_loadbalancer_static_backend_member."@);
    let notes2 = if nic is Some { notes1.push("Set ip to the private IP of the server using azurerm_network_interface."@ + nic_name + " (e.g. upcloud_server.NAME.network_interface[1].ip_address)."@) } else { notes1 };
    let notes3 = if nic is None { notes2.push("Set ip to the server's private IP address."@) } else { notes2 };
    result_model(res, MigrationStatus::Compatible, "upcloud_loadbalancer_static_backend_member"@, Some("resource \"upcloud_loadbalancer_static_backend_member\" \""@ + res.name@ + "\" {\n  backend      = "@ + backend_ref + "\n  name         = \""@ + res.name@ + "\"\n  ip           = \""@ + ip_ref + "\"\n  port         = 80\n  weight       = 100\n  max_sessions = 1000\n  enabled      = true\n}\n"@), None, pool_name, notes3)
}

/// A backend pool association → `upcloud_loadbalancer_static_backend_member`; the interface
/// named in the source block is given as a hint for the member's address.
pub fn map_lb_backend_address_pool_association(res: &TerraformResource) -> (r: MigrationResult)
    ensures
        r@ == spec_map_lb_backend_address_pool_association(*res),
{
    let pool_name: Option<String> = attr_seg_exec(res, "backend_address_pool_id", "azurerm_lb_backend_address_pool.");
    let backend_ref: String = match &pool_name { Some(n) => cat3("upcloud_loadbalancer_backend.", n.as_str(), ".id"), None => String::from_str("upcloud_loadbalancer_backend.<TODO>.id") };
    let nic: Option<String> = match extract_backend_pool_server_from_association_hcl(res.raw_hcl.as_str()) { Some(p) => Some(p.1), None => None };
    let nic_name: String = match &nic { Some(n) => string_of(&chars_of(n.as_str())), None => String::new() };
    let ip_ref: String = match &nic { Some(n) => cat3("upcloud_server.<TODO: server using NIC ", n.as_str(), ">.network_interface[1].ip_address"), None => String::from_str("<TODO: server IP>") };
    let mut hcl = String::new();
    push_str(&mut hcl, "resource \"upcloud_loadbalancer_static_backend_member\" \"");
    push_str(&mut hcl, res.name.as_str());
    push_str(&mut hcl, "\" {\n  backend      = ");
    push_str(&mut hcl, backend_ref.as_str());
    push_str(&mut hcl, "\n  name         = \"");
    push_str(&mut hcl, res.name.as_str());
    push_str(&mut hcl, "\"\n  ip           = \"");
    push_str(&mut hcl, ip_ref.as_str());
    push_str(&mut hcl, "\"\n  port         = 80\n  weight       = 100\n  max_sessions = 1000\n  enabled      = true\n}\n");
    let mut notes: Vec<String> = Vec::new();
    let mut n0 = String::new();
    push_str(&mut n0, "Backend pool association → upcloud_loadbalancer_static_backend_member.");
    push_note(&mut notes, n0);
    if nic.is_some() {
        let mut n1 = String::new();
        push_str(&mut n1, "Set ip to the private IP of the server using azurerm_network_interface.");
        push_str(&mut n1, nic_name.as_str());
        push_str(&mut n1, " (e.g. upcloud_server.NAME.network_interface[1].ip_address).");
        push_note(&mut notes, n1);
    }
    if nic.is_none() {
        let mut n2 = String::new();
        push_str(&mut n2, "Set ip to the server's private IP address.");
        push_note(&mut notes, n2);
    }
    new_result(res, MigrationStatus::Compatible, "upcloud_loadbalancer_static_backend_member", Some(hcl), None, pool_name, notes)
}

pub open spec fn spec_map_application_gateway(res: TerraformResource) -> ResultModel {
    let network_val = match spec_extract_appgw_subnet_ref(res.raw_hcl@) { Some(v) => v, None => "\"<TODO: upcloud_network reference>\""@ };
    let networks_block = "  networks {\n    name    = \"private\"\n    type    = \"private\"\n    family  = \"IPv4\"\n    network = "@ + network_val + "\n  }\n\n  networks {\n    name   = \"public\"\n    type   = \"public\"\n    family = \"IPv4\"\n  }"@;
    let main_hcl = spec_upcloud_loadbalancer_hcl(res.name@, "production-small"@, networks_block, "  # WAF and path-based routing require manual configuration"@);
    let sub = spec_generate_appgw(res.name@, res.raw_hcl@);
    let body = if sub.len() == 0 { main_hcl } else { main_hcl + "\n"@ + sub };
    let notes0 = Seq::<Seq<char>>::empty();
    let notes1 = notes0.push("Azure Application Gateway → UpCloud Load Balancer with backends and frontends."@);
    let notes2 = notes1.push("WAF and advanced routing features require manual migration."@);
    let notes3 = notes2.push("Update TLS certificate references before applying."@);
    result_model(res, MigrationStatus::Partial, "upcloud_loadbalancer"@, Some(body), None, None, notes3)
}

/// `azurerm_application_gateway` → `upcloud_loadbalancer` on the gateway's subnet, followed by
/// the backends, frontends and certificate stubs built from its blocks.
pub fn map_application_gateway(res: &TerraformResource) -> (r: MigrationResult)
    requires
        appgw_blocks_ok(res.raw_hcl@),
    ensures
        r@ == spec_map_application_gateway(*res),
{
    let network_val: String = match extract_appgw_subnet_ref(res.raw_hcl.as_str()) { Some(v) => v, None => String::from_str("\"<TODO: upcloud_network reference>\"") };
    let networks_block: String = cat3("  networks {\n    name    = \"private\"\n    type    = \"private\"\n    family  = \"IPv4\"\n    network = ", network_val.as_str(), "\n  }\n\n  networks {\n    name   = \"public\"\n    type   = \"public\"\n    family = \"IPv4\"\n  }");
    let main_hcl: String = upcloud_loadbalancer_hcl(res.name.as_str(), "production-small", networks_block.as_str(), "  # WAF and path-based routing require manual configuration");
    let sub: String = generate_appgw_sub_resources(res.name.as_str(), res.raw_hcl.as_str());
    let body: String = if chars_of(sub.as_str()).len() == 0 { main_hcl } else { cat3(main_hcl.as_str(), "\n", sub.as_str()) };
    let mut hcl = String::new();
    push_str(&mut hcl, body.as_str());
    let mut notes: Vec<String> = Vec::new();
    let mut n0 = String::new();
    push_str(&mut n0, "Azure Application Gateway → UpCloud Load Balancer with backends and frontends.");
    push_note(&mut notes, n0);
    let mut n1 = String::new();
    push_str(&mut n1, "WAF and advanced routing features require manual migration.");
    push_note(&mut notes, n1);
    let mut n2 = String::new();
    push_str(&mut n2, "Update TLS certificate references before applying.");
    push_note(&mut notes, n2);
    new_result(res, MigrationStatus::Partial, "upcloud_loadbalancer", Some(hcl), None, None, notes)
}

pub open spec fn spec_map_lb_probe(res: TerraformResource) -> ResultModel {
    let protocol = res.attr_trim_or("protocol"@, "Tcp"@);
    let hc_type = spec_probe_hc_type(protocol);
    let props = spec_probe_health_check_props(res.raw_hcl@);
    let path = res.attr_trim("request_path"@);
    let path_s = match path { Some(p) => p, None => seq![] };
    let show_path = hc_type != "tcp"@ && path is Some;
    let notes0 = Seq::<Seq<char>>::empty();
    let notes1 = notes0.push("Azure LB Probe ("@ + protocol + ") → health_check_* properties on upcloud_loadbalancer_backend."@);
    let notes2 = notes1.push("Health check settings are automatically injected into the associated backend pool."@);
    let notes3 = if show_path { notes2.push("Health check path: "@ + path_s) } else { notes2 };
    result_model(res, MigrationStatus::Native, "properties block in upcloud_loadbalancer_backend"@, None, if props.len() == 0 { None } else { Some(props) }, None, notes3)
}

/// `azurerm_lb_probe` → health check properties for the backend that uses it (a snippet,
/// absent when the probe yields none).
pub fn map_lb_probe(res: &TerraformResource) -> (r: MigrationResult)
    ensures
        r@ == spec_map_lb_probe(*res),
{
    let protocol: String = string_of(&res.trimmed_or("protocol", "Tcp"));
    let hc_type: String = String::from_str(probe_hc_type(protocol.as_str()));
    let props: String = extract_probe_health_check_props_hcl(res.raw_hcl.as_str());
    let path: Option<String> = match res.get_trimmed("request_path") { Some(p) => Some(string_of(&p)), None => None };
    let path_s: String = match &path { Some(p) => string_of(&chars_of(p.as_str())), None => String::new() };
    let show_path: bool = !eq_str(&chars_of(hc_type.as_str()), "tcp") && path.is_some();
    let mut notes: Vec<String> = Vec::new();
    let mut n0 = String::new();
    push_str(&mut n0, "Azure LB Probe (");
    push_str(&mut n0, protocol.as_str());
    push_str(&mut n0, ") → health_check_* properties on upcloud_loadbalancer_backend.");
    push_note(&mut notes, n0);
    let mut n1 = String::new();
    push_str(&mut n1, "Health check settings are automatically injected into the associated backend pool.");
    push_note(&mut notes, n1);
    if show_path {
        let mut n2 = String::new();
        push_str(&mut n2, "Health check path: ");
        push_str(&mut n2, path_s.as_str());
        push_note(&mut notes, n2);
    }
    new_result(res, MigrationStatus::Native, "properties block in upcloud_loadbalancer_backend", None, if chars_of(props.as_str()).len() == 0 { None } else { Some(props) }, None, notes)
}

} // verus!
