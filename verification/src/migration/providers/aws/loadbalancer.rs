//! AWS load balancing: load balancers, target groups, listeners, certificates.
use vstd::prelude::*;

use crate::migration::types::{
    cat3, cat5, new_result, note, push_note, result_model, MigrationResult, MigrationStatus,
    ResultModel,
};
use crate::terraform::types::TerraformResource;
use crate::text::{
    chars_of, dec, eq_str, parse_u32, parse_u32_v, push_str, push_u64, spec_to_uppercase,
    string_of, to_uppercase,
};

verus! {

pub open spec fn spec_aws_lb_hcl(name: Seq<char>, networks: Seq<char>) -> Seq<char> {
    "resource \"upcloud_loadbalancer\" \""@
        + name
        + "\" {\n  name              = \""@
        + name
        + "\"\n  plan              = \"production-small\"\n  zone              = \"__ZONE__\"\n  configured_status = \"started\"\n\n"@
        + networks
        + "\n\n  # Backends and frontends are separate resources\n}\n"@
}

/// The load balancer resource.
fn aws_lb_hcl(name: &str, networks: &str) -> (r: String)
    ensures
        r@ == spec_aws_lb_hcl(name@, networks@),
{
    let mut s = String::new();
    push_str(&mut s, "resource \"upcloud_loadbalancer\" \"");
    push_str(&mut s, name);
    push_str(&mut s, "\" {\n  name              = \"");
    push_str(&mut s, name);
    push_str(&mut s, "\"\n  plan              = \"production-small\"\n  zone              = \"__ZONE__\"\n  configured_status = \"started\"\n\n");
    push_str(&mut s, networks);
    push_str(&mut s, "\n\n  # Backends and frontends are separate resources\n}\n");
    s
}

pub open spec fn spec_aws_tg_hcl(name: Seq<char>, hc_lines: Seq<char>, port: Seq<char>) -> Seq<char> {
    "resource \"upcloud_loadbalancer_backend\" \""@
        + name
        + "\" {\n  loadbalancer = upcloud_loadbalancer.<TODO>.id\n  name         = \""@
        + name
        + "\"\n\n  properties {\n"@
        + hc_lines
        + "  }\n}\n\nresource \"upcloud_loadbalancer_static_backend_member\" \""@
        + name
        + "_member\" {\n  backend      = upcloud_loadbalancer_backend."@
        + name
        + ".id\n  name         = \""@
        + name
        + "-member\"\n  weight       = 100\n  max_sessions = 1000\n  enabled      = true\n  ip           = \"<TODO: server IP>\"\n  port         = "@
        + port
        + "\n}\n"@
}

/// The backend and its static member.
fn aws_tg_hcl(name: &str, hc_lines: &str, port: &str) -> (r: String)
    ensures
        r@ == spec_aws_tg_hcl(name@, hc_lines@, port@),
{
    let mut s = String::new();
    push_str(&mut s, "resource \"upcloud_loadbalancer_backend\" \"");
    push_str(&mut s, name);
    push_str(&mut s, "\" {\n  loadbalancer = upcloud_loadbalancer.<TODO>.id\n  name         = \"");
    push_str(&mut s, name);
    push_str(&mut s, "\"\n\n  properties {\n");
    push_str(&mut s, hc_lines);
    push_str(&mut s, "  }\n}\n\nresource \"upcloud_loadbalancer_static_backend_member\" \"");
    push_str(&mut s, name);
    push_str(&mut s, "_member\" {\n  backend      = upcloud_loadbalancer_backend.");
    push_str(&mut s, name);
    push_str(&mut s, ".id\n  name         = \"");
    push_str(&mut s, name);
    push_str(&mut s, "-member\"\n  weight       = 100\n  max_sessions = 1000\n  enabled      = true\n  ip           = \"<TODO: server IP>\"\n  port         = ");
    push_str(&mut s, port);
    push_str(&mut s, "\n}\n");
    s
}

pub open spec fn spec_aws_listener_hcl(name: Seq<char>, port: Seq<char>) -> Seq<char> {
    "resource \"upcloud_loadbalancer_frontend\" \""@
        + name
        + "\" {\n  loadbalancer         = upcloud_loadbalancer.<TODO>.id\n  name                 = \""@
        + name
        + "\"\n  mode                 = \"http\"\n  port                 = "@
        + port
        + "\n  default_backend_name = upcloud_loadbalancer_backend.<TODO>.name\n}\n"@
}

/// The frontend resource.
fn aws_listener_hcl(name: &str, port: &str) -> (r: String)
    ensures
        r@ == spec_aws_listener_hcl(name@, port@),
{
    let mut s = String::new();
    push_str(&mut s, "resource \"upcloud_loadbalancer_frontend\" \"");
    push_str(&mut s, name);
    push_str(&mut s, "\" {\n  loadbalancer         = upcloud_loadbalancer.<TODO>.id\n  name                 = \"");
    push_str(&mut s, name);
    push_str(&mut s, "\"\n  mode                 = \"http\"\n  port                 = ");
    push_str(&mut s, port);
    push_str(&mut s, "\n  default_backend_name = upcloud_loadbalancer_backend.<TODO>.name\n}\n");
    s
}

pub open spec fn spec_acm_hcl(name: Seq<char>) -> Seq<char> {
    "resource \"upcloud_loadbalancer_manual_certificate_bundle\" \""@
        + name
        + "\" {\n  name        = \""@
        + name
        + "\"\n  certificate = \"<TODO: base64 encoded certificate>\"\n  private_key = \"<TODO: base64 encoded private key>\"\n}\n"@
}

/// The certificate bundle resource.
fn acm_hcl(name: &str) -> (r: String)
    ensures
        r@ == spec_acm_hcl(name@),
{
    let mut s = String::new();
    push_str(&mut s, "resource \"upcloud_loadbalancer_manual_certificate_bundle\" \"");
    push_str(&mut s, name);
    push_str(&mut s, "\" {\n  name        = \"");
    push_str(&mut s, name);
    push_str(&mut s, "\"\n  certificate = \"<TODO: base64 encoded certificate>\"\n  private_key = \"<TODO: base64 encoded private key>\"\n}\n");
    s
}


pub open spec fn lb_networks(internal: bool) -> Seq<char> {
    if internal {
        "  networks {\n    name    = \"private\"\n    type    = \"private\"\n    family  = \"IPv4\"\n    network = \"<TODO: upcloud_network reference>\"\n  }"@
    } else {
        "  networks {\n    name   = \"public\"\n    type   = \"public\"\n    family = \"IPv4\"\n  }"@
    }
}

pub open spec fn spec_map_lb(res: TerraformResource) -> ResultModel {
    let lb_type = res.attr_trim_or("load_balancer_type"@, "application"@);
    let internal = match res.attr_trim("internal"@) {
        Some(v) => v == "true"@,
        None => false,
    };
    let n0 = seq!["ALB/NLB ("@ + lb_type + ") → UpCloud Load Balancer"@, "Backends and frontends are defined as separate Terraform resources"@];
    let notes = if internal {
        n0.push("Internal LB: private network reference will be auto-resolved if a subnet exists."@)
    } else {
        n0
    };
    result_model(res, MigrationStatus::Compatible, "upcloud_loadbalancer"@, Some(spec_aws_lb_hcl(res.name@, lb_networks(internal))), None, None, notes)
}

/// `aws_lb` → `upcloud_loadbalancer` on the public network, or on a private one when
/// `internal = true`.
pub fn map_lb(res: &TerraformResource) -> (r: MigrationResult)
    ensures
        r@ == spec_map_lb(*res),
{
    let lb_type = string_of(&res.trimmed_or("load_balancer_type", "application"));
    let internal = match res.get_trimmed("internal") {
        Some(v) => eq_str(&v, "true"),
        None => false,
    };
    let networks: &str = if internal {
        "  networks {\n    name    = \"private\"\n    type    = \"private\"\n    family  = \"IPv4\"\n    network = \"<TODO: upcloud_network reference>\"\n  }"
    } else {
        "  networks {\n    name   = \"public\"\n    type   = \"public\"\n    family = \"IPv4\"\n  }"
    };
    let hcl = aws_lb_hcl(res.name.as_str(), networks);
    let mut notes = note(cat3("ALB/NLB (", lb_type.as_str(), ") → UpCloud Load Balancer").as_str());
    push_note(&mut notes, String::from_str("Backends and frontends are defined as separate Terraform resources"));
    if internal {
        push_note(&mut notes, String::from_str("Internal LB: private network reference will be auto-resolved if a subnet exists."));
    }
    new_result(res, MigrationStatus::Compatible, "upcloud_loadbalancer", Some(hcl), None, None, notes)
}

/// A `u32` attribute (quotes trimmed), if it parses.
pub open spec fn attr_u32(res: TerraformResource, key: Seq<char>) -> Option<u32> {
    match res.attr_trim(key) {
        Some(v) => parse_u32(v),
        None => None,
    }
}

fn attr_u32_exec(res: &TerraformResource, key: &str) -> (r: Option<u32>)
    ensures
        r == attr_u32(*res, key@),
{
    match res.get_trimmed(key) {
        Some(v) => parse_u32_v(&v),
        None => None,
    }
}

pub open spec fn opt_num_line(label: Seq<char>, v: Option<u32>) -> Seq<char> {
    match v {
        Some(n) => label + dec(n as nat) + "\n"@,
        None => seq![],
    }
}

fn push_opt_num_line(s: &mut String, label: &str, v: Option<u32>)
    ensures
        final(s)@ == old(s)@ + opt_num_line(label@, v),
{
    match v {
        Some(n) => {
            push_str(s, label);
            push_u64(s, n as u64);
            push_str(s, "\n");
        },
        None => {},
    }
}

/// The health check lines of a target group.
pub open spec fn tg_hc_lines(res: TerraformResource) -> Seq<char> {
    let protocol = res.attr_trim_or("protocol"@, "HTTP"@);
    let up = spec_to_uppercase(protocol);
    let hc_type = if up == "HTTP"@ || up == "HTTPS"@ { "http"@ } else { "tcp"@ };
    "    health_check_type   = \""@ + hc_type + "\"\n"@
        + match res.attr_trim("health_check.path"@) {
        Some(u) => "    health_check_url    = \""@ + u + "\"\n"@,
        None => seq![],
    } + opt_num_line("    health_check_expected_status = "@, attr_u32(res, "health_check.matcher"@))
        + opt_num_line("    health_check_rise   = "@, attr_u32(res, "health_check.healthy_threshold"@))
        + opt_num_line("    health_check_fall   = "@, attr_u32(res, "health_check.unhealthy_threshold"@))
        + opt_num_line("    health_check_interval = "@, attr_u32(res, "health_check.interval"@))
}

fn tg_hc_lines_exec(res: &TerraformResource, protocol: &str) -> (r: String)
    requires
        protocol@ == res.attr_trim_or("protocol"@, "HTTP"@),
    ensures
        r@ == tg_hc_lines(*res),
{
    let up = chars_of(to_uppercase(protocol).as_str());
    let hc_type: &str = if eq_str(&up, "HTTP") || eq_str(&up, "HTTPS") { "http" } else { "tcp" };
    let mut s = cat3("    health_check_type   = \"", hc_type, "\"\n");
    match res.get_trimmed("health_check.path") {
        Some(u) => {
            push_str(&mut s, "    health_check_url    = \"");
            push_str(&mut s, string_of(&u).as_str());
            push_str(&mut s, "\"\n");
        },
        None => {},
    }
    push_opt_num_line(&mut s, "    health_check_expected_status = ", attr_u32_exec(res, "health_check.matcher"));
    push_opt_num_line(&mut s, "    health_check_rise   = ", attr_u32_exec(res, "health_check.healthy_threshold"));
    push_opt_num_line(&mut s, "    health_check_fall   = ", attr_u32_exec(res, "health_check.unhealthy_threshold"));
    push_opt_num_line(&mut s, "    health_check_interval = ", attr_u32_exec(res, "health_check.interval"));
    s
}

pub open spec fn spec_map_lb_target_group(res: TerraformResource) -> ResultModel {
    let protocol = res.attr_trim_or("protocol"@, "HTTP"@);
    let port = res.attr_trim_or("port"@, "80"@);
    let n0 = seq!["Target group ("@ + protocol + "/"@ + port + ") → UpCloud LB Backend + static_backend_member"@];
    let notes = if res.attr_trim("health_check.path"@) is Some || attr_u32(res, "health_check.matcher"@) is Some {
        n0.push("Health check settings mapped from aws_lb_target_group health_check block."@)
    } else {
        n0
    };
    result_model(res, MigrationStatus::Compatible, "upcloud_loadbalancer_backend"@, Some(spec_aws_tg_hcl(res.name@, tg_hc_lines(res), port)), None, None, notes)
}

/// `aws_lb_target_group` → a load balancer backend with its health check and a
/// static member to point at the server.
pub fn map_lb_target_group(res: &TerraformResource) -> (r: MigrationResult)
    ensures
        r@ == spec_map_lb_target_group(*res),
{
    let protocol = string_of(&res.trimmed_or("protocol", "HTTP"));
    let port = string_of(&res.trimmed_or("port", "80"));
    let hc = tg_hc_lines_exec(res, protocol.as_str());
    let hcl = aws_tg_hcl(res.name.as_str(), hc.as_str(), port.as_str());
    let mut n0 = cat5("Target group (", protocol.as_str(), "/", port.as_str(), ") → UpCloud LB Backend + static_backend_member");
    let mut notes: Vec<String> = Vec::new();
    push_note(&mut notes, n0);
    if res.get_trimmed("health_check.path").is_some() || attr_u32_exec(res, "health_check.matcher").is_some() {
        push_note(&mut notes, String::from_str("Health check settings mapped from aws_lb_target_group health_check block."));
    }
    new_result(res, MigrationStatus::Compatible, "upcloud_loadbalancer_backend", Some(hcl), None, None, notes)
}

pub open spec fn spec_map_lb_listener(res: TerraformResource) -> ResultModel {
    let protocol = res.attr_trim_or("protocol"@, "HTTP"@);
    let port = res.attr_trim_or("port"@, "80"@);
    result_model(
        res,
        MigrationStatus::Compatible,
        "upcloud_loadbalancer_frontend"@,
        Some(spec_aws_listener_hcl(res.name@, port)),
        None,
        None,
        seq!["Listener ("@ + protocol + "/"@ + port + ") → UpCloud LB Frontend"@],
    )
}

/// `aws_lb_listener` → an HTTP-mode load balancer frontend.
pub fn map_lb_listener(res: &TerraformResource) -> (r: MigrationResult)
    ensures
        r@ == spec_map_lb_listener(*res),
{
    let protocol = string_of(&res.trimmed_or("protocol", "HTTP"));
    let port = string_of(&res.trimmed_or("port", "80"));
    let hcl = aws_listener_hcl(res.name.as_str(), port.as_str());
    let notes = note(cat5("Listener (", protocol.as_str(), "/", port.as_str(), ") → UpCloud LB Frontend").as_str());
    new_result(res, MigrationStatus::Compatible, "upcloud_loadbalancer_frontend", Some(hcl), None, None, notes)
}

pub open spec fn spec_map_acm_certificate(res: TerraformResource) -> ResultModel {
    result_model(
        res,
        MigrationStatus::Partial,
        "upcloud_loadbalancer_manual_certificate_bundle"@,
        Some(spec_acm_hcl(res.name@)),
        None,
        None,
        seq!["ACM → UpCloud manual cert bundle. Export cert/key from ACM first."@, "No automatic certificate provisioning equivalent."@],
    )
}

/// `aws_acm_certificate` → a manual certificate bundle to fill in.
pub fn map_acm_certificate(res: &TerraformResource) -> (r: MigrationResult)
    ensures
        r@ == spec_map_acm_certificate(*res),
{
    let hcl = acm_hcl(res.name.as_str());
    let mut notes = note("ACM → UpCloud manual cert bundle. Export cert/key from ACM first.");
    push_note(&mut notes, String::from_str("No automatic certificate provisioning equivalent."));
    new_result(res, MigrationStatus::Partial, "upcloud_loadbalancer_manual_certificate_bundle", Some(hcl), None, None, notes)
}

} // verus!
