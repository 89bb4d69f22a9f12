//! AWS networking: interfaces, security group rules, elastic IP associations, gateways
//! and route tables.
use vstd::prelude::*;

use crate::migration::providers::hcl_blocks::{hcl_inner_blocks, inner_view, parse_inner_blocks};
use crate::migration::providers::shared::{
    build_firewall_rule, firewall_rule_blocks, fw_rules_view, spec_build_firewall_rule,
    spec_firewall_rule_blocks, spec_upcloud_firewall_rules_hcl, upcloud_firewall_rules_hcl,
};
use crate::terraform::types::{attr_view, lookup_upto};
use crate::migration::types::{
    cat2, cat3, cat5, new_result, note, opt_view, push_note, result_model, MigrationResult,
    MigrationStatus, ResultModel,
};
use crate::terraform::types::TerraformResource;
use crate::text::{
    before_char, before_char_v, chars_of, contains, contains_str, dec, eq_str, push_u64, find, find_char_from, lines, lines_v,
    parse_i32, parse_i32_v, push_str, push_vec, slice_of, starts_with, starts_with_exec,
    string_of, trim, trim_char, trim_char_v, trim_v, views,
};

verus! {

/// The name after `prefix` (which ends with its only `.`) up to the next `.`, when the
/// value (quotes trimmed) starts with `prefix`.
pub open spec fn seg_after(v: Seq<char>, prefix: Seq<char>) -> Option<Seq<char>> {
    let t = trim_char(v, '"');
    if starts_with(t, prefix) {
        Some(before_char(t.skip(prefix.len() as int), '.'))
    } else {
        None
    }
}

pub open spec fn attr_seg(res: TerraformResource, key: Seq<char>, prefix: Seq<char>) -> Option<Seq<char>> {
    match res.attr(key) {
        Some(v) => seg_after(v, prefix),
        None => None,
    }
}

fn attr_seg_exec(res: &TerraformResource, key: &str, prefix: &str) -> (r: Option<String>)
    ensures
        opt_view(r) == attr_seg(*res, key@, prefix@),
{
    match res.get_attr(key) {
        Some(v) => {
            let t = trim_char_v(&v, '"');
            if starts_with_exec(&t, prefix) {
                let pl = chars_of(prefix).len();
                let n = t.len();
                let rest = slice_of(&t, pl, n);
                assert(rest@ =~= t@.skip(prefix@.len() as int));
                Some(string_of(&before_char_v(&rest, '.')))
            } else {
                None
            }
        },
        None => None,
    }
}

pub open spec fn is_qb(c: char) -> bool {
    c == '"' || c == '[' || c == ']'
}

pub open spec fn trim_qb_start(s: Seq<char>) -> Seq<char>
    decreases s.len(),
{
    if s.len() > 0 && is_qb(s[0]) {
        trim_qb_start(s.drop_first())
    } else {
        s
    }
}

pub open spec fn trim_qb_end(s: Seq<char>) -> Seq<char>
    decreases s.len(),
{
    if s.len() > 0 && is_qb(s.last()) {
        trim_qb_end(s.drop_last())
    } else {
        s
    }
}

pub fn trim_qb_exec(v: &Vec<char>) -> (r: Vec<char>)
    ensures
        r@ == trim_qb_end(trim_qb_start(v@)),
{
    let n = v.len();
    let mut i: usize = 0;
    assert(v@.skip(0) =~= v@);
    while i < n && (v[i] == '"' || v[i] == '[' || v[i] == ']')
        invariant
            n == v@.len(),
            i <= n,
            trim_qb_start(v@) == trim_qb_start(v@.skip(i as int)),
        decreases n - i,
    {
        assert(v@.skip(i as int).drop_first() =~= v@.skip(i + 1));
        i += 1;
    }
    assert(i < n ==> v@.skip(i as int)[0] == v@[i as int]);
    let mut j: usize = n;
    assert(v@.subrange(i as int, j as int) =~= v@.skip(i as int));
    while j > i && (v[j - 1] == '"' || v[j - 1] == '[' || v[j - 1] == ']')
        invariant
            n == v@.len(),
            i <= j <= n,
            trim_qb_end(v@.skip(i as int)) == trim_qb_end(v@.subrange(i as int, j as int)),
        decreases j,
    {
        assert(v@.subrange(i as int, j as int).drop_last() =~= v@.subrange(i as int, j - 1));
        j -= 1;
    }
    assert(j > i ==> v@.subrange(i as int, j as int).last() == v@[j - 1]);
    slice_of(v, i, j)
}

/// The `ip_address` line for the first private IP, when it is a literal.
pub open spec fn ip_line(v: Option<Seq<char>>) -> Seq<char> {
    match v {
        Some(x) => {
            let first = trim_char(trim(before_char(trim_qb_end(trim_qb_start(x)), ',')), '"');
            if first.len() == 0 || first[0] == '<' {
                seq![]
            } else {
                "    ip_address = \""@ + first + "\"\n"@
            }
        },
        None => seq![],
    }
}

pub open spec fn spec_map_network_interface(res: TerraformResource) -> ResultModel {
    let subnet = attr_seg(res, "subnet_id"@, "aws_subnet."@);
    let network_ref = match subnet {
        Some(n) => "upcloud_network."@ + n + ".id"@,
        None => "\"<TODO: upcloud_network UUID>\""@,
    };
    let ips = match res.attr("private_ips"@) {
        Some(v) => Some(v),
        None => res.attr("private_ip"@),
    };
    let snippet = "# Add to resource \"upcloud_server\" \"<TODO: server_name>\" {\n  network_interface {\n    type    = \"private\"\n    network = "@
        + network_ref + "\n"@ + ip_line(ips) + "  }\n}"@;
    result_model(
        res,
        MigrationStatus::Partial,
        "network_interface block in upcloud_server"@,
        None,
        Some(snippet),
        subnet,
        seq![
            "UpCloud has no standalone ENI resource — network interfaces are blocks within upcloud_server."@,
            "Add this network_interface block to the relevant upcloud_server resource."@,
        ],
    )
}

/// `aws_network_interface` → a private `network_interface` block for a server.
pub fn map_network_interface(res: &TerraformResource) -> (r: MigrationResult)
    ensures
        r@ == spec_map_network_interface(*res),
{
    let subnet = attr_seg_exec(res, "subnet_id", "aws_subnet.");
    let network_ref = match &subnet {
        Some(n) => cat3("upcloud_network.", n.as_str(), ".id"),
        None => String::from_str("\"<TODO: upcloud_network UUID>\""),
    };
    let ips = match res.get_attr("private_ips") {
        Some(v) => Some(v),
        None => res.get_attr("private_ip"),
    };
    let ip = match &ips {
        Some(x) => {
            let first = trim_char_v(&trim_v(&before_char_v(&trim_qb_exec(x), ',')), '"');
            if first.len() == 0 || first[0] == '<' {
                String::new()
            } else {
                cat3("    ip_address = \"", string_of(&first).as_str(), "\"\n")
            }
        },
        None => String::new(),
    };
    let mut snippet = String::from_str("# Add to resource \"upcloud_server\" \"<TODO: server_name>\" {\n  network_interface {\n    type    = \"private\"\n    network = ");
    push_str(&mut snippet, network_ref.as_str());
    push_str(&mut snippet, "\n");
    push_str(&mut snippet, ip.as_str());
    push_str(&mut snippet, "  }\n}");
    let mut notes = note("UpCloud has no standalone ENI resource — network interfaces are blocks within upcloud_server.");
    push_note(&mut notes, String::from_str("Add this network_interface block to the relevant upcloud_server resource."));
    new_result(res, MigrationStatus::Partial, "network_interface block in upcloud_server", None, Some(snippet), subnet, notes)
}

pub open spec fn attr_i32_or(res: TerraformResource, key: Seq<char>, d: i32) -> i32 {
    match res.attr_trim(key) {
        Some(v) => match parse_i32(v) {
            Some(n) => n,
            None => d,
        },
        None => d,
    }
}

fn attr_i32_or_exec(res: &TerraformResource, key: &str, d: i32) -> (r: i32)
    ensures
        r == attr_i32_or(*res, key@, d),
{
    match res.get_trimmed(key) {
        Some(v) => match parse_i32_v(&v) {
            Some(n) => n,
            None => d,
        },
        None => d,
    }
}

/// A standalone security group rule as a `firewall_rule` block for its group.
pub open spec fn spec_map_sg_rule(res: TerraformResource, direction: Seq<char>) -> ResultModel {
    let sg = attr_seg(res, "security_group_id"@, "aws_security_group."@);
    let protocol = res.attr_trim_or("ip_protocol"@, "-1"@);
    let all = protocol == "-1"@ || protocol == "all"@;
    let rule = spec_build_firewall_rule(
        direction,
        attr_i32_or(res, "from_port"@, 0),
        attr_i32_or(res, "to_port"@, 65535),
        protocol,
        match res.attr_trim("description"@) {
            Some(d) => Some(d),
            None => None,
        },
        all,
    );
    let target = match sg {
        Some(n) => "\"upcloud_firewall_rules\" \""@ + n + "\""@,
        None => "\"upcloud_firewall_rules\" \"<TODO: sg_name>\""@,
    };
    let kind = if direction == "in"@ { "ingress"@ } else { "egress"@ };
    result_model(
        res,
        MigrationStatus::Partial,
        "firewall_rule block in upcloud_firewall_rules"@,
        None,
        Some("# Add to resource "@ + target + " {\n"@ + rule + "\n}"@),
        sg,
        seq![
            "Standalone "@ + kind + " rule → add firewall_rule block to the parent upcloud_firewall_rules resource."@,
            "server_id auto-resolved from vpc_security_group_ids on the instance."@,
        ],
    )
}

fn map_sg_standalone_rule(res: &TerraformResource, direction: &str) -> (r: MigrationResult)
    ensures
        r@ == spec_map_sg_rule(*res, direction@),
{
    let sg = attr_seg_exec(res, "security_group_id", "aws_security_group.");
    let from_port = attr_i32_or_exec(res, "from_port", 0);
    let to_port = attr_i32_or_exec(res, "to_port", 65535);
    let protocol = res.trimmed_or("ip_protocol", "-1");
    let all = eq_str(&protocol, "-1") || eq_str(&protocol, "all");
    let desc = match res.get_trimmed("description") {
        Some(d) => Some(string_of(&d)),
        None => None,
    };
    let ps = string_of(&protocol);
    let rule = match &desc {
        Some(d) => build_firewall_rule(direction, from_port, to_port, ps.as_str(), Some(d.as_str()), all),
        None => build_firewall_rule(direction, from_port, to_port, ps.as_str(), None, all),
    };
    let target = match &sg {
        Some(n) => cat3("\"upcloud_firewall_rules\" \"", n.as_str(), "\""),
        None => String::from_str("\"upcloud_firewall_rules\" \"<TODO: sg_name>\""),
    };
    let snippet = cat5("# Add to resource ", target.as_str(), " {\n", rule.as_str(), "\n}");
    let kind: &str = if eq_str(&chars_of(direction), "in") { "ingress" } else { "egress" };
    let mut notes = note(cat3("Standalone ", kind, " rule → add firewall_rule block to the parent upcloud_firewall_rules resource.").as_str());
    push_note(&mut notes, String::from_str("server_id auto-resolved from vpc_security_group_ids on the instance."));
    new_result(res, MigrationStatus::Partial, "firewall_rule block in upcloud_firewall_rules", None, Some(snippet), sg, notes)
}

/// `aws_vpc_security_group_ingress_rule` → an inbound `firewall_rule` block.
pub fn map_sg_ingress_rule(res: &TerraformResource) -> (r: MigrationResult)
    ensures
        r@ == spec_map_sg_rule(*res, "in"@),
{
    map_sg_standalone_rule(res, "in")
}

/// `aws_vpc_security_group_egress_rule` → an outbound `firewall_rule` block.
pub fn map_sg_egress_rule(res: &TerraformResource) -> (r: MigrationResult)
    ensures
        r@ == spec_map_sg_rule(*res, "out"@),
{
    map_sg_standalone_rule(res, "out")
}

pub open spec fn spec_map_eip_association(res: TerraformResource) -> ResultModel {
    let eip = attr_seg(res, "allocation_id"@, "aws_eip."@);
    let inst = attr_seg(res, "instance_id"@, "aws_instance."@);
    let snippet = match (eip, inst) {
        (Some(e), Some(i)) => "# In resource \"upcloud_floating_ip_address\" \""@ + e + "\" add:\nmac_address = upcloud_server."@ + i + ".network_interface[0].mac_address"@,
        (Some(e), None) => "# In resource \"upcloud_floating_ip_address\" \""@ + e + "\" add:\nmac_address = upcloud_server.<TODO>.network_interface[0].mac_address"@,
        _ => "# Set mac_address on the upcloud_floating_ip_address to attach it:\nmac_address = upcloud_server.<TODO>.network_interface[0].mac_address"@,
    };
    result_model(
        res,
        MigrationStatus::Partial,
        "mac_address on upcloud_floating_ip_address"@,
        None,
        Some(snippet),
        eip,
        seq![
            "EIP associations → set mac_address on upcloud_floating_ip_address to attach to a server."@,
            "mac_address references the server's network_interface[0].mac_address output."@,
        ],
    )
}

/// `aws_eip_association` → a `mac_address` for the floating IP.
pub fn map_eip_association(res: &TerraformResource) -> (r: MigrationResult)
    ensures
        r@ == spec_map_eip_association(*res),
{
    let eip = attr_seg_exec(res, "allocation_id", "aws_eip.");
    let inst = attr_seg_exec(res, "instance_id", "aws_instance.");
    let snippet = match (&eip, &inst) {
        (Some(e), Some(i)) => {
            let mut s = cat3("# In resource \"upcloud_floating_ip_address\" \"", e.as_str(), "\" add:\nmac_address = upcloud_server.");
            push_str(&mut s, i.as_str());
            push_str(&mut s, ".network_interface[0].mac_address");
            s
        },
        (Some(e), None) => cat3("# In resource \"upcloud_floating_ip_address\" \"", e.as_str(), "\" add:\nmac_address = upcloud_server.<TODO>.network_interface[0].mac_address"),
        _ => String::from_str("# Set mac_address on the upcloud_floating_ip_address to attach it:\nmac_address = upcloud_server.<TODO>.network_interface[0].mac_address"),
    };
    let mut notes = note("EIP associations → set mac_address on upcloud_floating_ip_address to attach to a server.");
    push_note(&mut notes, String::from_str("mac_address references the server's network_interface[0].mac_address output."));
    new_result(res, MigrationStatus::Partial, "mac_address on upcloud_floating_ip_address", None, Some(snippet), eip, notes)
}

pub open spec fn spec_map_nat_gateway(res: TerraformResource) -> ResultModel {
    result_model(
        res,
        MigrationStatus::Partial,
        "upcloud_router (built-in NAT)"@,
        None,
        None,
        None,
        seq![
            "UpCloud Router provides NAT automatically — no explicit NAT gateway resource is needed."@,
            "Remove this resource; ensure your upcloud_network has a router attached."@,
        ],
    )
}

/// `aws_nat_gateway`: the router does NAT; nothing to create.
pub fn map_nat_gateway(res: &TerraformResource) -> (r: MigrationResult)
    ensures
        r@ == spec_map_nat_gateway(*res),
{
    let mut notes = note("UpCloud Router provides NAT automatically — no explicit NAT gateway resource is needed.");
    push_note(&mut notes, String::from_str("Remove this resource; ensure your upcloud_network has a router attached."));
    new_result(res, MigrationStatus::Partial, "upcloud_router (built-in NAT)", None, None, None, notes)
}

pub open spec fn spec_map_internet_gateway(res: TerraformResource) -> ResultModel {
    result_model(
        res,
        MigrationStatus::Partial,
        "upcloud_router (default route)"@,
        None,
        None,
        None,
        seq!["UpCloud Router handles default routes automatically. No explicit IGW resource is needed."@],
    )
}

/// `aws_internet_gateway`: the router routes to the internet; nothing to create.
pub fn map_internet_gateway(res: &TerraformResource) -> (r: MigrationResult)
    ensures
        r@ == spec_map_internet_gateway(*res),
{
    new_result(
        res,
        MigrationStatus::Partial,
        "upcloud_router (default route)",
        None,
        None,
        None,
        note("UpCloud Router handles default routes automatically. No explicit IGW resource is needed."),
    )
}

/// The text between the first and second `"` of a line (empty when there is none).
pub open spec fn quoted_value(t: Seq<char>) -> Seq<char> {
    match find(t, seq!['"']) {
        Some(i) => before_char(t.skip(i + 1), '"'),
        None => seq![],
    }
}

/// A `cidr_block` line with a route other than the default one.
pub open spec fn is_custom_route_line(l: Seq<char>) -> bool {
    let t = trim(l);
    let v = quoted_value(t);
    starts_with(t, "cidr_block"@) && v.len() > 0 && v != "0.0.0.0/0"@ && v[0] != ':'
}

pub open spec fn any_custom_route(ls: Seq<Seq<char>>) -> bool
    decreases ls.len(),
{
    if ls.len() == 0 {
        false
    } else {
        is_custom_route_line(ls.last()) || any_custom_route(ls.drop_last())
    }
}

fn is_custom_route_line_exec(l: &Vec<char>) -> (r: bool)
    ensures
        r == is_custom_route_line(l@),
{
    let t = trim_v(l);
    let n = t.len();
    let v = match find_char_from(&t, '"', 0) {
        Some(i) => {
            assert(t@.skip(0) =~= t@);
            let rest = slice_of(&t, i + 1, n);
            assert(rest@ =~= t@.skip(i + 1));
            before_char_v(&rest, '"')
        },
        None => {
            assert(t@.skip(0) =~= t@);
            Vec::new()
        },
    };
    starts_with_exec(&t, "cidr_block") && v.len() > 0 && !eq_str(&v, "0.0.0.0/0") && v[0] != ':'
}

pub open spec fn spec_map_route_table(res: TerraformResource) -> ResultModel {
    if res.raw_hcl@.len() > 0 && any_custom_route(lines(res.raw_hcl@)) {
        result_model(
            res,
            MigrationStatus::Partial,
            "upcloud_router static_route"@,
            None,
            Some("static_route {\n  name    = \""@ + res.name@ + "\"\n  nexthop = \"<TODO: nexthop IP address>\"\n  route   = \"<TODO: custom CIDR from aws_route_table>\"\n}"@),
            None,
            seq![
                "Route table has custom routes → static_route block needed inside upcloud_router."@,
                "Add the snippet to your upcloud_router resource and fill in the nexthop IP and CIDR."@,
            ],
        )
    } else {
        result_model(
            res,
            MigrationStatus::Partial,
            "upcloud_router (automatic routing)"@,
            None,
            None,
            None,
            seq![
                "Route table only contains default routes (0.0.0.0/0)."@,
                "UpCloud Router provides internet routing and NAT automatically — no action required."@,
            ],
        )
    }
}

/// `aws_route_table`: a `static_route` block for the router when the table has a
/// custom route; otherwise nothing to do.
pub fn map_route_table(res: &TerraformResource) -> (r: MigrationResult)
    ensures
        r@ == spec_map_route_table(*res),
{
    let raw = chars_of(res.raw_hcl.as_str());
    let ls = lines_v(&raw);
    let mut any = false;
    let mut i: usize = 0;
    assert(views(ls@).take(0) =~= Seq::<Seq<char>>::empty());
    while i < ls.len()
        invariant
            i <= ls@.len(),
            views(ls@) == lines(raw@),
            any == any_custom_route(views(ls@).take(i as int)),
        decreases ls@.len() - i,
    {
        assert(views(ls@).take(i + 1).drop_last() =~= views(ls@).take(i as int));
        assert(views(ls@).take(i + 1).last() == ls@[i as int]@);
        any = is_custom_route_line_exec(&ls[i]) || any;
        i += 1;
    }
    assert(views(ls@).take(i as int) =~= views(ls@));
    if raw.len() > 0 && any {
        let snippet = cat3("static_route {\n  name    = \"", res.name.as_str(), "\"\n  nexthop = \"<TODO: nexthop IP address>\"\n  route   = \"<TODO: custom CIDR from aws_route_table>\"\n}");
        let mut notes = note("Route table has custom routes → static_route block needed inside upcloud_router.");
        push_note(&mut notes, String::from_str("Add the snippet to your upcloud_router resource and fill in the nexthop IP and CIDR."));
        new_result(res, MigrationStatus::Partial, "upcloud_router static_route", None, Some(snippet), None, notes)
    } else {
        let mut notes = note("Route table only contains default routes (0.0.0.0/0).");
        push_note(&mut notes, String::from_str("UpCloud Router provides internet routing and NAT automatically — no action required."));
        new_result(res, MigrationStatus::Partial, "upcloud_router (automatic routing)", None, None, None, notes)
    }
}

pub open spec fn spec_map_vpc(res: TerraformResource) -> ResultModel {
    let notes0 = Seq::<Seq<char>>::empty();
    let notes1 = notes0.push("AWS VPC → UpCloud Router. Each subnet becomes a separate upcloud_network attached to this router."@);
    result_model(res, MigrationStatus::Compatible, "upcloud_router"@, Some("resource \"upcloud_router\" \""@ + res.name@ + "_router\" {\n  name = \""@ + res.name@ + "-router\"\n}\n"@), None, None, notes1)
}

/// `aws_vpc` → `upcloud_router` (`NAME_router`); each subnet becomes its own network.
pub fn map_vpc(res: &TerraformResource) -> (r: MigrationResult)
    ensures
        r@ == spec_map_vpc(*res),
{
    let mut hcl = String::new();
    push_str(&mut hcl, "resource \"upcloud_router\" \"");
    push_str(&mut hcl, res.name.as_str());
    push_str(&mut hcl, "_router\" {\n  name = \"");
    push_str(&mut hcl, res.name.as_str());
    push_str(&mut hcl, "-router\"\n}\n");
    let mut notes: Vec<String> = Vec::new();
    let mut n0 = String::new();
    push_str(&mut n0, "AWS VPC → UpCloud Router. Each subnet becomes a separate upcloud_network attached to this router.");
    push_note(&mut notes, n0);
    new_result(res, MigrationStatus::Compatible, "upcloud_router", Some(hcl), None, None, notes)
}

pub open spec fn spec_map_subnet(res: TerraformResource) -> ResultModel {
    let cidr = res.attr_trim_or("cidr_block"@, "10.0.1.0/24"@);
    let vpc_name = attr_seg(res, "vpc_id"@, "aws_vpc."@);
    let router_ref = match vpc_name { Some(n) => "upcloud_router."@ + n + "_router.id"@, None => "\"<TODO: router id>\""@ };
    let count_attr = res.attr_trim("count"@);
    let count_line = match count_attr { Some(n) => "  count = "@ + n + "\n"@, None => seq![] };
    let count_s = match count_attr { Some(n) => n, None => seq![] };
    let name_val = match count_attr { Some(_) => res.name@ + "-${count.index + 1}"@, None => res.name@ };
    let is_public = res.attr_trim("map_public_ip_on_launch"@) == Some("true"@);
    let notes0 = Seq::<Seq<char>>::empty();
    let notes1 = notes0.push("AWS Subnet → upcloud_network (private SDN; public internet via server network_interface type=public)."@);
    let notes2 = notes1.push("lifecycle { ignore_changes = [router] } added — UpCloud Kubernetes Service attaches a router automatically."@);
    let notes3 = if is_public { notes2.push("map_public_ip_on_launch ignored — public access is via server network_interface type=public."@) } else { notes2 };
    let notes4 = if count_attr is Some { notes3.push("count = "@ + count_s + " propagated."@) } else { notes3 };
    result_model(res, MigrationStatus::Compatible, "upcloud_network"@, Some("resource \"upcloud_network\" \""@ + res.name@ + "\" {\n"@ + count_line + "  name = \""@ + name_val + "\"\n  zone = \"__ZONE__\"\n\n  ip_network {\n    address            = \""@ + cidr + "\"\n    dhcp               = true\n    dhcp_default_route = false\n    family             = \"IPv4\"\n  }\n\n  router = "@ + router_ref + "\n\n  # UpCloud Kubernetes Service will attach a router automatically.\n  # Ignore router changes to avoid detaching it on subsequent applies.\n  lifecycle {\n    ignore_changes = [router]\n  }\n}\n"@), None, vpc_name, notes4)
}

/// `aws_subnet` → `upcloud_network` with the subnet's CIDR, attached to its VPC's router;
/// `count` is carried over (and then numbers the network names).
pub fn map_subnet(res: &TerraformResource) -> (r: MigrationResult)
    ensures
        r@ == spec_map_subnet(*res),
{
    let cidr: String = string_of(&res.trimmed_or("cidr_block", "10.0.1.0/24"));
    let vpc_name: Option<String> = attr_seg_exec(res, "vpc_id", "aws_vpc.");
    let router_ref: String = match &vpc_name { Some(n) => cat3("upcloud_router.", n.as_str(), "_router.id"), None => String::from_str("\"<TODO: router id>\"") };
    let count_attr: Option<String> = match res.get_trimmed("count") { Some(c) => Some(string_of(&c)), None => None };
    let count_line: String = match &count_attr { Some(n) => cat3("  count = ", n.as_str(), "\n"), None => String::new() };
    let count_s: String = match &count_attr { Some(n) => string_of(&chars_of(n.as_str())), None => String::new() };
    let name_val: String = match &count_attr { Some(_) => cat2(res.name.as_str(), "-${count.index + 1}"), None => string_of(&chars_of(res.name.as_str())) };
    let is_public: bool = match res.get_trimmed("map_public_ip_on_launch") { Some(v) => eq_str(&v, "true"), None => false };
    let mut hcl = String::new();
    push_str(&mut hcl, "resource \"upcloud_network\" \"");
    push_str(&mut hcl, res.name.as_str());
    push_str(&mut hcl, "\" {\n");
    push_str(&mut hcl, count_line.as_str());
    push_str(&mut hcl, "  name = \"");
    push_str(&mut hcl, name_val.as_str());
    push_str(&mut hcl, "\"\n  zone = \"__ZONE__\"\n\n  ip_network {\n    address            = \"");
    push_str(&mut hcl, cidr.as_str());
    push_str(&mut hcl, "\"\n    dhcp               = true\n    dhcp_default_route = false\n    family             = \"IPv4\"\n  }\n\n  router = ");
    push_str(&mut hcl, router_ref.as_str());
    push_str(&mut hcl, "\n\n  # UpCloud Kubernetes Service will attach a router automatically.\n  # Ignore router changes to avoid detaching it on subsequent applies.\n  lifecycle {\n    ignore_changes = [router]\n  }\n}\n");
    let mut notes: Vec<String> = Vec::new();
    let mut n0 = String::new();
    push_str(&mut n0, "AWS Subnet → upcloud_network (private SDN; public internet via server network_interface type=public).");
    push_note(&mut notes, n0);
    let mut n1 = String::new();
    push_str(&mut n1, "lifecycle { ignore_changes = [router] } added — UpCloud Kubernetes Service attaches a router automatically.");
    push_note(&mut notes, n1);
    if is_public {
        let mut n2 = String::new();
        push_str(&mut n2, "map_public_ip_on_launch ignored — public access is via server network_interface type=public.");
        push_note(&mut notes, n2);
    }
    if count_attr.is_some() {
        let mut n3 = String::new();
        push_str(&mut n3, "count = ");
        push_str(&mut n3, count_s.as_str());
        push_str(&mut n3, " propagated.");
        push_note(&mut notes, n3);
    }
    new_result(res, MigrationStatus::Compatible, "upcloud_network", Some(hcl), None, vpc_name, notes)
}

pub open spec fn spec_map_eip(res: TerraformResource) -> ResultModel {
    let inst = attr_seg(res, "instance"@, "aws_instance."@);
    let inst_s = match inst { Some(i) => i, None => seq![] };
    let body = match inst { Some(i) => "resource \"upcloud_floating_ip_address\" \""@ + res.name@ + "\" {\n  mac_address = upcloud_server."@ + i + ".network_interface[0].mac_address\n}\n"@, None => "resource \"upcloud_floating_ip_address\" \""@ + res.name@ + "\" {\n  zone = \"__ZONE__\"\n  # To attach to a server, set:\n  # mac_address = upcloud_server.<name>.network_interface[0].mac_address\n}\n"@ };
    let notes0 = Seq::<Seq<char>>::empty();
    let notes1 = if inst is Some { notes0.push("EIP → upcloud_floating_ip_address attached to upcloud_server."@ + inst_s + "."@) } else { notes0 };
    let notes2 = if inst is Some { notes1.push("mac_address auto-resolved from aws_eip.instance attribute."@) } else { notes1 };
    let notes3 = if inst is None { notes2.push("EIP → upcloud_floating_ip_address. Set mac_address to attach it to a server's network interface."@) } else { notes2 };
    let notes4 = if inst is None { notes3.push("Note: this EIP was not attached to an instance (e.g. NAT Gateway EIP) — attach manually if needed."@) } else { notes3 };
    result_model(res, MigrationStatus::Compatible, "upcloud_floating_ip_address"@, Some(body), None, None, notes4)
}

/// `aws_eip` → `upcloud_floating_ip_address`, attached to the server of its `instance`
/// when it names one.
pub fn map_eip(res: &TerraformResource) -> (r: MigrationResult)
    ensures
        r@ == spec_map_eip(*res),
{
    let inst: Option<String> = attr_seg_exec(res, "instance", "aws_instance.");
    let inst_s: String = match &inst { Some(i) => string_of(&chars_of(i.as_str())), None => String::new() };
    let body: String = match &inst { Some(i) => cat5("resource \"upcloud_floating_ip_address\" \"", res.name.as_str(), "\" {\n  mac_address = upcloud_server.", i.as_str(), ".network_interface[0].mac_address\n}\n"), None => cat3("resource \"upcloud_floating_ip_address\" \"", res.name.as_str(), "\" {\n  zone = \"__ZONE__\"\n  # To attach to a server, set:\n  # mac_address = upcloud_server.<name>.network_interface[0].mac_address\n}\n") };
    let mut hcl = String::new();
    push_str(&mut hcl, body.as_str());
    let mut notes: Vec<String> = Vec::new();
    if inst.is_some() {
        let mut n0 = String::new();
        push_str(&mut n0, "EIP → upcloud_floating_ip_address attached to upcloud_server.");
        push_str(&mut n0, inst_s.as_str());
        push_str(&mut n0, ".");
        push_note(&mut notes, n0);
    }
    if inst.is_some() {
        let mut n1 = String::new();
        push_str(&mut n1, "mac_address auto-resolved from aws_eip.instance attribute.");
        push_note(&mut notes, n1);
    }
    if inst.is_none() {
        let mut n2 = String::new();
        push_str(&mut n2, "EIP → upcloud_floating_ip_address. Set mac_address to attach it to a server's network interface.");
        push_note(&mut notes, n2);
    }
    if inst.is_none() {
        let mut n3 = String::new();
        push_str(&mut n3, "Note: this EIP was not attached to an instance (e.g. NAT Gateway EIP) — attach manually if needed.");
        push_note(&mut notes, n3);
    }
    new_result(res, MigrationStatus::Compatible, "upcloud_floating_ip_address", Some(hcl), None, None, notes)
}

/// What a security group rule's attributes set so far: first and last port, protocol,
/// description, and whether every CIDR is universal.
pub open spec fn sg_attr_step(st: (i32, i32, Seq<char>, Option<Seq<char>>, bool), kv: (Seq<char>, Seq<char>)) -> (i32, i32, Seq<char>, Option<Seq<char>>, bool) {
    let k = kv.0;
    let bare = trim_char(kv.1, '"');
    if k == "from_port"@ {
        (match parse_i32(bare) { Some(n) => n, None => 0 }, st.1, st.2, st.3, st.4)
    } else if k == "to_port"@ {
        (st.0, match parse_i32(bare) { Some(n) => n, None => 65535 }, st.2, st.3, st.4)
    } else if k == "protocol"@ {
        (st.0, st.1, bare, st.3, st.4)
    } else if k == "description"@ {
        (st.0, st.1, st.2, Some(bare), st.4)
    } else if (k == "cidr_blocks"@ || k == "ipv6_cidr_blocks"@) && !contains(kv.1, "0.0.0.0/0"@) && !contains(kv.1, "::/0"@) {
        (st.0, st.1, st.2, st.3, false)
    } else {
        st
    }
}

/// The first `n` attributes applied in order, starting from all ports, protocol `-1`,
/// no description and universal CIDRs.
pub open spec fn sg_attrs_fold(attrs: Seq<(Seq<char>, Seq<char>)>, n: int) -> (i32, i32, Seq<char>, Option<Seq<char>>, bool)
    decreases n,
{
    if n <= 0 {
        (0, 65535, "-1"@, None, true)
    } else {
        sg_attr_step(sg_attrs_fold(attrs, n - 1), attrs[n - 1])
    }
}

/// The rule of one `ingress`/`egress` block. It admits all traffic when its protocol is
/// `-1` or both ports are 0, and every CIDR is universal.
pub open spec fn sg_rule_of(direction: Seq<char>, attrs: Seq<(Seq<char>, Seq<char>)>) -> (Seq<char>, i32, i32, Seq<char>, Option<Seq<char>>, bool) {
    let st = sg_attrs_fold(attrs, attrs.len() as int);
    (direction, st.0, st.1, st.2, st.3, (st.2 == "-1"@ || (st.0 == 0 && st.1 == 0)) && st.4)
}

/// The rules of the `ingress` (in) and `egress` (out) blocks among the first `n` blocks.
pub open spec fn sg_rules_upto(blocks: Seq<(Seq<char>, Seq<(Seq<char>, Seq<char>)>)>, n: int) -> Seq<(Seq<char>, i32, i32, Seq<char>, Option<Seq<char>>, bool)>
    decreases n,
{
    if n <= 0 {
        seq![]
    } else {
        let prev = sg_rules_upto(blocks, n - 1);
        let b = blocks[n - 1];
        if b.0 == "ingress"@ {
            prev.push(sg_rule_of("in"@, b.1))
        } else if b.0 == "egress"@ {
            prev.push(sg_rule_of("out"@, b.1))
        } else {
            prev
        }
    }
}

/// The rules of a security group's source: none when it does not parse.
pub open spec fn spec_parse_sg_rules(raw: Seq<char>) -> Seq<(Seq<char>, i32, i32, Seq<char>, Option<Seq<char>>, bool)> {
    match hcl_inner_blocks(raw) {
        Some(b) => sg_rules_upto(b, b.len() as int),
        None => seq![],
    }
}

fn sg_rule_exec(direction: &str, attrs: &Vec<(String, String)>) -> (r: (String, i32, i32, String, Option<String>, bool))
    ensures
        fw_rules_view(seq![r])[0] == sg_rule_of(direction@, attr_view(attrs@)),
{
    let ghost av = attr_view(attrs@);
    let mut from: i32 = 0;
    let mut to: i32 = 65535;
    let mut protocol = String::from_str("-1");
    let mut description: Option<String> = None;
    let mut cidr_all = true;
    let mut i: usize = 0;
    while i < attrs.len()
        invariant
            i <= attrs@.len(),
            av == attr_view(attrs@),
            sg_attrs_fold(av, i as int) == (from, to, protocol@, opt_view(description), cidr_all),
        decreases attrs@.len() - i,
    {
        let k = chars_of(attrs[i].0.as_str());
        let val = chars_of(attrs[i].1.as_str());
        let bare = trim_char_v(&val, '"');
        if eq_str(&k, "from_port") {
            from = match parse_i32_v(&bare) { Some(n) => n, None => 0 };
        } else if eq_str(&k, "to_port") {
            to = match parse_i32_v(&bare) { Some(n) => n, None => 65535 };
        } else if eq_str(&k, "protocol") {
            protocol = string_of(&bare);
        } else if eq_str(&k, "description") {
            description = Some(string_of(&bare));
        } else if (eq_str(&k, "cidr_blocks") || eq_str(&k, "ipv6_cidr_blocks")) && !contains_str(&val, "0.0.0.0/0") && !contains_str(&val, "::/0") {
            cidr_all = false;
        }
        i += 1;
    }
    let all = (eq_str(&chars_of(protocol.as_str()), "-1") || (from == 0 && to == 0)) && cidr_all;
    (string_of(&chars_of(direction)), from, to, protocol, description, all)
}

/// The ingress (in) and egress (out) rules among parsed nested blocks, in order.
pub fn sg_rules_from_blocks(blocks: &Vec<(String, Vec<(String, String)>)>) -> (r: Vec<(String, i32, i32, String, Option<String>, bool)>)
    ensures
        fw_rules_view(r@) == sg_rules_upto(inner_view(blocks@), blocks@.len() as int),
{
    let mut rules: Vec<(String, i32, i32, String, Option<String>, bool)> = Vec::new();
    let ghost bv = inner_view(blocks@);
    let mut i: usize = 0;
    while i < blocks.len()
        invariant
            i <= blocks@.len(),
            bv == inner_view(blocks@),
            bv.len() == blocks@.len(),
            fw_rules_view(rules@) == sg_rules_upto(bv, i as int),
        decreases blocks@.len() - i,
    {
        let id = chars_of(blocks[i].0.as_str());
        let ghost prev = rules@;
        if eq_str(&id, "ingress") {
            let r = sg_rule_exec("in", &blocks[i].1);
            rules.push(r);
            assert(fw_rules_view(rules@) =~= fw_rules_view(prev).push(fw_rules_view(seq![r])[0]));
        } else if eq_str(&id, "egress") {
            let r = sg_rule_exec("out", &blocks[i].1);
            rules.push(r);
            assert(fw_rules_view(rules@) =~= fw_rules_view(prev).push(fw_rules_view(seq![r])[0]));
        }
        i += 1;
    }
    rules
}

/// The ingress and egress rules of a security group's source, in source order (none when
/// it does not parse).
pub fn parse_sg_rules(raw: &str) -> (r: Vec<(String, i32, i32, String, Option<String>, bool)>)
    ensures
        fw_rules_view(r@) == spec_parse_sg_rules(raw@),
{
    match parse_inner_blocks(raw) {
        None => Vec::new(),
        Some(blocks) => sg_rules_from_blocks(&blocks),
    }
}

pub open spec fn spec_map_security_group(res: TerraformResource) -> ResultModel {
    let rules = spec_parse_sg_rules(res.raw_hcl@);
    let body = spec_firewall_rule_blocks(rules, "-1"@);
    let count_note = if rules.len() == 0 {
        "No ingress/egress rules — add firewall_rule blocks manually."@
    } else {
        dec(rules.len()) + " rule(s) auto-generated from source ingress/egress blocks."@
    };
    result_model(
        res,
        if rules.len() == 0 { MigrationStatus::Partial } else { MigrationStatus::Compatible },
        "upcloud_firewall_rules"@,
        Some(spec_upcloud_firewall_rules_hcl(res.name@, body)),
        None,
        None,
        seq![
            "Security groups → UpCloud Firewall Rules (attached per-server, not per-network)"@,
            count_note,
            "server_id auto-resolved from vpc_security_group_ids on the instance."@,
        ],
    )
}

/// `aws_security_group` → `upcloud_firewall_rules`: one `firewall_rule` per ingress/egress
/// block (a rule with protocol `-1` gets no protocol line), and a catch-all outbound rule
/// unless a rule already admits all outbound traffic. Without rules the result is partial.
pub fn map_security_group(res: &TerraformResource) -> (r: MigrationResult)
    ensures
        r@ == spec_map_security_group(*res),
{
    let rules = parse_sg_rules(res.raw_hcl.as_str());
    let body = firewall_rule_blocks(&rules, "-1");
    let hcl = upcloud_firewall_rules_hcl(res.name.as_str(), body.as_str());
    let mut notes = note("Security groups → UpCloud Firewall Rules (attached per-server, not per-network)");
    let status = if rules.len() == 0 {
        push_note(&mut notes, String::from_str("No ingress/egress rules — add firewall_rule blocks manually."));
        MigrationStatus::Partial
    } else {
        let mut n = String::new();
        push_u64(&mut n, rules.len() as u64);
        push_str(&mut n, " rule(s) auto-generated from source ingress/egress blocks.");
        push_note(&mut notes, n);
        MigrationStatus::Compatible
    };
    push_note(&mut notes, String::from_str("server_id auto-resolved from vpc_security_group_ids on the instance."));
    new_result(res, status, "upcloud_firewall_rules", Some(hcl), None, None, notes)
}

/// Each field of a security group rule is the attribute's last binding: the first port
/// is the last `from_port` (0 when unreadable or absent), the last port the last
/// `to_port` (65535 when unreadable or absent), the protocol the last `protocol` with its
/// quotes trimmed (`-1` when absent), the description the last `description`.
pub proof fn sg_rule_fields_are_last_bindings(attrs: Seq<(Seq<char>, Seq<char>)>, n: int)
    requires
        0 <= n <= attrs.len(),
    ensures
        sg_attrs_fold(attrs, n).0 == match lookup_upto(attrs, "from_port"@, n) {
            Some(v) => match parse_i32(trim_char(v, '"')) { Some(p) => p, None => 0 },
            None => 0,
        },
        sg_attrs_fold(attrs, n).1 == match lookup_upto(attrs, "to_port"@, n) {
            Some(v) => match parse_i32(trim_char(v, '"')) { Some(p) => p, None => 65535 },
            None => 65535,
        },
        sg_attrs_fold(attrs, n).2 == match lookup_upto(attrs, "protocol"@, n) {
            Some(v) => trim_char(v, '"'),
            None => "-1"@,
        },
        sg_attrs_fold(attrs, n).3 == match lookup_upto(attrs, "description"@, n) {
            Some(v) => Some(trim_char(v, '"')),
            None => None,
        },
    decreases n,
{
    reveal_strlit("from_port");
    assert("from_port"@[0] == 'f');
    assert("from_port"@[1] == 'r');
    assert("from_port"@[2] == 'o');
    assert("from_port"@[3] == 'm');
    assert("from_port"@[4] == '_');
    assert("from_port"@[5] == 'p');
    assert("from_port"@[6] == 'o');
    assert("from_port"@[7] == 'r');
    assert("from_port"@[8] == 't');
    reveal_strlit("to_port");
    assert("to_port"@[0] == 't');
    assert("to_port"@[1] == 'o');
    assert("to_port"@[2] == '_');
    assert("to_port"@[3] == 'p');
    assert("to_port"@[4] == 'o');
    assert("to_port"@[5] == 'r');
    assert("to_port"@[6] == 't');
    reveal_strlit("protocol");
    assert("protocol"@[0] == 'p');
    assert("protocol"@[1] == 'r');
    assert("protocol"@[2] == 'o');
    assert("protocol"@[3] == 't');
    assert("protocol"@[4] == 'o');
    assert("protocol"@[5] == 'c');
    assert("protocol"@[6] == 'o');
    assert("protocol"@[7] == 'l');
    reveal_strlit("description");
    assert("description"@[0] == 'd');
    assert("description"@[1] == 'e');
    assert("description"@[2] == 's');
    assert("description"@[3] == 'c');
    assert("description"@[4] == 'r');
    assert("description"@[5] == 'i');
    assert("description"@[6] == 'p');
    assert("description"@[7] == 't');
    assert("description"@[8] == 'i');
    assert("description"@[9] == 'o');
    assert("description"@[10] == 'n');
    reveal_strlit("cidr_blocks");
    assert("cidr_blocks"@[0] == 'c');
    assert("cidr_blocks"@[1] == 'i');
    assert("cidr_blocks"@[2] == 'd');
    assert("cidr_blocks"@[3] == 'r');
    assert("cidr_blocks"@[4] == '_');
    assert("cidr_blocks"@[5] == 'b');
    assert("cidr_blocks"@[6] == 'l');
    assert("cidr_blocks"@[7] == 'o');
    assert("cidr_blocks"@[8] == 'c');
    assert("cidr_blocks"@[9] == 'k');
    assert("cidr_blocks"@[10] == 's');
    reveal_strlit("ipv6_cidr_blocks");
    assert("ipv6_cidr_blocks"@[0] == 'i');
    assert("ipv6_cidr_blocks"@[1] == 'p');
    assert("ipv6_cidr_blocks"@[2] == 'v');
    assert("ipv6_cidr_blocks"@[3] == '6');
    assert("ipv6_cidr_blocks"@[4] == '_');
    assert("ipv6_cidr_blocks"@[5] == 'c');
    assert("ipv6_cidr_blocks"@[6] == 'i');
    assert("ipv6_cidr_blocks"@[7] == 'd');
    assert("ipv6_cidr_blocks"@[8] == 'r');
    assert("ipv6_cidr_blocks"@[9] == '_');
    assert("ipv6_cidr_blocks"@[10] == 'b');
    assert("ipv6_cidr_blocks"@[11] == 'l');
    assert("ipv6_cidr_blocks"@[12] == 'o');
    assert("ipv6_cidr_blocks"@[13] == 'c');
    assert("ipv6_cidr_blocks"@[14] == 'k');
    assert("ipv6_cidr_blocks"@[15] == 's');
    if n > 0 {
        sg_rule_fields_are_last_bindings(attrs, n - 1);
    }
}

} // verus!
