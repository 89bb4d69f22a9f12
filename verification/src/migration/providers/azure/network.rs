//! Azure networking: virtual networks, subnets, security rules, public IPs, interfaces.
use vstd::prelude::*;

use crate::migration::providers::aws::kubernetes::{trim_end_brackets, trim_start_brackets};
use crate::migration::providers::aws::network::{attr_seg, ip_line, seg_after, trim_qb_end, trim_qb_start};
use crate::migration::providers::azure::database::db_sku_plan;
use crate::migration::providers::hcl_blocks::{hcl_inner_blocks, inner_view, parse_inner_blocks};
use crate::migration::providers::shared::{
    build_firewall_rule, firewall_rule_blocks, fw_rules_view, spec_build_firewall_rule,
    spec_firewall_rule_blocks, spec_upcloud_firewall_rules_hcl, spec_upcloud_router_hcl,
    upcloud_firewall_rules_hcl, upcloud_router_hcl,
};
use crate::terraform::types::{attr_view, lookup_upto};
use crate::migration::types::{
    cat2, cat3, cat5, new_result, note, opt_view, push_note, result_model, MigrationResult,
    MigrationStatus, ResultModel,
};
use crate::migration::providers::aws::database::dot_parts;
use crate::terraform::types::TerraformResource;
use crate::text::{
    before_char, before_char_v, chars_of, dec, eq_str, find, find_char_from, push_u64,
    split_once_char, split_once_char_v, parse_i32, parse_i32_v,
    push_str, rfind, rfind_below, rfind_below_exec, lemma_rfind_bounds, matches_at, slice_of, spec_to_lowercase,
    starts_with_exec, string_of, to_lowercase, trim, trim_char, trim_char_v, trim_v,
};

verus! {

fn attr_seg_exec(res: &TerraformResource, key: &str, prefix: &str) -> (r: Option<String>)
    ensures
        opt_view(r) == attr_seg(*res, key@, prefix@),
{
    match res.get_attr(key) {
        Some(v) => {
            let t = trim_char_v(&v, '"');
            if starts_with_exec(&t, prefix) {
                let pl = chars_of(prefix).len();
                let n = t.len();
                let rest = slice_of(&t, pl, n);
                assert(rest@ =~= t@.skip(prefix@.len() as int));
                Some(string_of(&before_char_v(&rest, '.')))
            } else {
                None
            }
        },
        None => None,
    }
}

/// ASCII case folding of one character, as its code point.
pub open spec fn ascii_lower(c: char) -> u32 {
    if 'A' <= c && c <= 'Z' {
        ((c as u32) + 32) as u32
    } else {
        c as u32
    }
}

/// `str::eq_ignore_ascii_case`.
pub open spec fn eq_ignore_ascii_case(a: Seq<char>, b: Seq<char>) -> bool {
    a.len() == b.len() && forall|i: int| 0 <= i < a.len() ==> ascii_lower(a[i]) == ascii_lower(b[i])
}

fn ascii_lower_exec(c: char) -> (r: u32)
    ensures
        r == ascii_lower(c),
{
    let u = c as u32;
    if 'A' <= c && c <= 'Z' {
        u + 32
    } else {
        u
    }
}

fn eq_ignore_ascii_case_exec(a: &Vec<char>, b: &str) -> (r: bool)
    ensures
        r == eq_ignore_ascii_case(a@, b@),
{
    let bv = chars_of(b);
    if a.len() != bv.len() {
        return false;
    }
    let mut i: usize = 0;
    while i < a.len()
        invariant
            a@.len() == bv@.len(),
            bv@ == b@,
            i <= a@.len(),
            forall|j: int| 0 <= j < i ==> ascii_lower(a@[j]) == ascii_lower(bv@[j]),
        decreases a@.len() - i,
    {
        if ascii_lower_exec(a[i]) != ascii_lower_exec(bv[i]) {
            return false;
        }
        i += 1;
    }
    true
}

/// The text after the last `-` (all of it when there is none).
pub open spec fn after_last_dash(v: Seq<char>) -> Seq<char> {
    match rfind(v, seq!['-']) {
        Some(i) => v.skip(i + 1),
        None => v,
    }
}

fn after_last_dash_exec(v: &Vec<char>) -> (r: Vec<char>)
    ensures
        r@ == after_last_dash(v@),
{
    let d = chars_of("-");
    proof {
        reveal_strlit("-");
        assert(d@ =~= seq!['-']);
    }
    let n = v.len();
    assert(!matches_at(v@, d@, n as int));
    assert(rfind_below(v@, d@, n + 1) == rfind_below(v@, d@, n as int));
    match rfind_below_exec(v, &d, n) {
        Some(i) => {
            proof {
                lemma_rfind_bounds(v@, d@);
            }
            let r = slice_of(v, i + 1, n);
            assert(r@ =~= v@.skip(i + 1));
            r
        },
        None => slice_of(v, 0, n),
    }
}

/// The first port of a destination port range (`*` is 0).
pub open spec fn range_from(res: TerraformResource) -> i32 {
    match res.attr_trim("destination_port_range"@) {
        Some(v) => if v == "*"@ {
            0
        } else {
            match parse_i32(before_char(v, '-')) {
                Some(p) => p,
                None => 0,
            }
        },
        None => 0,
    }
}

/// The last port of a destination port range (`*` is 65535).
pub open spec fn range_to(res: TerraformResource) -> i32 {
    match res.attr_trim("destination_port_range"@) {
        Some(v) => if v == "*"@ {
            65535
        } else {
            match parse_i32(after_last_dash(v)) {
                Some(p) => p,
                None => 65535,
            }
        },
        None => 65535,
    }
}

fn range_ports(res: &TerraformResource) -> (r: (i32, i32))
    ensures
        r.0 == range_from(*res),
        r.1 == range_to(*res),
{
    match res.get_trimmed("destination_port_range") {
        Some(v) => if eq_str(&v, "*") {
            (0, 65535)
        } else {
            let f = match parse_i32_v(&before_char_v(&v, '-')) {
                Some(p) => p,
                None => 0,
            };
            let t = match parse_i32_v(&after_last_dash_exec(&v)) {
                Some(p) => p,
                None => 65535,
            };
            (f, t)
        },
        None => (0, 65535),
    }
}

/// `in` for an inbound rule (any case), else `out`; `in` when absent.
pub open spec fn rule_direction(res: TerraformResource) -> Seq<char> {
    match res.attr_trim("direction"@) {
        Some(d) => if eq_ignore_ascii_case(d, "inbound"@) { "in"@ } else { "out"@ },
        None => "in"@,
    }
}

pub open spec fn rule_protocol(res: TerraformResource) -> Seq<char> {
    match res.attr_trim("protocol"@) {
        Some(p) => spec_to_lowercase(p),
        None => "*"@,
    }
}

pub open spec fn spec_map_network_security_rule(res: TerraformResource) -> ResultModel {
    let from = range_from(res);
    let to = range_to(res);
    let protocol = rule_protocol(res);
    let all = protocol == "*"@ || (from == 0 && to == 65535);
    let nsg = attr_seg(res, "network_security_group_name"@, "azurerm_network_security_group."@);
    let rule = spec_build_firewall_rule(rule_direction(res), from, to, protocol, res.attr_trim("description"@), all);
    let target = match nsg {
        Some(n) => "\"upcloud_firewall_rules\" \""@ + n + "\""@,
        None => "\"upcloud_firewall_rules\" \"<TODO: nsg_name>\""@,
    };
    result_model(
        res,
        MigrationStatus::Partial,
        "firewall_rule block in upcloud_firewall_rules"@,
        None,
        Some("# Add to resource "@ + target + " {\n"@ + rule + "\n}"@),
        nsg,
        seq!["Standalone security rule → add firewall_rule block to the parent upcloud_firewall_rules resource."@],
    )
}

/// `azurerm_network_security_rule` → a `firewall_rule` block for its security group:
/// direction, port range (`*` for all), protocol and description carried over.
pub fn map_network_security_rule(res: &TerraformResource) -> (r: MigrationResult)
    ensures
        r@ == spec_map_network_security_rule(*res),
{
    let direction: &str = match res.get_trimmed("direction") {
        Some(d) => if eq_ignore_ascii_case_exec(&d, "inbound") { "in" } else { "out" },
        None => "in",
    };
    let (from, to) = range_ports(res);
    let protocol = match res.get_trimmed("protocol") {
        Some(p) => to_lowercase(string_of(&p).as_str()),
        None => String::from_str("*"),
    };
    let all = eq_str(&chars_of(protocol.as_str()), "*") || (from == 0 && to == 65535);
    let nsg = attr_seg_exec(res, "network_security_group_name", "azurerm_network_security_group.");
    let desc = match res.get_trimmed("description") {
        Some(d) => Some(string_of(&d)),
        None => None,
    };
    let rule = match &desc {
        Some(d) => build_firewall_rule(direction, from, to, protocol.as_str(), Some(d.as_str()), all),
        None => build_firewall_rule(direction, from, to, protocol.as_str(), None, all),
    };
    let target = match &nsg {
        Some(n) => cat3("\"upcloud_firewall_rules\" \"", n.as_str(), "\""),
        None => String::from_str("\"upcloud_firewall_rules\" \"<TODO: nsg_name>\""),
    };
    let snippet = cat5("# Add to resource ", target.as_str(), " {\n", rule.as_str(), "\n}");
    let notes = note("Standalone security rule → add firewall_rule block to the parent upcloud_firewall_rules resource.");
    new_result(res, MigrationStatus::Partial, "firewall_rule block in upcloud_firewall_rules", None, Some(snippet), nsg, notes)
}

pub open spec fn spec_map_network_interface(res: TerraformResource) -> ResultModel {
    let subnet = attr_seg(res, "ip_configuration.subnet_id"@, "azurerm_subnet."@);
    let network_ref = match subnet { Some(n) => "upcloud_network."@ + n + ".id"@, None => "\"<TODO: upcloud_network UUID>\""@ };
    let notes0 = Seq::<Seq<char>>::empty();
    let notes1 = notes0.push("UpCloud has no standalone NIC resource — network interfaces are blocks within upcloud_server."@);
    result_model(res, MigrationStatus::Partial, "network_interface block in upcloud_server"@, None, Some("# Add to resource \"upcloud_server\" \"<TODO: server_name>\" {\n  network_interface {\n    type    = \"private\"\n    network = "@ + network_ref + "\n  }\n}"@), subnet, notes1)
}

/// `azurerm_network_interface` → a private `network_interface` block for a server.
pub fn map_network_interface(res: &TerraformResource) -> (r: MigrationResult)
    ensures
        r@ == spec_map_network_interface(*res),
{
    let subnet: Option<String> = attr_seg_exec(res, "ip_configuration.subnet_id", "azurerm_subnet.");
    let network_ref: String = match &subnet { Some(n) => cat3("upcloud_network.", n.as_str(), ".id"), None => String::from_str("\"<TODO: upcloud_network UUID>\"") };
    let mut snippet = String::new();
    push_str(&mut snippet, "# Add to resource \"upcloud_server\" \"<TODO: server_name>\" {\n  network_interface {\n    type    = \"private\"\n    network = ");
    push_str(&mut snippet, network_ref.as_str());
    push_str(&mut snippet, "\n  }\n}");
    let mut notes: Vec<String> = Vec::new();
    let mut n0 = String::new();
    push_str(&mut n0, "UpCloud has no standalone NIC resource — network interfaces are blocks within upcloud_server.");
    push_note(&mut notes, n0);
    new_result(res, MigrationStatus::Partial, "network_interface block in upcloud_server", None, Some(snippet), subnet, notes)
}

pub open spec fn spec_map_subnet_nsg_association(res: TerraformResource) -> ResultModel {
    let notes0 = Seq::<Seq<char>>::empty();
    result_model(res, MigrationStatus::Native, "(consumed by firewall resolution)"@, None, None, None, notes0)
}

/// A subnet–security group association: used when firewall rules are resolved.
pub fn map_subnet_nsg_association(res: &TerraformResource) -> (r: MigrationResult)
    ensures
        r@ == spec_map_subnet_nsg_association(*res),
{
    let mut notes: Vec<String> = Vec::new();
    new_result(res, MigrationStatus::Native, "(consumed by firewall resolution)", None, None, None, notes)
}

pub open spec fn spec_map_virtual_network(res: TerraformResource) -> ResultModel {
    let body = spec_upcloud_router_hcl(res.name@);
    let notes0 = Seq::<Seq<char>>::empty();
    let notes1 = notes0.push("Azure VNet → UpCloud Router. Each subnet becomes a separate upcloud_network attached to this router."@);
    result_model(res, MigrationStatus::Compatible, "upcloud_router"@, Some(body), None, None, notes1)
}

/// `azurerm_virtual_network` → `upcloud_router`.
pub fn map_virtual_network(res: &TerraformResource) -> (r: MigrationResult)
    ensures
        r@ == spec_map_virtual_network(*res),
{
    let body: String = upcloud_router_hcl(res.name.as_str());
    let mut hcl = String::new();
    push_str(&mut hcl, body.as_str());
    let mut notes: Vec<String> = Vec::new();
    let mut n0 = String::new();
    push_str(&mut n0, "Azure VNet → UpCloud Router. Each subnet becomes a separate upcloud_network attached to this router.");
    push_note(&mut notes, n0);
    new_result(res, MigrationStatus::Compatible, "upcloud_router", Some(hcl), None, None, notes)
}

pub open spec fn spec_map_public_ip(res: TerraformResource) -> ResultModel {
    let notes0 = Seq::<Seq<char>>::empty();
    let notes1 = notes0.push("Azure Public IP → UpCloud Floating IP. Attach via mac_address to the target server."@);
    result_model(res, MigrationStatus::Compatible, "upcloud_floating_ip_address"@, Some("resource \"upcloud_floating_ip_address\" \""@ + res.name@ + "\" {\n  mac_address = upcloud_server.<TODO>.network_interface[0].mac_address\n  zone        = \"__ZONE__\"\n}\n"@), None, None, notes1)
}

/// `azurerm_public_ip` → `upcloud_floating_ip_address`.
pub fn map_public_ip(res: &TerraformResource) -> (r: MigrationResult)
    ensures
        r@ == spec_map_public_ip(*res),
{
    let mut hcl = String::new();
    push_str(&mut hcl, "resource \"upcloud_floating_ip_address\" \"");
    push_str(&mut hcl, res.name.as_str());
    push_str(&mut hcl, "\" {\n  mac_address = upcloud_server.<TODO>.network_interface[0].mac_address\n  zone        = \"__ZONE__\"\n}\n");
    let mut notes: Vec<String> = Vec::new();
    let mut n0 = String::new();
    push_str(&mut n0, "Azure Public IP → UpCloud Floating IP. Attach via mac_address to the target server.");
    push_note(&mut notes, n0);
    new_result(res, MigrationStatus::Compatible, "upcloud_floating_ip_address", Some(hcl), None, None, notes)
}


/// The first address of a subnet's address prefixes.
pub open spec fn subnet_cidr(res: TerraformResource) -> Seq<char> {
    let a = match res.attr("address_prefixes"@) {
        Some(v) => Some(v),
        None => res.attr("address_prefix"@),
    };
    match a {
        Some(c) => trim_char(trim(before_char(trim_qb_end(trim_qb_start(c)), ',')), '"'),
        None => "10.0.1.0/24"@,
    }
}

/// The virtual network named by `azurerm_virtual_network.NAME...`.
pub open spec fn vnet_name(res: TerraformResource) -> Option<Seq<char>> {
    match res.attr("virtual_network_name"@) {
        Some(v) => {
            let (p0, p1, dotted) = dot_parts(trim_char(v, '"'));
            if dotted && p0 == "azurerm_virtual_network"@ {
                Some(p1)
            } else {
                None
            }
        },
        None => None,
    }
}

pub open spec fn spec_map_subnet(res: TerraformResource) -> ResultModel {
    let cidr = subnet_cidr(res);
    let vnet = vnet_name(res);
    let router_ref = match vnet { Some(n) => "upcloud_router."@ + n + "_router.id"@, None => "\"<TODO: router id>\""@ };
    let notes0 = Seq::<Seq<char>>::empty();
    let notes1 = notes0.push("Azure Subnet → upcloud_network (private SDN; public internet via server network_interface type=public)."@);
    result_model(res, MigrationStatus::Compatible, "upcloud_network"@, Some("resource \"upcloud_network\" \""@ + res.name@ + "\" {\n  name = \""@ + res.name@ + "\"\n  zone = \"__ZONE__\"\n\n  ip_network {\n    address            = \""@ + cidr + "\"\n    dhcp               = true\n    dhcp_default_route = false\n    family             = \"IPv4\"\n  }\n\n  router = "@ + router_ref + "\n}\n"@), None, vnet, notes1)
}

/// `azurerm_subnet` → `upcloud_network` attached to the VNet's router.
pub fn map_subnet(res: &TerraformResource) -> (r: MigrationResult)
    ensures
        r@ == spec_map_subnet(*res),
{
    let cidr: String = subnet_cidr_exec(res);
    let vnet: Option<String> = vnet_name_exec(res);
    let router_ref: String = match &vnet { Some(n) => cat3("upcloud_router.", n.as_str(), "_router.id"), None => String::from_str("\"<TODO: router id>\"") };
    let mut hcl = String::new();
    push_str(&mut hcl, "resource \"upcloud_network\" \"");
    push_str(&mut hcl, res.name.as_str());
    push_str(&mut hcl, "\" {\n  name = \"");
    push_str(&mut hcl, res.name.as_str());
    push_str(&mut hcl, "\"\n  zone = \"__ZONE__\"\n\n  ip_network {\n    address            = \"");
    push_str(&mut hcl, cidr.as_str());
    push_str(&mut hcl, "\"\n    dhcp               = true\n    dhcp_default_route = false\n    family             = \"IPv4\"\n  }\n\n  router = ");
    push_str(&mut hcl, router_ref.as_str());
    push_str(&mut hcl, "\n}\n");
    let mut notes: Vec<String> = Vec::new();
    let mut n0 = String::new();
    push_str(&mut n0, "Azure Subnet → upcloud_network (private SDN; public internet via server network_interface type=public).");
    push_note(&mut notes, n0);
    new_result(res, MigrationStatus::Compatible, "upcloud_network", Some(hcl), None, vnet, notes)
}


fn subnet_cidr_exec(res: &TerraformResource) -> (r: String)
    ensures
        r@ == subnet_cidr(*res),
{
    let a = match res.get_attr("address_prefixes") {
        Some(v) => Some(v),
        None => res.get_attr("address_prefix"),
    };
    match a {
        Some(c) => string_of(&trim_char_v(&trim_v(&before_char_v(&crate::migration::providers::aws::network::trim_qb_exec(&c), ',')), '"')),
        None => String::from_str("10.0.1.0/24"),
    }
}

fn vnet_name_exec(res: &TerraformResource) -> (r: Option<String>)
    ensures
        opt_view(r) == vnet_name(*res),
{
    match res.get_attr("virtual_network_name") {
        Some(v) => {
            let (p0, p1, dotted) = crate::migration::providers::aws::database::dot_parts_exec(&trim_char_v(&v, '"'));
            if dotted && eq_str(&p0, "azurerm_virtual_network") {
                Some(string_of(&p1))
            } else {
                None
            }
        },
        None => None,
    }
}

/// The port range of a `destination_port_range` value: `*` is every port, `A-B` a range,
/// a single number that port alone (unreadable numbers count as 0, or 65535 at the end).
pub open spec fn nsg_port_range(bare: Seq<char>) -> (i32, i32) {
    if bare == "*"@ {
        (0, 65535)
    } else {
        match split_once_char(bare, '-') {
            Some((f, t)) => (
                match parse_i32(f) { Some(p) => p, None => 0 },
                match parse_i32(t) { Some(p) => p, None => 65535 },
            ),
            None => {
                let p = match parse_i32(bare) { Some(p) => p, None => 0 };
                (p, p)
            },
        }
    }
}

/// What a `security_rule` block's attributes set so far: direction, first and last port,
/// protocol, description and access.
pub open spec fn nsg_attr_step(st: (Seq<char>, i32, i32, Seq<char>, Option<Seq<char>>, Seq<char>), kv: (Seq<char>, Seq<char>)) -> (Seq<char>, i32, i32, Seq<char>, Option<Seq<char>>, Seq<char>) {
    let k = kv.0;
    let bare = trim_char(kv.1, '"');
    if k == "direction"@ {
        (if eq_ignore_ascii_case(bare, "inbound"@) { "in"@ } else { "out"@ }, st.1, st.2, st.3, st.4, st.5)
    } else if k == "destination_port_range"@ {
        (st.0, nsg_port_range(bare).0, nsg_port_range(bare).1, st.3, st.4, st.5)
    } else if k == "protocol"@ {
        (st.0, st.1, st.2, spec_to_lowercase(bare), st.4, st.5)
    } else if k == "description"@ {
        (st.0, st.1, st.2, st.3, Some(bare), st.5)
    } else if k == "access"@ {
        (st.0, st.1, st.2, st.3, st.4, bare)
    } else {
        st
    }
}

/// The first `n` attributes applied in order, starting from inbound, all ports,
/// protocol `*`, no description and access `Allow`.
pub open spec fn nsg_attrs_fold(attrs: Seq<(Seq<char>, Seq<char>)>, n: int) -> (Seq<char>, i32, i32, Seq<char>, Option<Seq<char>>, Seq<char>)
    decreases n,
{
    if n <= 0 {
        ("in"@, 0, 65535, "*"@, None, "Allow"@)
    } else {
        nsg_attr_step(nsg_attrs_fold(attrs, n - 1), attrs[n - 1])
    }
}

/// The rules of the allowing `security_rule` blocks among the first `n` blocks; a rule
/// admits all traffic when its protocol is `*` or it spans every port.
pub open spec fn nsg_rules_upto(blocks: Seq<(Seq<char>, Seq<(Seq<char>, Seq<char>)>)>, n: int) -> Seq<(Seq<char>, i32, i32, Seq<char>, Option<Seq<char>>, bool)>
    decreases n,
{
    if n <= 0 {
        seq![]
    } else {
        let prev = nsg_rules_upto(blocks, n - 1);
        let b = blocks[n - 1];
        let st = nsg_attrs_fold(b.1, b.1.len() as int);
        if b.0 == "security_rule"@ && eq_ignore_ascii_case(st.5, "Allow"@) {
            prev.push((st.0, st.1, st.2, st.3, st.4, st.3 == "*"@ || (st.1 == 0 && st.2 == 65535)))
        } else {
            prev
        }
    }
}

/// The allowing security rules of a security group's source: none when it does not parse.
pub open spec fn spec_parse_nsg_rules(raw: Seq<char>) -> Seq<(Seq<char>, i32, i32, Seq<char>, Option<Seq<char>>, bool)> {
    match hcl_inner_blocks(raw) {
        Some(b) => nsg_rules_upto(b, b.len() as int),
        None => seq![],
    }
}

fn nsg_port_range_exec(bare: &Vec<char>) -> (r: (i32, i32))
    ensures
        r == nsg_port_range(bare@),
{
    if eq_str(bare, "*") {
        (0, 65535)
    } else {
        match split_once_char_v(bare, '-') {
            Some((f, t)) => (
                match parse_i32_v(&f) { Some(p) => p, None => 0 },
                match parse_i32_v(&t) { Some(p) => p, None => 65535 },
            ),
            None => {
                let p = match parse_i32_v(bare) { Some(p) => p, None => 0 };
                (p, p)
            },
        }
    }
}

fn nsg_fold_exec(attrs: &Vec<(String, String)>) -> (r: (String, i32, i32, String, Option<String>, String))
    ensures
        (r.0@, r.1, r.2, r.3@, opt_view(r.4), r.5@) == nsg_attrs_fold(attr_view(attrs@), attrs@.len() as int),
{
    let ghost av = attr_view(attrs@);
    let mut direction = String::from_str("in");
    let mut from: i32 = 0;
    let mut to: i32 = 65535;
    let mut protocol = String::from_str("*");
    let mut description: Option<String> = None;
    let mut access = String::from_str("Allow");
    let mut i: usize = 0;
    while i < attrs.len()
        invariant
            i <= attrs@.len(),
            av == attr_view(attrs@),
            nsg_attrs_fold(av, i as int) == (direction@, from, to, protocol@, opt_view(description), access@),
        decreases attrs@.len() - i,
    {
        let k = chars_of(attrs[i].0.as_str());
        let val = chars_of(attrs[i].1.as_str());
        let bare = trim_char_v(&val, '"');
        if eq_str(&k, "direction") {
            direction = String::from_str(if eq_ignore_ascii_case_exec(&bare, "inbound") { "in" } else { "out" });
        } else if eq_str(&k, "destination_port_range") {
            let (f, t) = nsg_port_range_exec(&bare);
            from = f;
            to = t;
        } else if eq_str(&k, "protocol") {
            protocol = to_lowercase(string_of(&bare).as_str());
        } else if eq_str(&k, "description") {
            description = Some(string_of(&bare));
        } else if eq_str(&k, "access") {
            access = string_of(&bare);
        }
        i += 1;
    }
    (direction, from, to, protocol, description, access)
}

/// The allowing `security_rule` blocks among parsed nested blocks, in order.
pub fn nsg_rules_from_blocks(blocks: &Vec<(String, Vec<(String, String)>)>) -> (r: Vec<(String, i32, i32, String, Option<String>, bool)>)
    ensures
        fw_rules_view(r@) == nsg_rules_upto(inner_view(blocks@), blocks@.len() as int),
{
    let mut rules: Vec<(String, i32, i32, String, Option<String>, bool)> = Vec::new();
    let ghost bv = inner_view(blocks@);
    let mut i: usize = 0;
    while i < blocks.len()
        invariant
            i <= blocks@.len(),
            bv == inner_view(blocks@),
            bv.len() == blocks@.len(),
            fw_rules_view(rules@) == nsg_rules_upto(bv, i as int),
        decreases blocks@.len() - i,
    {
        let id = chars_of(blocks[i].0.as_str());
        let ghost prev = rules@;
        if eq_str(&id, "security_rule") {
            let st = nsg_fold_exec(&blocks[i].1);
            let accv = chars_of(st.5.as_str());
            if eq_ignore_ascii_case_exec(&accv, "Allow") {
                let all = eq_str(&chars_of(st.3.as_str()), "*") || (st.1 == 0 && st.2 == 65535);
                let r = (st.0, st.1, st.2, st.3, st.4, all);
                rules.push(r);
                assert(fw_rules_view(rules@) =~= fw_rules_view(prev).push(fw_rules_view(seq![r])[0]));
            }
        }
        i += 1;
    }
    rules
}

/// The allowing `security_rule` blocks of a security group's source, in source order
/// (none when it does not parse).
pub fn parse_nsg_rules(raw: &str) -> (r: Vec<(String, i32, i32, String, Option<String>, bool)>)
    ensures
        fw_rules_view(r@) == spec_parse_nsg_rules(raw@),
{
    match parse_inner_blocks(raw) {
        None => Vec::new(),
        Some(blocks) => nsg_rules_from_blocks(&blocks),
    }
}

pub open spec fn spec_map_network_security_group(res: TerraformResource) -> ResultModel {
    let rules = spec_parse_nsg_rules(res.raw_hcl@);
    let body = spec_firewall_rule_blocks(rules, "*"@);
    let count_note = if rules.len() == 0 {
        "No security rules found — add firewall_rule blocks manually."@
    } else {
        dec(rules.len()) + " rule(s) auto-generated from source security_rule blocks."@
    };
    result_model(
        res,
        if rules.len() == 0 { MigrationStatus::Partial } else { MigrationStatus::Compatible },
        "upcloud_firewall_rules"@,
        Some(spec_upcloud_firewall_rules_hcl(res.name@, body)),
        None,
        None,
        seq!["Network Security Group → UpCloud Firewall Rules (attached per-server, not per-network)"@, count_note],
    )
}

/// `azurerm_network_security_group` → `upcloud_firewall_rules`: one `firewall_rule` per
/// allowing `security_rule` block, and a catch-all outbound rule unless a rule already
/// admits all outbound traffic. Without rules the result is partial.
pub fn map_network_security_group(res: &TerraformResource) -> (r: MigrationResult)
    ensures
        r@ == spec_map_network_security_group(*res),
{
    let rules = parse_nsg_rules(res.raw_hcl.as_str());
    let body = firewall_rule_blocks(&rules, "*");
    let hcl = upcloud_firewall_rules_hcl(res.name.as_str(), body.as_str());
    let mut notes = note("Network Security Group → UpCloud Firewall Rules (attached per-server, not per-network)");
    let status = if rules.len() == 0 {
        push_note(&mut notes, String::from_str("No security rules found — add firewall_rule blocks manually."));
        MigrationStatus::Partial
    } else {
        let mut n = String::new();
        push_u64(&mut n, rules.len() as u64);
        push_str(&mut n, " rule(s) auto-generated from source security_rule blocks.");
        push_note(&mut notes, n);
        MigrationStatus::Compatible
    };
    new_result(res, status, "upcloud_firewall_rules", Some(hcl), None, None, notes)
}

/// Each field of an NSG security rule is the attribute's last binding: the direction is
/// `in` exactly when the last `direction` reads `Inbound` in any case (`in` when absent),
/// the ports come from the last `destination_port_range` (every port when absent), the
/// protocol is the last `protocol` in lower case (`*` when absent), and the access the
/// last `access` (`Allow` when absent).
pub proof fn nsg_rule_fields_are_last_bindings(attrs: Seq<(Seq<char>, Seq<char>)>, n: int)
    requires
        0 <= n <= attrs.len(),
    ensures
        nsg_attrs_fold(attrs, n).0 == match lookup_upto(attrs, "direction"@, n) {
            Some(v) => if eq_ignore_ascii_case(trim_char(v, '"'), "inbound"@) { "in"@ } else { "out"@ },
            None => "in"@,
        },
        (nsg_attrs_fold(attrs, n).1, nsg_attrs_fold(attrs, n).2) == match lookup_upto(attrs, "destination_port_range"@, n) {
            Some(v) => nsg_port_range(trim_char(v, '"')),
            None => (0i32, 65535i32),
        },
        nsg_attrs_fold(attrs, n).3 == match lookup_upto(attrs, "protocol"@, n) {
            Some(v) => spec_to_lowercase(trim_char(v, '"')),
            None => "*"@,
        },
        nsg_attrs_fold(attrs, n).5 == match lookup_upto(attrs, "access"@, n) {
            Some(v) => trim_char(v, '"'),
            None => "Allow"@,
        },
    decreases n,
{
    reveal_strlit("direction");
    assert("direction"@[0] == 'd');
    assert("direction"@[1] == 'i');
    assert("direction"@[2] == 'r');
    assert("direction"@[3] == 'e');
    assert("direction"@[4] == 'c');
    assert("direction"@[5] == 't');
    assert("direction"@[6] == 'i');
    assert("direction"@[7] == 'o');
    assert("direction"@[8] == 'n');
    reveal_strlit("destination_port_range");
    assert("destination_port_range"@[0] == 'd');
    assert("destination_port_range"@[1] == 'e');
    assert("destination_port_range"@[2] == 's');
    assert("destination_port_range"@[3] == 't');
    assert("destination_port_range"@[4] == 'i');
    assert("destination_port_range"@[5] == 'n');
    assert("destination_port_range"@[6] == 'a');
    assert("destination_port_range"@[7] == 't');
    assert("destination_port_range"@[8] == 'i');
    assert("destination_port_range"@[9] == 'o');
    assert("destination_port_range"@[10] == 'n');
    assert("destination_port_range"@[11] == '_');
    assert("destination_port_range"@[12] == 'p');
    assert("destination_port_range"@[13] == 'o');
    assert("destination_port_range"@[14] == 'r');
    assert("destination_port_range"@[15] == 't');
    assert("destination_port_range"@[16] == '_');
    assert("destination_port_range"@[17] == 'r');
    assert("destination_port_range"@[18] == 'a');
    assert("destination_port_range"@[19] == 'n');
    assert("destination_port_range"@[20] == 'g');
    assert("destination_port_range"@[21] == 'e');
    reveal_strlit("protocol");
    assert("protocol"@[0] == 'p');
    assert("protocol"@[1] == 'r');
    assert("protocol"@[2] == 'o');
    assert("protocol"@[3] == 't');
    assert("protocol"@[4] == 'o');
    assert("protocol"@[5] == 'c');
    assert("protocol"@[6] == 'o');
    assert("protocol"@[7] == 'l');
    reveal_strlit("description");
    assert("description"@[0] == 'd');
    assert("description"@[1] == 'e');
    assert("description"@[2] == 's');
    assert("description"@[3] == 'c');
    assert("description"@[4] == 'r');
    assert("description"@[5] == 'i');
    assert("description"@[6] == 'p');
    assert("description"@[7] == 't');
    assert("description"@[8] == 'i');
    assert("description"@[9] == 'o');
    assert("description"@[10] == 'n');
    reveal_strlit("access");
    assert("access"@[0] == 'a');
    assert("access"@[1] == 'c');
    assert("access"@[2] == 'c');
    assert("access"@[3] == 'e');
    assert("access"@[4] == 's');
    assert("access"@[5] == 's');
    if n > 0 {
        nsg_rule_fields_are_last_bindings(attrs, n - 1);
    }
}

} // verus!
