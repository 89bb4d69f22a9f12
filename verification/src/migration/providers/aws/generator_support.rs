//! AWS-specific source HCL extraction and output processing helpers.
//!
//! They read AWS Terraform patterns (resource references, data sources, etc.)
//! and rewrite them for UpCloud.
use vstd::prelude::*;

use crate::migration::providers::scan::{
    collect_refs, find_keyed_pair, find_keyed_ref, find_line_ref, first_keyed_ref,
    spec_collect_refs, spec_keyed_pair, spec_line_ref,
};
use crate::migration::providers::shared::{lemma_san_wf_for, sanitize_ends_when_markers_lack_prefixes, sanitize_provider_refs, spec_sanitize_provider_refs};
use crate::migration::types::strs_view;
use crate::text::ref_char;
use crate::migration::var_detector::opt_string_view;
use crate::migration::generator::{inside_todo_marker, spec_inside_todo_marker};
use crate::migration::providers::azure::generator_support::{split_dot, split_dot_exec};
use crate::text::{
    before_char, before_char_v, chars_of, count_char, count_char_v, eq_str, find_from,
    find_from_exec, lemma_find_from_bounds, lines, push_str, push_vec, ref_end, ref_end_exec,
    replace_first, replace_first_v, seq_eq, slice_of, starts_with, starts_with_exec, string_of,
    trim, trim_v, views,
};

verus! {

// ── Source HCL extraction helpers ─────────────────────────────────────────────

/// Scan an `aws_instance` source HCL block and return all security group resource names
/// referenced in `vpc_security_group_ids` or `security_groups` attributes.
/// E.g. `vpc_security_group_ids = [aws_security_group.docker_demo.id]` → `["docker_demo"]`
pub fn extract_sg_refs_from_instance_hcl(hcl: &str) -> (r: Vec<String>)
    ensures
        strs_view(r@) == spec_collect_refs(hcl@, "aws_security_group."@),
{
    proof {
        reveal_strlit("aws_security_group.");
    }
    collect_refs(hcl, "aws_security_group.")
}

/// Extract the subnet name from an `aws_instance` source HCL block.
/// Returns e.g. `"public_a"` from `subnet_id = aws_subnet.public_a.id`.
pub fn extract_subnet_id_from_instance_hcl(hcl: &str) -> (r: Option<String>)
    ensures
        opt_string_view(r) == first_keyed_ref(lines(hcl@), "subnet_id"@, "aws_subnet."@, true, false),
{
    find_keyed_ref(hcl, "subnet_id", "aws_subnet.", true, false)
}

/// Extract the target group name from an `aws_lb_listener` source HCL block.
/// Looks for `target_group_arn = aws_lb_target_group.NAME.arn` inside a forward action.
pub fn extract_tg_from_listener_source_hcl(hcl: &str) -> (r: Option<String>)
    ensures
        opt_string_view(r) == first_keyed_ref(lines(hcl@), "target_group_arn"@, "aws_lb_target_group."@, false, false),
{
    find_keyed_ref(hcl, "target_group_arn", "aws_lb_target_group.", false, false)
}

/// Extract (tg_name, server_name) from an `aws_lb_target_group_attachment` source HCL.
/// Returns e.g. `("web", "web")` from:
///   `target_group_arn = aws_lb_target_group.web.arn`
///   `target_id        = aws_instance.web[0].id`
pub fn extract_tg_server_from_attachment_source_hcl(hcl: &str) -> (r: Option<(String, String)>)
    ensures
        match r {
            Some((a, b)) => spec_keyed_pair(hcl@, "target_group_arn"@, "aws_lb_target_group."@, false, "target_id"@, "aws_instance."@, true) == Some((a@, b@)),
            None => spec_keyed_pair(hcl@, "target_group_arn"@, "aws_lb_target_group."@, false, "target_id"@, "aws_instance."@, true) is None,
        },
{
    find_keyed_pair(hcl, "target_group_arn", "aws_lb_target_group.", false, "target_id", "aws_instance.", true)
}

/// Extract LB resource name from an `aws_lb_listener` source HCL.
/// Looks for `load_balancer_arn = aws_lb.NAME.arn` pattern.
pub fn extract_lb_name_from_listener_hcl(hcl: &str) -> (r: Option<String>)
    ensures
        opt_string_view(r) == spec_line_ref(hcl@, "load_balancer_arn"@, ""@, "aws_lb."@, false),
{
    find_line_ref(hcl, "load_balancer_arn", "", "aws_lb.", false)
}

/// The separators at which a subnet group's `subnet_ids` text is split into words.
pub open spec fn is_word_sep(c: char) -> bool {
    c == ',' || c == '[' || c == ']' || c == '\n' || c == ' '
}

pub open spec fn first_sep(s: Seq<char>, i: int) -> Option<int>
    decreases s.len() - i,
{
    if i < 0 || i >= s.len() {
        None
    } else if is_word_sep(s[i]) {
        Some(i)
    } else {
        first_sep(s, i + 1)
    }
}

pub proof fn lemma_first_sep_bounds(s: Seq<char>, i: int)
    requires
        0 <= i,
    ensures
        first_sep(s, i) matches Some(k) ==> i <= k < s.len(),
    decreases s.len() - i,
{
    if i < s.len() && !is_word_sep(s[i]) {
        lemma_first_sep_bounds(s, i + 1);
    }
}

pub proof fn lemma_first_sep_from(s: Seq<char>, k: int, t: int)
    requires
        0 <= k <= t <= s.len(),
        forall|j: int| k <= j < t ==> !is_word_sep(#[trigger] s[j]),
    ensures
        t < s.len() && is_word_sep(s[t]) ==> first_sep(s, k) == Some(t),
        t == s.len() ==> first_sep(s, k) is None,
    decreases t - k,
{
    if k < t {
        lemma_first_sep_from(s, k + 1, t);
    }
}

/// `s.split([',', '[', ']', '\n', ' '])`: the pieces between separators, empty ones included.
pub open spec fn split_words(s: Seq<char>) -> Seq<Seq<char>>
    decreases s.len(),
{
    match first_sep(s, 0) {
        Some(i) => {
            proof {
                lemma_first_sep_bounds(s, 0);
            }
            seq![s.take(i)] + split_words(s.skip(i + 1))
        },
        None => seq![s],
    }
}

/// The subnet name a word names, if it is `aws_subnet.NAME...` with a non-empty NAME.
pub open spec fn subnet_word_name(w: Seq<char>) -> Option<Seq<char>> {
    let t = trim(w);
    if starts_with(t, "aws_subnet."@) {
        let name = before_char(t.skip(11), '.');
        if name.len() > 0 {
            Some(name)
        } else {
            None
        }
    } else {
        None
    }
}

/// Names collected in order, each once.
pub open spec fn collect_subnet_names(ws: Seq<Seq<char>>) -> Seq<Seq<char>>
    decreases ws.len(),
{
    if ws.len() == 0 {
        seq![]
    } else {
        let acc = collect_subnet_names(ws.drop_last());
        match subnet_word_name(ws.last()) {
            Some(n) => if acc.contains(n) {
                acc
            } else {
                acc.push(n)
            },
            None => acc,
        }
    }
}

pub open spec fn spec_extract_subnet_names_from_subnet_group(hcl: Seq<char>) -> Seq<Seq<char>> {
    collect_subnet_names(split_words(hcl))
}

fn split_words_exec(v: &Vec<char>) -> (r: Vec<Vec<char>>)
    ensures
        views(r@) == split_words(v@),
{
    let n = v.len();
    let mut r: Vec<Vec<char>> = Vec::new();
    let mut st: usize = 0;
    let mut i: usize = 0;
    assert(v@.skip(0) =~= v@);
    while i < n
        invariant
            n == v@.len(),
            st <= i <= n,
            split_words(v@) == views(r@) + split_words(v@.skip(st as int)),
            forall|j: int| st <= j < i ==> !is_word_sep(#[trigger] v@[j]),
        decreases n - i,
    {
        let c = v[i];
        if c == ',' || c == '[' || c == ']' || c == '\n' || c == ' ' {
            let ghost s = v@.skip(st as int);
            assert forall|j: int| 0 <= j < (i - st) implies !is_word_sep(#[trigger] s[j]) by {
                assert(s[j] == v@[st + j]);
            }
            assert(s[(i - st) as int] == v@[i as int]);
            proof {
                lemma_first_sep_from(s, 0, (i - st) as int);
            }
            let w = slice_of(v, st, i);
            assert(w@ =~= s.take((i - st) as int));
            assert(s.skip((i - st) + 1) =~= v@.skip(i + 1));
            let ghost prev = views(r@);
            r.push(w);
            assert(views(r@) =~= prev.push(w@));
            assert(split_words(s) == seq![w@] + split_words(v@.skip(i + 1)));
            assert(views(r@) + split_words(v@.skip(i + 1)) =~= prev + (seq![w@] + split_words(v@.skip(i + 1))));
            st = i + 1;
        }
        i += 1;
    }
    let ghost s = v@.skip(st as int);
    assert forall|j: int| 0 <= j < s.len() implies !is_word_sep(#[trigger] s[j]) by {
        assert(s[j] == v@[st + j]);
    }
    proof {
        lemma_first_sep_from(s, 0, s.len() as int);
    }
    let w = slice_of(v, st, n);
    assert(w@ =~= s);
    let ghost prev = views(r@);
    r.push(w);
    assert(views(r@) =~= prev.push(w@));
    assert(views(r@) =~= prev + split_words(s));
    r
}

fn subnet_word_name_exec(w: &Vec<char>) -> (r: Option<Vec<char>>)
    ensures
        crate::text::opt_vec_view(r) == subnet_word_name(w@),
{
    let t = trim_v(w);
    proof {
        reveal_strlit("aws_subnet.");
    }
    if starts_with_exec(&t, "aws_subnet.") {
        let rest = slice_of(&t, 11, t.len());
        assert(rest@ =~= t@.skip(11));
        let name = before_char_v(&rest, '.');
        if name.len() > 0 {
            Some(name)
        } else {
            None
        }
    } else {
        None
    }
}

/// Extract subnet resource names from an `aws_db_subnet_group` or
/// `aws_elasticache_subnet_group` source HCL block.
/// Looks for `aws_subnet.NAME.id` (or `.name`) patterns in the `subnet_ids` list.
pub fn extract_subnet_names_from_subnet_group(hcl: &str) -> (r: Vec<String>)
    ensures
        strs_view(r@) == spec_extract_subnet_names_from_subnet_group(hcl@),
{
    let ws = split_words_exec(&chars_of(hcl));
    let mut names: Vec<String> = Vec::new();
    let mut i: usize = 0;
    assert(views(ws@).take(0) =~= Seq::<Seq<char>>::empty());
    while i < ws.len()
        invariant
            i <= ws@.len(),
            views(ws@) == split_words(hcl@),
            strs_view(names@) == collect_subnet_names(views(ws@).take(i as int)),
        decreases ws@.len() - i,
    {
        assert(views(ws@).take(i + 1).drop_last() =~= views(ws@).take(i as int));
        assert(views(ws@).take(i + 1).last() == ws@[i as int]@);
        match subnet_word_name_exec(&ws[i]) {
            Some(n) => {
                let mut dup = false;
                let mut j: usize = 0;
                while j < names.len()
                    invariant
                        j <= names@.len(),
                        dup <==> exists|k: int| 0 <= k < j && strs_view(names@)[k] == n@,
                    decreases names@.len() - j,
                {
                    let other = chars_of(names[j].as_str());
                    assert(strs_view(names@)[j as int] == names@[j as int]@);
                    if seq_eq(&other, &n) {
                        dup = true;
                    }
                    j += 1;
                }
                let ghost acc = strs_view(names@);
                assert(dup <==> acc.contains(n@)) by {
                    if acc.contains(n@) {
                        let k = choose|k: int| 0 <= k < acc.len() && acc[k] == n@;
                        assert(0 <= k < j && strs_view(names@)[k] == n@);
                    }
                }
                if !dup {
                    names.push(string_of(&n));
                    assert(strs_view(names@) =~= acc.push(n@));
                }
            },
            None => {},
        }
        i += 1;
    }
    assert(views(ws@).take(i as int) =~= views(ws@));
    names
}

/// Replace AWS-specific data source references that leaked into output HCL.
/// Handles patterns like `data.aws_caller_identity.current.account_id`.
/// Also replaces cross-resource AWS refs like `aws_security_group.main.id`.
/// Skips any `aws_` occurrences that are already inside a `<TODO: ...>` marker.
pub fn sanitize_aws_refs(s: String) -> (r: String)
    ensures
        r@ == spec_sanitize_provider_refs(s@, "aws_"@, "aws_"@, "AWS"@),
{
    proof {
        reveal_strlit("aws_");
        reveal_strlit("AWS");
        assert forall|j: int| 0 <= j < "aws_"@.len() implies ref_char(#[trigger] "aws_"@[j], false) by {}
        assert(!"AWS"@.contains('.')) by {
            if "AWS"@.contains('.') {
                let i = choose|i: int| 0 <= i < "AWS"@.len() && "AWS"@[i] == '.';
            }
        }
        assert(!"AWS"@.contains('_')) by {
            if "AWS"@.contains('_') {
                let i = choose|i: int| 0 <= i < "AWS"@.len() && "AWS"@[i] == '_';
            }
        }
        lemma_san_wf_for("aws_"@, "aws_"@, "AWS"@, 3);
        sanitize_ends_when_markers_lack_prefixes(s@, "aws_"@, "aws_"@, "AWS"@);
    }
    sanitize_provider_refs(s, "aws_", "aws_", "AWS")
}

// ── Output reference rewriting tables ─────────────────────────────────────────


pub open spec fn spec_upcloud_type_for_aws(aws_type: Seq<char>) -> Option<Seq<char>> {
    if aws_type == "aws_instance"@ || aws_type == "aws_launch_template"@ || aws_type == "aws_launch_configuration"@ {
        Some("upcloud_server"@)
    } else if aws_type == "aws_lb"@ || aws_type == "aws_alb"@ || aws_type == "aws_elb"@ {
        Some("upcloud_loadbalancer"@)
    } else if aws_type == "aws_vpc"@ {
        Some("upcloud_router"@)
    } else if aws_type == "aws_subnet"@ {
        Some("upcloud_network"@)
    } else if aws_type == "aws_security_group"@ {
        Some("upcloud_firewall_rules"@)
    } else if aws_type == "aws_db_instance"@ || aws_type == "aws_rds_cluster"@ || aws_type == "aws_rds_cluster_instance"@ {
        Some("upcloud_managed_database_postgresql"@)
    } else if aws_type == "aws_elasticache_cluster"@ || aws_type == "aws_elasticache_replication_group"@ {
        Some("upcloud_managed_database_valkey"@)
    } else if aws_type == "aws_eks_cluster"@ {
        Some("upcloud_kubernetes_cluster"@)
    } else if aws_type == "aws_eip"@ {
        Some("upcloud_floating_ip_address"@)
    } else {
        None
    }
}

/// Map an AWS resource type name to its UpCloud equivalent.
pub fn upcloud_type_for_aws(aws_type: &str) -> (r: Option<&'static str>)
    ensures
        r matches Some(x) ==> spec_upcloud_type_for_aws(aws_type@) == Some(x@),
        r is None ==> spec_upcloud_type_for_aws(aws_type@) is None,
{
    let v = chars_of(aws_type);
    if eq_str(&v, "aws_instance") || eq_str(&v, "aws_launch_template") || eq_str(&v, "aws_launch_configuration") {
        Some("upcloud_server")
    } else if eq_str(&v, "aws_lb") || eq_str(&v, "aws_alb") || eq_str(&v, "aws_elb") {
        Some("upcloud_loadbalancer")
    } else if eq_str(&v, "aws_vpc") {
        Some("upcloud_router")
    } else if eq_str(&v, "aws_subnet") {
        Some("upcloud_network")
    } else if eq_str(&v, "aws_security_group") {
        Some("upcloud_firewall_rules")
    } else if eq_str(&v, "aws_db_instance") || eq_str(&v, "aws_rds_cluster") || eq_str(&v, "aws_rds_cluster_instance") {
        Some("upcloud_managed_database_postgresql")
    } else if eq_str(&v, "aws_elasticache_cluster") || eq_str(&v, "aws_elasticache_replication_group") {
        Some("upcloud_managed_database_valkey")
    } else if eq_str(&v, "aws_eks_cluster") {
        Some("upcloud_kubernetes_cluster")
    } else if eq_str(&v, "aws_eip") {
        Some("upcloud_floating_ip_address")
    } else {
        None
    }
}

pub open spec fn spec_upcloud_resource_name_for(aws_type: Seq<char>, resource_name: Seq<char>) -> Seq<char> {
    if aws_type == "aws_vpc"@ {
        resource_name + "_router"@
    } else {
        resource_name
    }
}

/// Map an AWS resource type name to its UpCloud resource name.
/// Some AWS resource types get a suffix appended to their name in the UpCloud mapping.
/// E.g. aws_vpc "main" → upcloud_router "main_router".
pub fn upcloud_resource_name_for(aws_type: &str, resource_name: &str) -> (r: String)
    ensures
        r@ == spec_upcloud_resource_name_for(aws_type@, resource_name@),
{
    let mut s = String::from_str(resource_name);
    if eq_str(&chars_of(aws_type), "aws_vpc") {
        push_str(&mut s, "_router");
    }
    s
}

/// UpCloud attribute for an AWS attribute on a given UpCloud type; `None` where
/// there is no direct equivalent.
pub open spec fn spec_upcloud_attr_for(upcloud_type: Seq<char>, aws_attr: Seq<char>) -> Option<Seq<char>> {
    let t = upcloud_type;
    let a = aws_attr;
    let db = starts_with(t, "upcloud_managed_database"@);
    if t == "upcloud_server"@ && a == "id"@ {
        Some("id"@)
    } else if t == "upcloud_server"@ && a == "public_ip"@ {
        Some("network_interface[0].ip_address"@)
    } else if t == "upcloud_server"@ && a == "private_ip"@ {
        Some("network_interface[1].ip_address"@)
    } else if t == "upcloud_loadbalancer"@ && a == "id"@ {
        Some("id"@)
    } else if t == "upcloud_loadbalancer"@ && a == "dns_name"@ {
        None
    } else if t == "upcloud_router"@ && a == "id"@ {
        Some("id"@)
    } else if t == "upcloud_network"@ && a == "id"@ {
        Some("id"@)
    } else if t == "upcloud_network"@ && a == "cidr_block"@ {
        Some("ip_network[0].address"@)
    } else if t == "upcloud_firewall_rules"@ && a == "id"@ {
        Some("id"@)
    } else if db && a == "id"@ {
        Some("id"@)
    } else if db && a == "endpoint"@ {
        Some("service_host"@)
    } else if db && a == "address"@ {
        Some("service_host"@)
    } else if db && a == "port"@ {
        Some("service_port"@)
    } else if db && a == "username"@ {
        Some("service_username"@)
    } else if db && a == "password"@ {
        Some("service_password"@)
    } else if db && a == "primary_endpoint_address"@ {
        Some("service_host"@)
    } else if t == "upcloud_kubernetes_cluster"@ && a == "id"@ {
        Some("id"@)
    } else if t == "upcloud_kubernetes_cluster"@ && a == "name"@ {
        Some("name"@)
    } else if t == "upcloud_floating_ip_address"@ && a == "id"@ {
        Some("id"@)
    } else if t == "upcloud_floating_ip_address"@ && a == "public_ip"@ {
        Some("ip_address"@)
    } else if t == "upcloud_floating_ip_address"@ && a == "allocation_id"@ {
        Some("id"@)
    } else {
        None
    }
}

/// Map an AWS attribute name to its UpCloud equivalent for a given UpCloud type.
/// Returns `None` for attributes with no direct equivalent (caller injects a TODO).
pub fn upcloud_attr_for(upcloud_type: &str, aws_attr: &str) -> (r: Option<&'static str>)
    ensures
        r matches Some(x) ==> spec_upcloud_attr_for(upcloud_type@, aws_attr@) == Some(x@),
        r is None ==> spec_upcloud_attr_for(upcloud_type@, aws_attr@) is None,
{
    let t = chars_of(upcloud_type);
    let a = chars_of(aws_attr);
    let db = starts_with_exec(&t, "upcloud_managed_database");
    if eq_str(&t, "upcloud_server") && eq_str(&a, "id") {
        Some("id")
    } else if eq_str(&t, "upcloud_server") && eq_str(&a, "public_ip") {
        Some("network_interface[0].ip_address")
    } else if eq_str(&t, "upcloud_server") && eq_str(&a, "private_ip") {
        Some("network_interface[1].ip_address")
    } else if eq_str(&t, "upcloud_loadbalancer") && eq_str(&a, "id") {
        Some("id")
    } else if eq_str(&t, "upcloud_loadbalancer") && eq_str(&a, "dns_name") {
        None
    } else if eq_str(&t, "upcloud_router") && eq_str(&a, "id") {
        Some("id")
    } else if eq_str(&t, "upcloud_network") && eq_str(&a, "id") {
        Some("id")
    } else if eq_str(&t, "upcloud_network") && eq_str(&a, "cidr_block") {
        Some("ip_network[0].address")
    } else if eq_str(&t, "upcloud_firewall_rules") && eq_str(&a, "id") {
        Some("id")
    } else if db && eq_str(&a, "id") {
        Some("id")
    } else if db && eq_str(&a, "endpoint") {
        Some("service_host")
    } else if db && eq_str(&a, "address") {
        Some("service_host")
    } else if db && eq_str(&a, "port") {
        Some("service_port")
    } else if db && eq_str(&a, "username") {
        Some("service_username")
    } else if db && eq_str(&a, "password") {
        Some("service_password")
    } else if db && eq_str(&a, "primary_endpoint_address") {
        Some("service_host")
    } else if eq_str(&t, "upcloud_kubernetes_cluster") && eq_str(&a, "id") {
        Some("id")
    } else if eq_str(&t, "upcloud_kubernetes_cluster") && eq_str(&a, "name") {
        Some("name")
    } else if eq_str(&t, "upcloud_floating_ip_address") && eq_str(&a, "id") {
        Some("id")
    } else if eq_str(&t, "upcloud_floating_ip_address") && eq_str(&a, "public_ip") {
        Some("ip_address")
    } else if eq_str(&t, "upcloud_floating_ip_address") && eq_str(&a, "allocation_id") {
        Some("id")
    } else {
        None
    }
}



/// The lookup key of an attribute path: its text before the first `[` or `.`.
pub open spec fn attr_key(p: Seq<char>) -> Seq<char>
    decreases p.len(),
{
    if p.len() == 0 || p[0] == '[' || p[0] == '.' {
        seq![]
    } else {
        seq![p[0]] + attr_key(p.drop_first())
    }
}

pub fn attr_key_exec(p: &Vec<char>) -> (r: Vec<char>)
    ensures
        r@ == attr_key(p@),
{
    let mut r: Vec<char> = Vec::new();
    let mut i: usize = 0;
    assert(p@.skip(0) =~= p@);
    while i < p.len() && p[i] != '[' && p[i] != '.'
        invariant
            i <= p@.len(),
            attr_key(p@) == r@ + attr_key(p@.skip(i as int)),
        decreases p@.len() - i,
    {
        assert(p@.skip(i as int).drop_first() =~= p@.skip(i + 1));
        let ghost prev = r@;
        r.push(p[i]);
        assert(r@ =~= prev + seq![p@[i as int]]);
        i += 1;
    }
    assert(attr_key(p@.skip(i as int)) =~= Seq::<char>::empty());
    assert(r@ + Seq::<char>::empty() =~= r@);
    r
}

/// The UpCloud text for an AWS reference `TYPE.NAME.ATTR...`: the public DNS name
/// of a load balancer network for `dns_name`; the mapped type, name and attribute;
/// a quoted TODO when the attribute or the type has no equivalent.
pub open spec fn aws_new_ref(c: Seq<char>) -> Seq<char> {
    let (p0, r1) = split_dot(c);
    let (p1, p2) = split_dot(r1);
    let key = attr_key(p2);
    match spec_upcloud_type_for_aws(p0) {
        Some(uc) => {
            let name = spec_upcloud_resource_name_for(p0, p1);
            if uc == "upcloud_loadbalancer"@ && key == "dns_name"@ {
                "[for n in "@ + uc + "."@ + name + ".networks : n.dns_name if n.type == \"public\"][0]"@
            } else {
                match spec_upcloud_attr_for(uc, key) {
                    Some(a) => uc + "."@ + name + "."@ + a,
                    None => "\"<TODO: was "@ + uc + "."@ + name + "."@ + p2 + ", check UpCloud provider docs>\""@,
                }
            }
        },
        None => "\"<TODO: was "@ + c + ", no known UpCloud equivalent>\""@,
    }
}

fn aws_new_ref_exec(c: &Vec<char>) -> (r: Vec<char>)
    ensures
        r@ == aws_new_ref(c@),
{
    let (p0, r1) = split_dot_exec(c);
    let (p1, p2) = split_dot_exec(&r1);
    let key = attr_key_exec(&p2);
    let p0s = string_of(&p0);
    let mut out = String::new();
    match upcloud_type_for_aws(p0s.as_str()) {
        Some(uc) => {
            let name = upcloud_resource_name_for(p0s.as_str(), string_of(&p1).as_str());
            if eq_str(&chars_of(uc), "upcloud_loadbalancer") && eq_str(&key, "dns_name") {
                push_str(&mut out, "[for n in ");
                push_str(&mut out, uc);
                push_str(&mut out, ".");
                push_str(&mut out, name.as_str());
                push_str(&mut out, ".networks : n.dns_name if n.type == \"public\"][0]");
            } else {
                let ks = string_of(&key);
                match upcloud_attr_for(uc, ks.as_str()) {
                    Some(a) => {
                        push_str(&mut out, uc);
                        push_str(&mut out, ".");
                        push_str(&mut out, name.as_str());
                        push_str(&mut out, ".");
                        push_str(&mut out, a);
                    },
                    None => {
                        push_str(&mut out, "\"<TODO: was ");
                        push_str(&mut out, uc);
                        push_str(&mut out, ".");
                        push_str(&mut out, name.as_str());
                        push_str(&mut out, ".");
                        push_vec(&mut out, &p2);
                        push_str(&mut out, ", check UpCloud provider docs>\"");
                    },
                }
            }
        },
        None => {
            push_str(&mut out, "\"<TODO: was ");
            push_vec(&mut out, c);
            push_str(&mut out, ", no known UpCloud equivalent>\"");
        },
    }
    chars_of(out.as_str())
}

/// At most `fuel` steps of the rewriting scan from `from`; `None` when they do not
/// suffice. Each `aws_` reference outside a TODO marker with at least two dots has
/// its first occurrence in the text replaced by [`aws_new_ref`], and the scan starts
/// over; shorter references are passed over.
pub open spec fn aws_rw_fuel(s: Seq<char>, from: int, fuel: nat) -> Option<Seq<char>>
    decreases fuel,
{
    if fuel == 0 {
        None
    } else if from < 0 || from > s.len() {
        Some(s)
    } else {
        match find_from(s, "aws_"@, from) {
            None => Some(s),
            Some(start) => {
                if spec_inside_todo_marker(s, start) {
                    aws_rw_fuel(s, start + 4, (fuel - 1) as nat)
                } else {
                    let end = ref_end(s, start, true);
                    let cand = s.subrange(start, end);
                    if count_char(cand, '.') < 2 {
                        aws_rw_fuel(s, end, (fuel - 1) as nat)
                    } else {
                        aws_rw_fuel(replace_first(s, cand, aws_new_ref(cand)), 0, (fuel - 1) as nat)
                    }
                }
            },
        }
    }
}

/// The scan ends on `s`.
pub open spec fn aws_rw_terminates(s: Seq<char>) -> bool {
    exists|f: nat| aws_rw_fuel(s, 0, f) is Some
}

/// The text the scan ends with.
pub open spec fn spec_aws_rewrite(s: Seq<char>) -> Seq<char> {
    let f = choose|f: nat| aws_rw_fuel(s, 0, f) is Some;
    match aws_rw_fuel(s, 0, f) {
        Some(r) => r,
        None => s,
    }
}

/// Runs of the scan that end give the same text, whatever the fuel.
pub proof fn lemma_aws_rw_fuel_det(s: Seq<char>, from: int, f1: nat, f2: nat)
    requires
        aws_rw_fuel(s, from, f1) is Some,
        aws_rw_fuel(s, from, f2) is Some,
    ensures
        aws_rw_fuel(s, from, f1) == aws_rw_fuel(s, from, f2),
    decreases f1,
{
    if f1 > 0 && f2 > 0 && 0 <= from <= s.len() {
        match find_from(s, "aws_"@, from) {
            None => {},
            Some(start) => {
                if spec_inside_todo_marker(s, start) {
                    lemma_aws_rw_fuel_det(s, start + 4, (f1 - 1) as nat, (f2 - 1) as nat);
                } else {
                    let end = ref_end(s, start, true);
                    let cand = s.subrange(start, end);
                    if count_char(cand, '.') < 2 {
                        lemma_aws_rw_fuel_det(s, end, (f1 - 1) as nat, (f2 - 1) as nat);
                    } else {
                        lemma_aws_rw_fuel_det(
                            replace_first(s, cand, aws_new_ref(cand)),
                            0,
                            (f1 - 1) as nat,
                            (f2 - 1) as nat,
                        );
                    }
                }
            },
        }
    }
}

/// Rewrite AWS resource references in output/locals blocks to UpCloud equivalents.
/// When the attribute has no direct mapping a quoted `<TODO: was ...>` is written so it
/// surfaces in the TODO review screen. Unknown AWS resource types get a full
/// `<TODO: was aws_type.name.attr>` replacement.
///
/// Each replacement rewrites the first occurrence of the reference text and starts
/// the scan over, so the scan need not end (for instance when a TODO marker already
/// holds the same unknown reference); it is called on texts where it does.
pub fn rewrite_output_refs(s: &str) -> (r: String)
    requires
        aws_rw_terminates(s@),
    ensures
        r@ == spec_aws_rewrite(s@),
        forall|f: nat| aws_rw_fuel(s@, 0, f) is Some ==> aws_rw_fuel(s@, 0, f) == Some(r@),
{
    let ghost f0 = choose|f: nat| aws_rw_fuel(s@, 0, f) is Some;
    let ghost target = aws_rw_fuel(s@, 0, f0)->Some_0;
    let mut cur = chars_of(s);
    let pat = chars_of("aws_");
    let mut from: usize = 0;
    let ghost mut fuel: nat = f0;
    proof {
        reveal_strlit("aws_");
    }
    loop
        invariant
            pat@ == "aws_"@,
            from <= cur@.len(),
            aws_rw_fuel(cur@, from as int, fuel) == Some(target),
        ensures
            cur@ == target,
        decreases fuel,
    {
        match find_from_exec(&cur, &pat, from) {
            None => {
                break;
            },
            Some(start) => {
                proof {
                    lemma_find_from_bounds(cur@, "aws_"@, from as int);
                    reveal_strlit("aws_");
                }
                let n = cur.len();
                if inside_todo_marker(&cur, start) {
                    assert(start + 4 <= n);
                    from = start + 4;
                } else {
                    let end = ref_end_exec(&cur, start, true);
                    let cand = slice_of(&cur, start, end);
                    if count_char_v(&cand, '.') < 2 {
                        from = end;
                    } else {
                        let nr = aws_new_ref_exec(&cand);
                        cur = replace_first_v(&cur, &cand, &nr);
                        from = 0;
                    }
                }
                proof {
                    fuel = (fuel - 1) as nat;
                }
            },
        }
    }
    proof {
        assert forall|f: nat| aws_rw_fuel(s@, 0, f) is Some implies aws_rw_fuel(s@, 0, f) == Some(cur@) by {
            lemma_aws_rw_fuel_det(s@, 0, f, f0);
        }
    }
    string_of(&cur)
}

/// The rewriting leaves text without an `aws_` reference as it is (and ends on it).
pub proof fn aws_rewrite_keeps_text_without_refs(s: Seq<char>)
    requires
        !crate::text::contains(s, "aws_"@),
    ensures
        aws_rw_terminates(s),
        spec_aws_rewrite(s) == s,
{
    assert(aws_rw_fuel(s, 0, 1) == Some(s));
    let f = choose|f: nat| aws_rw_fuel(s, 0, f) is Some;
    lemma_aws_rw_fuel_det(s, 0, f, 1);
}

/// The rewriting with at most `fuel` steps: its result when the scan ends within them,
/// `None` when it does not.
pub fn rewrite_output_refs_bounded(s: &str, fuel: u64) -> (r: Option<String>)
    ensures
        match r {
            Some(x) => aws_rw_fuel(s@, 0, fuel as nat) == Some(x@),
            None => aws_rw_fuel(s@, 0, fuel as nat) is None,
        },
{
    let mut cur = chars_of(s);
    let pat = chars_of("aws_");
    let mut from: usize = 0;
    let mut left: u64 = fuel;
    proof {
        reveal_strlit("aws_");
    }
    loop
        invariant
            pat@ == "aws_"@,
            from <= cur@.len(),
            aws_rw_fuel(cur@, from as int, left as nat) == aws_rw_fuel(s@, 0, fuel as nat),
        decreases left,
    {
        if left == 0 {
            return None;
        }
        match find_from_exec(&cur, &pat, from) {
            None => {
                return Some(string_of(&cur));
            },
            Some(start) => {
                proof {
                    lemma_find_from_bounds(cur@, "aws_"@, from as int);
                    reveal_strlit("aws_");
                }
                let n = cur.len();
                if inside_todo_marker(&cur, start) {
                    assert(start + 4 <= n);
                    from = start + 4;
                } else {
                    let end = ref_end_exec(&cur, start, true);
                    let cand = slice_of(&cur, start, end);
                    if count_char_v(&cand, '.') < 2 {
                        from = end;
                    } else {
                        let nr = aws_new_ref_exec(&cand);
                        cur = replace_first_v(&cur, &cand, &nr);
                        from = 0;
                    }
                }
                left = left - 1;
            },
        }
    }
}

/// The AWS resource types that have an UpCloud counterpart, and that counterpart
/// (instances and launch templates to servers, load balancers to load balancers, VPCs to
/// routers, subnets to networks, security groups to firewall rules, RDS to PostgreSQL,
/// ElastiCache to Valkey, EKS to Kubernetes, EIPs to floating IPs); no other type has one.
pub proof fn aws_type_upcloud_table(aws_type: Seq<char>)
    ensures
        spec_upcloud_type_for_aws("aws_instance"@) == Some("upcloud_server"@),
        spec_upcloud_type_for_aws("aws_launch_template"@) == Some("upcloud_server"@),
        spec_upcloud_type_for_aws("aws_launch_configuration"@) == Some("upcloud_server"@),
        spec_upcloud_type_for_aws("aws_lb"@) == Some("upcloud_loadbalancer"@),
        spec_upcloud_type_for_aws("aws_alb"@) == Some("upcloud_loadbalancer"@),
        spec_upcloud_type_for_aws("aws_elb"@) == Some("upcloud_loadbalancer"@),
        spec_upcloud_type_for_aws("aws_vpc"@) == Some("upcloud_router"@),
        spec_upcloud_type_for_aws("aws_subnet"@) == Some("upcloud_network"@),
        spec_upcloud_type_for_aws("aws_security_group"@) == Some("upcloud_firewall_rules"@),
        spec_upcloud_type_for_aws("aws_db_instance"@) == Some("upcloud_managed_database_postgresql"@),
        spec_upcloud_type_for_aws("aws_rds_cluster"@) == Some("upcloud_managed_database_postgresql"@),
        spec_upcloud_type_for_aws("aws_rds_cluster_instance"@) == Some("upcloud_managed_database_postgresql"@),
        spec_upcloud_type_for_aws("aws_elasticache_cluster"@) == Some("upcloud_managed_database_valkey"@),
        spec_upcloud_type_for_aws("aws_elasticache_replication_group"@) == Some("upcloud_managed_database_valkey"@),
        spec_upcloud_type_for_aws("aws_eks_cluster"@) == Some("upcloud_kubernetes_cluster"@),
        spec_upcloud_type_for_aws("aws_eip"@) == Some("upcloud_floating_ip_address"@),
        spec_upcloud_type_for_aws(aws_type) is Some ==> (aws_type == "aws_instance"@ || aws_type == "aws_launch_template"@ || aws_type == "aws_launch_configuration"@ || aws_type == "aws_lb"@ || aws_type == "aws_alb"@ || aws_type == "aws_elb"@ || aws_type == "aws_vpc"@ || aws_type == "aws_subnet"@ || aws_type == "aws_security_group"@ || aws_type == "aws_db_instance"@ || aws_type == "aws_rds_cluster"@ || aws_type == "aws_rds_cluster_instance"@ || aws_type == "aws_elasticache_cluster"@ || aws_type == "aws_elasticache_replication_group"@ || aws_type == "aws_eks_cluster"@ || aws_type == "aws_eip"@),
{
    reveal_strlit("aws_instance");
    assert("aws_instance"@[0] == 'a');
    assert("aws_instance"@[1] == 'w');
    assert("aws_instance"@[2] == 's');
    assert("aws_instance"@[3] == '_');
    assert("aws_instance"@[4] == 'i');
    assert("aws_instance"@[5] == 'n');
    assert("aws_instance"@[6] == 's');
    assert("aws_instance"@[7] == 't');
    assert("aws_instance"@[8] == 'a');
    assert("aws_instance"@[9] == 'n');
    assert("aws_instance"@[10] == 'c');
    assert("aws_instance"@[11] == 'e');
    reveal_strlit("aws_launch_template");
    assert("aws_launch_template"@[0] == 'a');
    assert("aws_launch_template"@[1] == 'w');
    assert("aws_launch_template"@[2] == 's');
    assert("aws_launch_template"@[3] == '_');
    assert("aws_launch_template"@[4] == 'l');
    assert("aws_launch_template"@[5] == 'a');
    assert("aws_launch_template"@[6] == 'u');
    assert("aws_launch_template"@[7] == 'n');
    assert("aws_launch_template"@[8] == 'c');
    assert("aws_launch_template"@[9] == 'h');
    assert("aws_launch_template"@[10] == '_');
    assert("aws_launch_template"@[11] == 't');
    assert("aws_launch_template"@[12] == 'e');
    assert("aws_launch_template"@[13] == 'm');
    assert("aws_launch_template"@[14] == 'p');
    assert("aws_launch_template"@[15] == 'l');
    assert("aws_launch_template"@[16] == 'a');
    assert("aws_launch_template"@[17] == 't');
    assert("aws_launch_template"@[18] == 'e');
    reveal_strlit("aws_launch_configuration");
    assert("aws_launch_configuration"@[0] == 'a');
    assert("aws_launch_configuration"@[1] == 'w');
    assert("aws_launch_configuration"@[2] == 's');
    assert("aws_launch_configuration"@[3] == '_');
    assert("aws_launch_configuration"@[4] == 'l');
    assert("aws_launch_configuration"@[5] == 'a');
    assert("aws_launch_configuration"@[6] == 'u');
    assert("aws_launch_configuration"@[7] == 'n');
    assert("aws_launch_configuration"@[8] == 'c');
    assert("aws_launch_configuration"@[9] == 'h');
    assert("aws_launch_configuration"@[10] == '_');
    assert("aws_launch_configuration"@[11] == 'c');
    assert("aws_launch_configuration"@[12] == 'o');
    assert("aws_launch_configuration"@[13] == 'n');
    assert("aws_launch_configuration"@[14] == 'f');
    assert("aws_launch_configuration"@[15] == 'i');
    assert("aws_launch_configuration"@[16] == 'g');
    assert("aws_launch_configuration"@[17] == 'u');
    assert("aws_launch_configuration"@[18] == 'r');
    assert("aws_launch_configuration"@[19] == 'a');
    assert("aws_launch_configuration"@[20] == 't');
    assert("aws_launch_configuration"@[21] == 'i');
    assert("aws_launch_configuration"@[22] == 'o');
    assert("aws_launch_configuration"@[23] == 'n');
    reveal_strlit("aws_lb");
    assert("aws_lb"@[0] == 'a');
    assert("aws_lb"@[1] == 'w');
    assert("aws_lb"@[2] == 's');
    assert("aws_lb"@[3] == '_');
    assert("aws_lb"@[4] == 'l');
    assert("aws_lb"@[5] == 'b');
    reveal_strlit("aws_alb");
    assert("aws_alb"@[0] == 'a');
    assert("aws_alb"@[1] == 'w');
    assert("aws_alb"@[2] == 's');
    assert("aws_alb"@[3] == '_');
    assert("aws_alb"@[4] == 'a');
    assert("aws_alb"@[5] == 'l');
    assert("aws_alb"@[6] == 'b');
    reveal_strlit("aws_elb");
    assert("aws_elb"@[0] == 'a');
    assert("aws_elb"@[1] == 'w');
    assert("aws_elb"@[2] == 's');
    assert("aws_elb"@[3] == '_');
    assert("aws_elb"@[4] == 'e');
    assert("aws_elb"@[5] == 'l');
    assert("aws_elb"@[6] == 'b');
    reveal_strlit("aws_vpc");
    assert("aws_vpc"@[0] == 'a');
    assert("aws_vpc"@[1] == 'w');
    assert("aws_vpc"@[2] == 's');
    assert("aws_vpc"@[3] == '_');
    assert("aws_vpc"@[4] == 'v');
    assert("aws_vpc"@[5] == 'p');
    assert("aws_vpc"@[6] == 'c');
    reveal_strlit("aws_subnet");
    assert("aws_subnet"@[0] == 'a');
    assert("aws_subnet"@[1] == 'w');
    assert("aws_subnet"@[2] == 's');
    assert("aws_subnet"@[3] == '_');
    assert("aws_subnet"@[4] == 's');
    assert("aws_subnet"@[5] == 'u');
    assert("aws_subnet"@[6] == 'b');
    assert("aws_subnet"@[7] == 'n');
    assert("aws_subnet"@[8] == 'e');
    assert("aws_subnet"@[9] == 't');
    reveal_strlit("aws_security_group");
    assert("aws_security_group"@[0] == 'a');
    assert("aws_security_group"@[1] == 'w');
    assert("aws_security_group"@[2] == 's');
    assert("aws_security_group"@[3] == '_');
    assert("aws_security_group"@[4] == 's');
    assert("aws_security_group"@[5] == 'e');
    assert("aws_security_group"@[6] == 'c');
    assert("aws_security_group"@[7] == 'u');
    assert("aws_security_group"@[8] == 'r');
    assert("aws_security_group"@[9] == 'i');
    assert("aws_security_group"@[10] == 't');
    assert("aws_security_group"@[11] == 'y');
    assert("aws_security_group"@[12] == '_');
    assert("aws_security_group"@[13] == 'g');
    assert("aws_security_group"@[14] == 'r');
    assert("aws_security_group"@[15] == 'o');
    assert("aws_security_group"@[16] == 'u');
    assert("aws_security_group"@[17] == 'p');
    reveal_strlit("aws_db_instance");
    assert("aws_db_instance"@[0] == 'a');
    assert("aws_db_instance"@[1] == 'w');
    assert("aws_db_instance"@[2] == 's');
    assert("aws_db_instance"@[3] == '_');
    assert("aws_db_instance"@[4] == 'd');
    assert("aws_db_instance"@[5] == 'b');
    assert("aws_db_instance"@[6] == '_');
    assert("aws_db_instance"@[7] == 'i');
    assert("aws_db_instance"@[8] == 'n');
    assert("aws_db_instance"@[9] == 's');
    assert("aws_db_instance"@[10] == 't');
    assert("aws_db_instance"@[11] == 'a');
    assert("aws_db_instance"@[12] == 'n');
    assert("aws_db_instance"@[13] == 'c');
    assert("aws_db_instance"@[14] == 'e');
    reveal_strlit("aws_rds_cluster");
    assert("aws_rds_cluster"@[0] == 'a');
    assert("aws_rds_cluster"@[1] == 'w');
    assert("aws_rds_cluster"@[2] == 's');
    assert("aws_rds_cluster"@[3] == '_');
    assert("aws_rds_cluster"@[4] == 'r');
    assert("aws_rds_cluster"@[5] == 'd');
    assert("aws_rds_cluster"@[6] == 's');
    assert("aws_rds_cluster"@[7] == '_');
    assert("aws_rds_cluster"@[8] == 'c');
    assert("aws_rds_cluster"@[9] == 'l');
    assert("aws_rds_cluster"@[10] == 'u');
    assert("aws_rds_cluster"@[11] == 's');
    assert("aws_rds_cluster"@[12] == 't');
    assert("aws_rds_cluster"@[13] == 'e');
    assert("aws_rds_cluster"@[14] == 'r');
    reveal_strlit("aws_rds_cluster_instance");
    assert("aws_rds_cluster_instance"@[0] == 'a');
    assert("aws_rds_cluster_instance"@[1] == 'w');
    assert("aws_rds_cluster_instance"@[2] == 's');
    assert("aws_rds_cluster_instance"@[3] == '_');
    assert("aws_rds_cluster_instance"@[4] == 'r');
    assert("aws_rds_cluster_instance"@[5] == 'd');
    assert("aws_rds_cluster_instance"@[6] == 's');
    assert("aws_rds_cluster_instance"@[7] == '_');
    assert("aws_rds_cluster_instance"@[8] == 'c');
    assert("aws_rds_cluster_instance"@[9] == 'l');
    assert("aws_rds_cluster_instance"@[10] == 'u');
    assert("aws_rds_cluster_instance"@[11] == 's');
    assert("aws_rds_cluster_instance"@[12] == 't');
    assert("aws_rds_cluster_instance"@[13] == 'e');
    assert("aws_rds_cluster_instance"@[14] == 'r');
    assert("aws_rds_cluster_instance"@[15] == '_');
    assert("aws_rds_cluster_instance"@[16] == 'i');
    assert("aws_rds_cluster_instance"@[17] == 'n');
    assert("aws_rds_cluster_instance"@[18] == 's');
    assert("aws_rds_cluster_instance"@[19] == 't');
    assert("aws_rds_cluster_instance"@[20] == 'a');
    assert("aws_rds_cluster_instance"@[21] == 'n');
    assert("aws_rds_cluster_instance"@[22] == 'c');
    assert("aws_rds_cluster_instance"@[23] == 'e');
    reveal_strlit("aws_elasticache_cluster");
    assert("aws_elasticache_cluster"@[0] == 'a');
    assert("aws_elasticache_cluster"@[1] == 'w');
    assert("aws_elasticache_cluster"@[2] == 's');
    assert("aws_elasticache_cluster"@[3] == '_');
    assert("aws_elasticache_cluster"@[4] == 'e');
    assert("aws_elasticache_cluster"@[5] == 'l');
    assert("aws_elasticache_cluster"@[6] == 'a');
    assert("aws_elasticache_cluster"@[7] == 's');
    assert("aws_elasticache_cluster"@[8] == 't');
    assert("aws_elasticache_cluster"@[9] == 'i');
    assert("aws_elasticache_cluster"@[10] == 'c');
    assert("aws_elasticache_cluster"@[11] == 'a');
    assert("aws_elasticache_cluster"@[12] == 'c');
    assert("aws_elasticache_cluster"@[13] == 'h');
    assert("aws_elasticache_cluster"@[14] == 'e');
    assert("aws_elasticache_cluster"@[15] == '_');
    assert("aws_elasticache_cluster"@[16] == 'c');
    assert("aws_elasticache_cluster"@[17] == 'l');
    assert("aws_elasticache_cluster"@[18] == 'u');
    assert("aws_elasticache_cluster"@[19] == 's');
    assert("aws_elasticache_cluster"@[20] == 't');
    assert("aws_elasticache_cluster"@[21] == 'e');
    assert("aws_elasticache_cluster"@[22] == 'r');
    reveal_strlit("aws_elasticache_replication_group");
    assert("aws_elasticache_replication_group"@[0] == 'a');
    assert("aws_elasticache_replication_group"@[1] == 'w');
    assert("aws_elasticache_replication_group"@[2] == 's');
    assert("aws_elasticache_replication_group"@[3] == '_');
    assert("aws_elasticache_replication_group"@[4] == 'e');
    assert("aws_elasticache_replication_group"@[5] == 'l');
    assert("aws_elasticache_replication_group"@[6] == 'a');
    assert("aws_elasticache_replication_group"@[7] == 's');
    assert("aws_elasticache_replication_group"@[8] == 't');
    assert("aws_elasticache_replication_group"@[9] == 'i');
    assert("aws_elasticache_replication_group"@[10] == 'c');
    assert("aws_elasticache_replication_group"@[11] == 'a');
    assert("aws_elasticache_replication_group"@[12] == 'c');
    assert("aws_elasticache_replication_group"@[13] == 'h');
    assert("aws_elasticache_replication_group"@[14] == 'e');
    assert("aws_elasticache_replication_group"@[15] == '_');
    assert("aws_elasticache_replication_group"@[16] == 'r');
    assert("aws_elasticache_replication_group"@[17] == 'e');
    assert("aws_elasticache_replication_group"@[18] == 'p');
    assert("aws_elasticache_replication_group"@[19] == 'l');
    assert("aws_elasticache_replication_group"@[20] == 'i');
    assert("aws_elasticache_replication_group"@[21] == 'c');
    assert("aws_elasticache_replication_group"@[22] == 'a');
    assert("aws_elasticache_replication_group"@[23] == 't');
    assert("aws_elasticache_replication_group"@[24] == 'i');
    assert("aws_elasticache_replication_group"@[25] == 'o');
    assert("aws_elasticache_replication_group"@[26] == 'n');
    assert("aws_elasticache_replication_group"@[27] == '_');
    assert("aws_elasticache_replication_group"@[28] == 'g');
    assert("aws_elasticache_replication_group"@[29] == 'r');
    assert("aws_elasticache_replication_group"@[30] == 'o');
    assert("aws_elasticache_replication_group"@[31] == 'u');
    assert("aws_elasticache_replication_group"@[32] == 'p');
    reveal_strlit("aws_eks_cluster");
    assert("aws_eks_cluster"@[0] == 'a');
    assert("aws_eks_cluster"@[1] == 'w');
    assert("aws_eks_cluster"@[2] == 's');
    assert("aws_eks_cluster"@[3] == '_');
    assert("aws_eks_cluster"@[4] == 'e');
    assert("aws_eks_cluster"@[5] == 'k');
    assert("aws_eks_cluster"@[6] == 's');
    assert("aws_eks_cluster"@[7] == '_');
    assert("aws_eks_cluster"@[8] == 'c');
    assert("aws_eks_cluster"@[9] == 'l');
    assert("aws_eks_cluster"@[10] == 'u');
    assert("aws_eks_cluster"@[11] == 's');
    assert("aws_eks_cluster"@[12] == 't');
    assert("aws_eks_cluster"@[13] == 'e');
    assert("aws_eks_cluster"@[14] == 'r');
    reveal_strlit("aws_eip");
    assert("aws_eip"@[0] == 'a');
    assert("aws_eip"@[1] == 'w');
    assert("aws_eip"@[2] == 's');
    assert("aws_eip"@[3] == '_');
    assert("aws_eip"@[4] == 'e');
    assert("aws_eip"@[5] == 'i');
    assert("aws_eip"@[6] == 'p');
}

/// The UpCloud attribute an output reference to an AWS attribute is rewritten to, per
/// UpCloud type: ids stay ids, public and private IPs become the server's first and
/// second interface addresses, database endpoints, ports and credentials become the
/// managed database's service fields; a load balancer's DNS name has none.
pub proof fn aws_attr_upcloud_table(t: Seq<char>)
    ensures
        spec_upcloud_attr_for("upcloud_server"@, "id"@) == Some("id"@),
        spec_upcloud_attr_for("upcloud_server"@, "public_ip"@) == Some("network_interface[0].ip_address"@),
        spec_upcloud_attr_for("upcloud_server"@, "private_ip"@) == Some("network_interface[1].ip_address"@),
        spec_upcloud_attr_for("upcloud_loadbalancer"@, "id"@) == Some("id"@),
        spec_upcloud_attr_for("upcloud_loadbalancer"@, "dns_name"@) is None,
        spec_upcloud_attr_for("upcloud_router"@, "id"@) == Some("id"@),
        spec_upcloud_attr_for("upcloud_network"@, "id"@) == Some("id"@),
        spec_upcloud_attr_for("upcloud_network"@, "cidr_block"@) == Some("ip_network[0].address"@),
        spec_upcloud_attr_for("upcloud_firewall_rules"@, "id"@) == Some("id"@),
        spec_upcloud_attr_for("upcloud_kubernetes_cluster"@, "id"@) == Some("id"@),
        spec_upcloud_attr_for("upcloud_kubernetes_cluster"@, "name"@) == Some("name"@),
        spec_upcloud_attr_for("upcloud_floating_ip_address"@, "id"@) == Some("id"@),
        spec_upcloud_attr_for("upcloud_floating_ip_address"@, "public_ip"@) == Some("ip_address"@),
        spec_upcloud_attr_for("upcloud_floating_ip_address"@, "allocation_id"@) == Some("id"@),
        starts_with(t, "upcloud_managed_database"@) ==> spec_upcloud_attr_for(t, "id"@) == Some("id"@),
        starts_with(t, "upcloud_managed_database"@) ==> spec_upcloud_attr_for(t, "endpoint"@) == Some("service_host"@),
        starts_with(t, "upcloud_managed_database"@) ==> spec_upcloud_attr_for(t, "address"@) == Some("service_host"@),
        starts_with(t, "upcloud_managed_database"@) ==> spec_upcloud_attr_for(t, "port"@) == Some("service_port"@),
        starts_with(t, "upcloud_managed_database"@) ==> spec_upcloud_attr_for(t, "username"@) == Some("service_username"@),
        starts_with(t, "upcloud_managed_database"@) ==> spec_upcloud_attr_for(t, "password"@) == Some("service_password"@),
        starts_with(t, "upcloud_managed_database"@) ==> spec_upcloud_attr_for(t, "primary_endpoint_address"@) == Some("service_host"@),
{
    reveal_strlit("address");
    assert("address"@[0] == 'a');
    assert("address"@[1] == 'd');
    assert("address"@[2] == 'd');
    assert("address"@[3] == 'r');
    assert("address"@[4] == 'e');
    assert("address"@[5] == 's');
    assert("address"@[6] == 's');
    reveal_strlit("allocation_id");
    assert("allocation_id"@[0] == 'a');
    assert("allocation_id"@[1] == 'l');
    assert("allocation_id"@[2] == 'l');
    assert("allocation_id"@[3] == 'o');
    assert("allocation_id"@[4] == 'c');
    assert("allocation_id"@[5] == 'a');
    assert("allocation_id"@[6] == 't');
    assert("allocation_id"@[7] == 'i');
    assert("allocation_id"@[8] == 'o');
    assert("allocation_id"@[9] == 'n');
    assert("allocation_id"@[10] == '_');
    assert("allocation_id"@[11] == 'i');
    assert("allocation_id"@[12] == 'd');
    reveal_strlit("cidr_block");
    assert("cidr_block"@[0] == 'c');
    assert("cidr_block"@[1] == 'i');
    assert("cidr_block"@[2] == 'd');
    assert("cidr_block"@[3] == 'r');
    assert("cidr_block"@[4] == '_');
    assert("cidr_block"@[5] == 'b');
    assert("cidr_block"@[6] == 'l');
    assert("cidr_block"@[7] == 'o');
    assert("cidr_block"@[8] == 'c');
    assert("cidr_block"@[9] == 'k');
    reveal_strlit("dns_name");
    assert("dns_name"@[0] == 'd');
    assert("dns_name"@[1] == 'n');
    assert("dns_name"@[2] == 's');
    assert("dns_name"@[3] == '_');
    assert("dns_name"@[4] == 'n');
    assert("dns_name"@[5] == 'a');
    assert("dns_name"@[6] == 'm');
    assert("dns_name"@[7] == 'e');
    reveal_strlit("endpoint");
    assert("endpoint"@[0] == 'e');
    assert("endpoint"@[1] == 'n');
    assert("endpoint"@[2] == 'd');
    assert("endpoint"@[3] == 'p');
    assert("endpoint"@[4] == 'o');
    assert("endpoint"@[5] == 'i');
    assert("endpoint"@[6] == 'n');
    assert("endpoint"@[7] == 't');
    reveal_strlit("id");
    assert("id"@[0] == 'i');
    assert("id"@[1] == 'd');
    reveal_strlit("name");
    assert("name"@[0] == 'n');
    assert("name"@[1] == 'a');
    assert("name"@[2] == 'm');
    assert("name"@[3] == 'e');
    reveal_strlit("password");
    assert("password"@[0] == 'p');
    assert("password"@[1] == 'a');
    assert("password"@[2] == 's');
    assert("password"@[3] == 's');
    assert("password"@[4] == 'w');
    assert("password"@[5] == 'o');
    assert("password"@[6] == 'r');
    assert("password"@[7] == 'd');
    reveal_strlit("port");
    assert("port"@[0] == 'p');
    assert("port"@[1] == 'o');
    assert("port"@[2] == 'r');
    assert("port"@[3] == 't');
    reveal_strlit("primary_endpoint_address");
    assert("primary_endpoint_address"@[0] == 'p');
    assert("primary_endpoint_address"@[1] == 'r');
    assert("primary_endpoint_address"@[2] == 'i');
    assert("primary_endpoint_address"@[3] == 'm');
    assert("primary_endpoint_address"@[4] == 'a');
    assert("primary_endpoint_address"@[5] == 'r');
    assert("primary_endpoint_address"@[6] == 'y');
    assert("primary_endpoint_address"@[7] == '_');
    assert("primary_endpoint_address"@[8] == 'e');
    assert("primary_endpoint_address"@[9] == 'n');
    assert("primary_endpoint_address"@[10] == 'd');
    assert("primary_endpoint_address"@[11] == 'p');
    assert("primary_endpoint_address"@[12] == 'o');
    assert("primary_endpoint_address"@[13] == 'i');
    assert("primary_endpoint_address"@[14] == 'n');
    assert("primary_endpoint_address"@[15] == 't');
    assert("primary_endpoint_address"@[16] == '_');
    assert("primary_endpoint_address"@[17] == 'a');
    assert("primary_endpoint_address"@[18] == 'd');
    assert("primary_endpoint_address"@[19] == 'd');
    assert("primary_endpoint_address"@[20] == 'r');
    assert("primary_endpoint_address"@[21] == 'e');
    assert("primary_endpoint_address"@[22] == 's');
    assert("primary_endpoint_address"@[23] == 's');
    reveal_strlit("private_ip");
    assert("private_ip"@[0] == 'p');
    assert("private_ip"@[1] == 'r');
    assert("private_ip"@[2] == 'i');
    assert("private_ip"@[3] == 'v');
    assert("private_ip"@[4] == 'a');
    assert("private_ip"@[5] == 't');
    assert("private_ip"@[6] == 'e');
    assert("private_ip"@[7] == '_');
    assert("private_ip"@[8] == 'i');
    assert("private_ip"@[9] == 'p');
    reveal_strlit("public_ip");
    assert("public_ip"@[0] == 'p');
    assert("public_ip"@[1] == 'u');
    assert("public_ip"@[2] == 'b');
    assert("public_ip"@[3] == 'l');
    assert("public_ip"@[4] == 'i');
    assert("public_ip"@[5] == 'c');
    assert("public_ip"@[6] == '_');
    assert("public_ip"@[7] == 'i');
    assert("public_ip"@[8] == 'p');
    reveal_strlit("upcloud_firewall_rules");
    assert("upcloud_firewall_rules"@[0] == 'u');
    assert("upcloud_firewall_rules"@[1] == 'p');
    assert("upcloud_firewall_rules"@[2] == 'c');
    assert("upcloud_firewall_rules"@[3] == 'l');
    assert("upcloud_firewall_rules"@[4] == 'o');
    assert("upcloud_firewall_rules"@[5] == 'u');
    assert("upcloud_firewall_rules"@[6] == 'd');
    assert("upcloud_firewall_rules"@[7] == '_');
    assert("upcloud_firewall_rules"@[8] == 'f');
    assert("upcloud_firewall_rules"@[9] == 'i');
    assert("upcloud_firewall_rules"@[10] == 'r');
    assert("upcloud_firewall_rules"@[11] == 'e');
    assert("upcloud_firewall_rules"@[12] == 'w');
    assert("upcloud_firewall_rules"@[13] == 'a');
    assert("upcloud_firewall_rules"@[14] == 'l');
    assert("upcloud_firewall_rules"@[15] == 'l');
    assert("upcloud_firewall_rules"@[16] == '_');
    assert("upcloud_firewall_rules"@[17] == 'r');
    assert("upcloud_firewall_rules"@[18] == 'u');
    assert("upcloud_firewall_rules"@[19] == 'l');
    assert("upcloud_firewall_rules"@[20] == 'e');
    assert("upcloud_firewall_rules"@[21] == 's');
    reveal_strlit("upcloud_floating_ip_address");
    assert("upcloud_floating_ip_address"@[0] == 'u');
    assert("upcloud_floating_ip_address"@[1] == 'p');
    assert("upcloud_floating_ip_address"@[2] == 'c');
    assert("upcloud_floating_ip_address"@[3] == 'l');
    assert("upcloud_floating_ip_address"@[4] == 'o');
    assert("upcloud_floating_ip_address"@[5] == 'u');
    assert("upcloud_floating_ip_address"@[6] == 'd');
    assert("upcloud_floating_ip_address"@[7] == '_');
    assert("upcloud_floating_ip_address"@[8] == 'f');
    assert("upcloud_floating_ip_address"@[9] == 'l');
    assert("upcloud_floating_ip_address"@[10] == 'o');
    assert("upcloud_floating_ip_address"@[11] == 'a');
    assert("upcloud_floating_ip_address"@[12] == 't');
    assert("upcloud_floating_ip_address"@[13] == 'i');
    assert("upcloud_floating_ip_address"@[14] == 'n');
    assert("upcloud_floating_ip_address"@[15] == 'g');
    assert("upcloud_floating_ip_address"@[16] == '_');
    assert("upcloud_floating_ip_address"@[17] == 'i');
    assert("upcloud_floating_ip_address"@[18] == 'p');
    assert("upcloud_floating_ip_address"@[19] == '_');
    assert("upcloud_floating_ip_address"@[20] == 'a');
    assert("upcloud_floating_ip_address"@[21] == 'd');
    assert("upcloud_floating_ip_address"@[22] == 'd');
    assert("upcloud_floating_ip_address"@[23] == 'r');
    assert("upcloud_floating_ip_address"@[24] == 'e');
    assert("upcloud_floating_ip_address"@[25] == 's');
    assert("upcloud_floating_ip_address"@[26] == 's');
    reveal_strlit("upcloud_kubernetes_cluster");
    assert("upcloud_kubernetes_cluster"@[0] == 'u');
    assert("upcloud_kubernetes_cluster"@[1] == 'p');
    assert("upcloud_kubernetes_cluster"@[2] == 'c');
    assert("upcloud_kubernetes_cluster"@[3] == 'l');
    assert("upcloud_kubernetes_cluster"@[4] == 'o');
    assert("upcloud_kubernetes_cluster"@[5] == 'u');
    assert("upcloud_kubernetes_cluster"@[6] == 'd');
    assert("upcloud_kubernetes_cluster"@[7] == '_');
    assert("upcloud_kubernetes_cluster"@[8] == 'k');
    assert("upcloud_kubernetes_cluster"@[9] == 'u');
    assert("upcloud_kubernetes_cluster"@[10] == 'b');
    assert("upcloud_kubernetes_cluster"@[11] == 'e');
    assert("upcloud_kubernetes_cluster"@[12] == 'r');
    assert("upcloud_kubernetes_cluster"@[13] == 'n');
    assert("upcloud_kubernetes_cluster"@[14] == 'e');
    assert("upcloud_kubernetes_cluster"@[15] == 't');
    assert("upcloud_kubernetes_cluster"@[16] == 'e');
    assert("upcloud_kubernetes_cluster"@[17] == 's');
    assert("upcloud_kubernetes_cluster"@[18] == '_');
    assert("upcloud_kubernetes_cluster"@[19] == 'c');
    assert("upcloud_kubernetes_cluster"@[20] == 'l');
    assert("upcloud_kubernetes_cluster"@[21] == 'u');
    assert("upcloud_kubernetes_cluster"@[22] == 's');
    assert("upcloud_kubernetes_cluster"@[23] == 't');
    assert("upcloud_kubernetes_cluster"@[24] == 'e');
    assert("upcloud_kubernetes_cluster"@[25] == 'r');
    reveal_strlit("upcloud_loadbalancer");
    assert("upcloud_loadbalancer"@[0] == 'u');
    assert("upcloud_loadbalancer"@[1] == 'p');
    assert("upcloud_loadbalancer"@[2] == 'c');
    assert("upcloud_loadbalancer"@[3] == 'l');
    assert("upcloud_loadbalancer"@[4] == 'o');
    assert("upcloud_loadbalancer"@[5] == 'u');
    assert("upcloud_loadbalancer"@[6] == 'd');
    assert("upcloud_loadbalancer"@[7] == '_');
    assert("upcloud_loadbalancer"@[8] == 'l');
    assert("upcloud_loadbalancer"@[9] == 'o');
    assert("upcloud_loadbalancer"@[10] == 'a');
    assert("upcloud_loadbalancer"@[11] == 'd');
    assert("upcloud_loadbalancer"@[12] == 'b');
    assert("upcloud_loadbalancer"@[13] == 'a');
    assert("upcloud_loadbalancer"@[14] == 'l');
    assert("upcloud_loadbalancer"@[15] == 'a');
    assert("upcloud_loadbalancer"@[16] == 'n');
    assert("upcloud_loadbalancer"@[17] == 'c');
    assert("upcloud_loadbalancer"@[18] == 'e');
    assert("upcloud_loadbalancer"@[19] == 'r');
    reveal_strlit("upcloud_managed_database");
    assert("upcloud_managed_database"@[0] == 'u');
    assert("upcloud_managed_database"@[1] == 'p');
    assert("upcloud_managed_database"@[2] == 'c');
    assert("upcloud_managed_database"@[3] == 'l');
    assert("upcloud_managed_database"@[4] == 'o');
    assert("upcloud_managed_database"@[5] == 'u');
    assert("upcloud_managed_database"@[6] == 'd');
    assert("upcloud_managed_database"@[7] == '_');
    assert("upcloud_managed_database"@[8] == 'm');
    assert("upcloud_managed_database"@[9] == 'a');
    assert("upcloud_managed_database"@[10] == 'n');
    assert("upcloud_managed_database"@[11] == 'a');
    assert("upcloud_managed_database"@[12] == 'g');
    assert("upcloud_managed_database"@[13] == 'e');
    assert("upcloud_managed_database"@[14] == 'd');
    assert("upcloud_managed_database"@[15] == '_');
    assert("upcloud_managed_database"@[16] == 'd');
    assert("upcloud_managed_database"@[17] == 'a');
    assert("upcloud_managed_database"@[18] == 't');
    assert("upcloud_managed_database"@[19] == 'a');
    assert("upcloud_managed_database"@[20] == 'b');
    assert("upcloud_managed_database"@[21] == 'a');
    assert("upcloud_managed_database"@[22] == 's');
    assert("upcloud_managed_database"@[23] == 'e');
    reveal_strlit("upcloud_network");
    assert("upcloud_network"@[0] == 'u');
    assert("upcloud_network"@[1] == 'p');
    assert("upcloud_network"@[2] == 'c');
    assert("upcloud_network"@[3] == 'l');
    assert("upcloud_network"@[4] == 'o');
    assert("upcloud_network"@[5] == 'u');
    assert("upcloud_network"@[6] == 'd');
    assert("upcloud_network"@[7] == '_');
    assert("upcloud_network"@[8] == 'n');
    assert("upcloud_network"@[9] == 'e');
    assert("upcloud_network"@[10] == 't');
    assert("upcloud_network"@[11] == 'w');
    assert("upcloud_network"@[12] == 'o');
    assert("upcloud_network"@[13] == 'r');
    assert("upcloud_network"@[14] == 'k');
    reveal_strlit("upcloud_router");
    assert("upcloud_router"@[0] == 'u');
    assert("upcloud_router"@[1] == 'p');
    assert("upcloud_router"@[2] == 'c');
    assert("upcloud_router"@[3] == 'l');
    assert("upcloud_router"@[4] == 'o');
    assert("upcloud_router"@[5] == 'u');
    assert("upcloud_router"@[6] == 'd');
    assert("upcloud_router"@[7] == '_');
    assert("upcloud_router"@[8] == 'r');
    assert("upcloud_router"@[9] == 'o');
    assert("upcloud_router"@[10] == 'u');
    assert("upcloud_router"@[11] == 't');
    assert("upcloud_router"@[12] == 'e');
    assert("upcloud_router"@[13] == 'r');
    reveal_strlit("upcloud_server");
    assert("upcloud_server"@[0] == 'u');
    assert("upcloud_server"@[1] == 'p');
    assert("upcloud_server"@[2] == 'c');
    assert("upcloud_server"@[3] == 'l');
    assert("upcloud_server"@[4] == 'o');
    assert("upcloud_server"@[5] == 'u');
    assert("upcloud_server"@[6] == 'd');
    assert("upcloud_server"@[7] == '_');
    assert("upcloud_server"@[8] == 's');
    assert("upcloud_server"@[9] == 'e');
    assert("upcloud_server"@[10] == 'r');
    assert("upcloud_server"@[11] == 'v');
    assert("upcloud_server"@[12] == 'e');
    assert("upcloud_server"@[13] == 'r');
    reveal_strlit("username");
    assert("username"@[0] == 'u');
    assert("username"@[1] == 's');
    assert("username"@[2] == 'e');
    assert("username"@[3] == 'r');
    assert("username"@[4] == 'n');
    assert("username"@[5] == 'a');
    assert("username"@[6] == 'm');
    assert("username"@[7] == 'e');
    if starts_with(t, "upcloud_managed_database"@) {
        assert(t.subrange(0, 24)[8] == t[8]);
    }
}

} // verus!
