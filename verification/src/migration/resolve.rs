//! Placeholder resolution in generated HCL, from the cross-reference tables.
use vstd::prelude::*;

use crate::migration::cross_ref::{
    contains_name, has_name, key_index, keys_of, kv_find, kv_get, lemma_key_index, names_view, str_keys,
    CrossRefTables, LoginKeysValue, XrefModel,
};
use crate::migration::generator::{extract_count_from_hcl, spec_extract_count};
use crate::migration::providers::SourceProvider;
use crate::migration::types::cat3;
use crate::text::{
    chars_of, contains, contains_str, ends_with, ends_with_exec, lines, lines_v, push_str, push_vec,
    replace, replace_first, replace_first_v, replace_str, replace_v, rfind, rfind_below,
    rfind_below_exec, lemma_rfind_bounds, matches_at, slice_of, spec_to_lowercase, string_of,
    split_once_char, split_once_char_v, starts_with, to_lowercase, trim, trim_v, views,
};

verus! {

/// `s` with the first `n` replacements put in place of the first remaining occurrence of
/// `pattern`, one after another.
pub open spec fn spec_replace_indexed(s: Seq<char>, pattern: Seq<char>, reps: Seq<Seq<char>>, n: int) -> Seq<char>
    decreases n,
{
    if n <= 0 {
        s
    } else {
        replace_first(spec_replace_indexed(s, pattern, reps, n - 1), pattern, reps[n - 1])
    }
}

/// The strings of `v`, as characters.
pub open spec fn str_views(v: Seq<String>) -> Seq<Seq<char>> {
    v.map_values(|s: String| s@)
}

/// Replace indexed `<TODO>` placeholders with items from a list: the i-th replacement
/// takes the place of the first occurrence of `pattern` left after the earlier ones.
pub fn replace_indexed_placeholders(hcl: &str, pattern: &str, replacements: &[String]) -> (r: String)
    ensures
        r@ == spec_replace_indexed(hcl@, pattern@, str_views(replacements@), replacements@.len() as int),
{
    let p = chars_of(pattern);
    let mut cur = chars_of(hcl);
    let mut i: usize = 0;
    while i < replacements.len()
        invariant
            i <= replacements@.len(),
            p@ == pattern@,
            cur@ == spec_replace_indexed(hcl@, pattern@, str_views(replacements@), i as int),
        decreases replacements@.len() - i,
    {
        let t = chars_of(replacements[i].as_str());
        cur = replace_first_v(&cur, &p, &t);
        i += 1;
    }
    string_of(&cur)
}

/// `prefix + name + suffix` for each name.
pub open spec fn wrapped(names: Seq<Seq<char>>, prefix: Seq<char>, suffix: Seq<char>) -> Seq<Seq<char>> {
    names.map_values(|n: Seq<char>| prefix + n + suffix)
}

fn wrap_names(names: &Vec<String>, prefix: &str, suffix: &str) -> (r: Vec<String>)
    ensures
        str_views(r@) == wrapped(names_view(names@), prefix@, suffix@),
{
    let mut out: Vec<String> = Vec::new();
    let mut i: usize = 0;
    while i < names.len()
        invariant
            i <= names@.len(),
            str_views(out@) == wrapped(names_view(names@.take(i as int)), prefix@, suffix@),
        decreases names@.len() - i,
    {
        let w = cat3(prefix, names[i].as_str(), suffix);
        let ghost prev = out@;
        out.push(w);
        assert(names@.take(i + 1) =~= names@.take(i as int).push(names@[i as int]));
        assert(str_views(out@) =~= str_views(prev).push(w@));
        assert(wrapped(names_view(names@.take(i + 1)), prefix@, suffix@) =~= wrapped(names_view(names@.take(i as int)), prefix@, suffix@).push(prefix@ + names@[i as int]@ + suffix@));
        i += 1;
    }
    assert(names@.take(names@.len() as int) =~= names@);
    out
}

/// Load balancer, backend and certificate bundle placeholders filled with the known
/// names, in order.
pub open spec fn spec_resolve_load_balancer_refs(hcl: Seq<char>, lbs: Seq<Seq<char>>, backends: Seq<Seq<char>>, certs: Seq<Seq<char>>) -> Seq<char> {
    let s1 = spec_replace_indexed(hcl, "upcloud_loadbalancer.<TODO>.id"@, wrapped(lbs, "upcloud_loadbalancer."@, ".id"@), lbs.len() as int);
    let s2 = spec_replace_indexed(s1, "upcloud_loadbalancer_backend.<TODO>.name"@, wrapped(backends, "upcloud_loadbalancer_backend."@, ".name"@), backends.len() as int);
    spec_replace_indexed(s2, "upcloud_loadbalancer_manual_certificate_bundle.<TODO>.id"@, wrapped(certs, "upcloud_loadbalancer_manual_certificate_bundle."@, ".id"@), certs.len() as int)
}

/// Resolve load balancer and certificate placeholders.
pub fn resolve_load_balancer_refs(hcl: &str, xref: &CrossRefTables) -> (r: String)
    ensures
        r@ == spec_resolve_load_balancer_refs(hcl@, xref@.lb_names, xref@.backend_names, xref@.cert_bundle_names),
{
    let lb_refs = wrap_names(&xref.lb_names, "upcloud_loadbalancer.", ".id");
    assert(str_views(lb_refs@).len() == lb_refs@.len());
    let s1 = replace_indexed_placeholders(hcl, "upcloud_loadbalancer.<TODO>.id", lb_refs.as_slice());
    let backend_refs = wrap_names(&xref.backend_names, "upcloud_loadbalancer_backend.", ".name");
    assert(str_views(backend_refs@).len() == backend_refs@.len());
    let s2 = replace_indexed_placeholders(s1.as_str(), "upcloud_loadbalancer_backend.<TODO>.name", backend_refs.as_slice());
    let cert_refs = wrap_names(&xref.cert_bundle_names, "upcloud_loadbalancer_manual_certificate_bundle.", ".id");
    assert(str_views(cert_refs@).len() == cert_refs@.len());
    replace_indexed_placeholders(s2.as_str(), "upcloud_loadbalancer_manual_certificate_bundle.<TODO>.id", cert_refs.as_slice())
}

/// The cluster placeholder names the first Kubernetes cluster, if there is one.
pub open spec fn spec_resolve_k8s_refs(hcl: Seq<char>, k8s: Seq<Seq<char>>) -> Seq<char> {
    if k8s.len() > 0 {
        replace(hcl, "upcloud_kubernetes_cluster.<TODO>.id"@, "upcloud_kubernetes_cluster."@ + k8s[0] + ".id"@)
    } else {
        hcl
    }
}

/// Resolve Kubernetes cluster references of node groups.
pub fn resolve_k8s_and_generic_refs(hcl: &str, xref: &CrossRefTables) -> (r: String)
    ensures
        r@ == spec_resolve_k8s_refs(hcl@, xref@.k8s_names),
{
    if xref.k8s_names.len() > 0 {
        let to = cat3("upcloud_kubernetes_cluster.", xref.k8s_names[0].as_str(), ".id");
        proof {
            reveal_strlit("upcloud_kubernetes_cluster.<TODO>.id");
        }
        string_of(&replace_str(&chars_of(hcl), "upcloud_kubernetes_cluster.<TODO>.id", to.as_str()))
    } else {
        string_of(&chars_of(hcl))
    }
}

/// The lifecycle block that keeps Terraform from detaching a router that UpCloud
/// Kubernetes Service attached.
pub open spec fn network_lifecycle() -> Seq<char> {
    "\n  # UpCloud Kubernetes Service will attach a router automatically.\n  # Ignore router changes to avoid detaching it on subsequent applies.\n  lifecycle {\n    ignore_changes = [router]\n  }\n"@
}

/// The lifecycle block inserted before the last `}`.
pub open spec fn spec_inject_network_lifecycle_block(hcl: Seq<char>) -> Seq<char> {
    match rfind(hcl, "}"@) {
        Some(p) => hcl.take(p) + network_lifecycle() + hcl.skip(p),
        None => hcl,
    }
}

/// Inject `lifecycle { ignore_changes = [router] }` before the final closing brace of an
/// `upcloud_network` resource block.
pub fn inject_network_lifecycle_block(hcl: &str) -> (r: String)
    ensures
        r@ == spec_inject_network_lifecycle_block(hcl@),
{
    let v = chars_of(hcl);
    let b = chars_of("}");
    let n = v.len();
    proof {
        reveal_strlit("}");
    }
    assert(!matches_at(v@, b@, n as int));
    assert(rfind_below(v@, b@, n + 1) == rfind_below(v@, b@, n as int));
    match rfind_below_exec(&v, &b, n) {
        Some(p) => {
            proof {
                lemma_rfind_bounds(v@, b@);
            }
            let out = slice_of(&v, 0, p);
            let mut s = string_of(&out);
            push_str(&mut s, "\n  # UpCloud Kubernetes Service will attach a router automatically.\n  # Ignore router changes to avoid detaching it on subsequent applies.\n  lifecycle {\n    ignore_changes = [router]\n  }\n");
            let rest = slice_of(&v, p, n);
            push_vec(&mut s, &rest);
            assert(out@ =~= v@.take(p as int));
            assert(rest@ =~= v@.skip(p as int));
            s
        },
        None => string_of(&v),
    }
}

/// The health check line used when a backend has no probe.
pub open spec fn default_probe_line() -> Seq<char> {
    "    health_check_type     = \"tcp\"\n"@
}

/// The first `n` lines, each marker line replaced by `props` (or the default tcp check),
/// every other line followed by a newline.
pub open spec fn probe_lines(ls: Seq<Seq<char>>, props: Option<Seq<char>>, n: int) -> Seq<char>
    decreases n,
{
    if n <= 0 {
        seq![]
    } else {
        probe_lines(ls, props, n - 1) + if trim(ls[n - 1]) == "# __PROBE_HC__"@ {
            match props {
                Some(p) => p,
                None => default_probe_line(),
            }
        } else {
            ls[n - 1] + "\n"@
        }
    }
}

/// `out` without its last newline when `hcl` had none.
pub open spec fn keep_final_newline(hcl: Seq<char>, out: Seq<char>) -> Seq<char> {
    if !ends_with(hcl, "\n"@) && ends_with(out, "\n"@) {
        out.drop_last()
    } else {
        out
    }
}

/// The probe marker of a backend replaced by its health check properties.
pub open spec fn spec_resolve_lb_probe_refs(hcl: Seq<char>, props: Option<Seq<char>>) -> Seq<char> {
    if !contains(hcl, "# __PROBE_HC__"@) {
        hcl
    } else {
        let ls = lines(hcl);
        keep_final_newline(hcl, probe_lines(ls, props, ls.len() as int))
    }
}

/// The optional health check text of the backend named `name`.
pub open spec fn probe_props_of(m: Seq<(Seq<char>, Seq<char>)>, name: Seq<char>) -> Option<Seq<char>> {
    kv_get(m, name)
}

fn pop_final_newline(hcl: &Vec<char>, out: Vec<char>) -> (r: Vec<char>)
    ensures
        r@ == keep_final_newline(hcl@, out@),
{
    if !ends_with_exec(hcl, "\n") && ends_with_exec(&out, "\n") {
        let n = out.len();
        proof {
            reveal_strlit("\n");
        }
        let r = slice_of(&out, 0, n - 1);
        assert(r@ =~= out@.drop_last());
        r
    } else {
        out
    }
}

/// Resolve the health check marker (`# __PROBE_HC__`) of a backend pool: each marker line
/// becomes the probe's health check properties, or a tcp check when the backend has none.
pub fn resolve_lb_probe_refs(hcl: &str, resource_name: &str, xref: &CrossRefTables) -> (r: String)
    ensures
        r@ == spec_resolve_lb_probe_refs(hcl@, probe_props_of(xref@.probe_health_map, resource_name@)),
{
    let v = chars_of(hcl);
    if !contains_str(&v, "# __PROBE_HC__") {
        return string_of(&v);
    }
    assert(str_keys(xref.probe_health_map@) =~= keys_of(xref@.probe_health_map));
    let props: Option<Vec<char>> = match kv_find(&xref.probe_health_map, resource_name) {
        Some(i) => Some(chars_of(xref.probe_health_map[i].1.as_str())),
        None => None,
    };
    let ghost pv = probe_props_of(xref@.probe_health_map, resource_name@);
    assert(match props { Some(p) => pv == Some(p@), None => pv is None });
    let dflt = chars_of("    health_check_type     = \"tcp\"\n");
    let ls = lines_v(&v);
    let ghost lsv = views(ls@);
    let mut out = String::new();
    let mut i: usize = 0;
    while i < ls.len()
        invariant
            i <= ls@.len(),
            lsv == views(ls@),
            lsv.len() == ls@.len(),
            dflt@ == default_probe_line(),
            match props { Some(p) => pv == Some(p@), None => pv is None },
            out@ == probe_lines(lsv, pv, i as int),
        decreases ls@.len() - i,
    {
        let t = trim_v(&ls[i]);
        assert(lsv[i as int] == ls@[i as int]@);
        if crate::text::eq_str(&t, "# __PROBE_HC__") {
            match &props {
                Some(p) => push_vec(&mut out, p),
                None => push_vec(&mut out, &dflt),
            }
        } else {
            push_vec(&mut out, &ls[i]);
            push_str(&mut out, "\n");
        }
        i += 1;
    }
    string_of(&pop_final_newline(&v, chars_of(out.as_str())))
}


/// Whether the network named `n` has a `count`.
pub open spec fn net_has_count(m: Seq<(Seq<char>, bool)>, n: Seq<char>) -> bool {
    kv_get(m, n) == Some(true)
}

/// The reference to network `n` from the block `s`: a counted network is indexed by
/// `count.index` when `s` has a `count`, else by 0.
pub open spec fn net_ref(s: Seq<char>, n: Seq<char>, counted: bool) -> Seq<char> {
    if counted {
        if spec_extract_count(s) is Some {
            "upcloud_network."@ + n + "[count.index].id"@
        } else {
            "upcloud_network."@ + n + "[0].id"@
        }
    } else {
        "upcloud_network."@ + n + ".id"@
    }
}

/// The placeholder of a reference to one named network.
pub open spec fn specific_placeholder(n: Seq<char>) -> Seq<char> {
    "\"<TODO: upcloud_network."@ + n + " reference>\""@
}

/// The placeholders of the first `k` networks replaced by references to them.
pub open spec fn net_specific_fold(s: Seq<char>, nets: Seq<Seq<char>>, ncm: Seq<(Seq<char>, bool)>, k: int) -> Seq<char>
    decreases k,
{
    if k <= 0 {
        s
    } else {
        let prev = net_specific_fold(s, nets, ncm, k - 1);
        let n = nets[k - 1];
        if contains(prev, specific_placeholder(n)) {
            replace(prev, specific_placeholder(n), net_ref(prev, n, net_has_count(ncm, n)))
        } else {
            prev
        }
    }
}

/// The first of `subnets`, from index `i`, that is a known network.
pub open spec fn first_known_subnet(subnets: Seq<Seq<char>>, nets: Seq<Seq<char>>, i: int) -> Option<Seq<char>>
    decreases subnets.len() - i,
{
    if i < 0 || i >= subnets.len() {
        None
    } else if has_name(nets, subnets[i]) {
        Some(subnets[i])
    } else {
        first_known_subnet(subnets, nets, i + 1)
    }
}

/// The network of a subnet group: its first known subnet, else the first network.
pub open spec fn subnet_group_net(subnets: Seq<Seq<char>>, nets: Seq<Seq<char>>) -> Option<Seq<char>> {
    match first_known_subnet(subnets, nets, 0) {
        Some(n) => Some(n),
        None => if nets.len() > 0 { Some(nets[0]) } else { None },
    }
}

/// The placeholder of a subnet group's network.
pub open spec fn subnet_group_placeholder(sg: Seq<char>) -> Seq<char> {
    "\"<TODO: upcloud_network UUID subnet_group="@ + sg + ">\""@
}

/// The subnet group placeholders of the first `k` subnet groups resolved.
pub open spec fn subnet_group_fold(s: Seq<char>, sgm: Seq<(Seq<char>, Seq<Seq<char>>)>, nets: Seq<Seq<char>>, ncm: Seq<(Seq<char>, bool)>, k: int) -> Seq<char>
    decreases k,
{
    if k <= 0 {
        s
    } else {
        let prev = subnet_group_fold(s, sgm, nets, ncm, k - 1);
        let ph = subnet_group_placeholder(sgm[k - 1].0);
        if contains(prev, ph) {
            match subnet_group_net(sgm[k - 1].1, nets) {
                Some(n) => replace(prev, ph, if net_has_count(ncm, n) { "upcloud_network."@ + n + "[0].id"@ } else { "upcloud_network."@ + n + ".id"@ }),
                None => prev,
            }
        } else {
            prev
        }
    }
}

/// The first network, from index `i`, whose lower-cased name contains `p` (when `want`)
/// or does not (when not).
pub open spec fn first_lower_containing(nets: Seq<Seq<char>>, p: Seq<char>, want: bool, i: int) -> Option<Seq<char>>
    decreases nets.len() - i,
{
    if i < 0 || i >= nets.len() {
        None
    } else if contains(spec_to_lowercase(nets[i]), p) == want {
        Some(nets[i])
    } else {
        first_lower_containing(nets, p, want, i + 1)
    }
}

/// The network that a generic network placeholder of `resource_name` refers to: the
/// network of its backends when known, else the first private-named network, else the
/// first not public-named, else the first.
pub open spec fn preferred_net(resource_name: Seq<char>, nets: Seq<Seq<char>>, lbnm: Seq<(Seq<char>, Seq<char>)>) -> Option<Seq<char>> {
    let from_lb = match kv_get(lbnm, resource_name) {
        Some(net) => if has_name(nets, net) { Some(net) } else { None },
        None => None,
    };
    match from_lb {
        Some(n) => Some(n),
        None => match first_lower_containing(nets, "private"@, true, 0) {
            Some(n) => Some(n),
            None => match first_lower_containing(nets, "public"@, false, 0) {
                Some(n) => Some(n),
                None => if nets.len() > 0 { Some(nets[0]) } else { None },
            },
        },
    }
}

/// The server IP placeholder resolved to the first server's private address (its first
/// instance when counted).
pub open spec fn server_ip_step(s: Seq<char>, servers: Seq<Seq<char>>, sim: Seq<(Seq<char>, Option<Seq<char>>)>) -> Seq<char> {
    if servers.len() > 0 {
        let srv = servers[0];
        let counted = match kv_get(sim, srv) { Some(c) => c is Some, None => false };
        replace(s, "\"<TODO: server IP>\""@, if counted {
            "upcloud_server."@ + srv + "[0].network_interface[0].ip_address"@
        } else {
            "upcloud_server."@ + srv + ".network_interface[0].ip_address"@
        })
    } else {
        s
    }
}

/// Network and server IP placeholders resolved: named networks, subnet group networks,
/// the generic network placeholder, then the server IP.
pub open spec fn spec_resolve_network_refs(hcl: Seq<char>, resource_name: Seq<char>, xref: XrefModel) -> Seq<char> {
    let nets = xref.network_names;
    let ncm = xref.network_count_map;
    let s1 = net_specific_fold(hcl, nets, ncm, nets.len() as int);
    let s2 = subnet_group_fold(s1, xref.subnet_group_subnets_map, nets, ncm, xref.subnet_group_subnets_map.len() as int);
    let s3 = match preferred_net(resource_name, nets, xref.lb_backend_net_map) {
        Some(n) => replace(s2, "\"<TODO: upcloud_network reference>\""@, net_ref(s2, n, net_has_count(ncm, n))),
        None => s2,
    };
    server_ip_step(s3, xref.server_names, xref.server_info_map)
}

fn has_count_exec(m: &Vec<(String, bool)>, n: &str) -> (r: bool)
    ensures
        r == net_has_count(m@.map_values(|p: (String, bool)| (p.0@, p.1)), n@),
{
    let ghost mv = m@.map_values(|p: (String, bool)| (p.0@, p.1));
    assert(str_keys(m@) =~= keys_of(mv));
    match kv_find(m, n) {
        Some(i) => m[i].1,
        None => false,
    }
}

fn net_ref_exec(s: &Vec<char>, n: &str, counted: bool) -> (r: String)
    ensures
        r@ == net_ref(s@, n@, counted),
{
    if counted {
        if extract_count_from_hcl(string_of(s).as_str()).is_some() {
            cat3("upcloud_network.", n, "[count.index].id")
        } else {
            cat3("upcloud_network.", n, "[0].id")
        }
    } else {
        cat3("upcloud_network.", n, ".id")
    }
}

fn first_known_subnet_exec(subnets: &Vec<String>, nets: &Vec<String>) -> (r: Option<usize>)
    ensures
        match r {
            Some(i) => i < subnets@.len() && first_known_subnet(names_view(subnets@), names_view(nets@), 0) == Some(subnets@[i as int]@),
            None => first_known_subnet(names_view(subnets@), names_view(nets@), 0) is None,
        },
{
    let ghost sv = names_view(subnets@);
    let ghost nv = names_view(nets@);
    let mut i: usize = 0;
    while i < subnets.len()
        invariant
            i <= subnets@.len(),
            sv == names_view(subnets@),
            nv == names_view(nets@),
            first_known_subnet(sv, nv, 0) == first_known_subnet(sv, nv, i as int),
        decreases subnets@.len() - i,
    {
        assert(sv[i as int] == subnets@[i as int]@);
        if contains_name(nets, subnets[i].as_str()) {
            return Some(i);
        }
        i += 1;
    }
    None
}

fn first_lower_exec(nets: &Vec<String>, p: &str, want: bool) -> (r: Option<usize>)
    ensures
        match r {
            Some(i) => i < nets@.len() && first_lower_containing(names_view(nets@), p@, want, 0) == Some(nets@[i as int]@),
            None => first_lower_containing(names_view(nets@), p@, want, 0) is None,
        },
{
    let ghost nv = names_view(nets@);
    let mut i: usize = 0;
    while i < nets.len()
        invariant
            i <= nets@.len(),
            nv == names_view(nets@),
            first_lower_containing(nv, p@, want, 0) == first_lower_containing(nv, p@, want, i as int),
        decreases nets@.len() - i,
    {
        assert(nv[i as int] == nets@[i as int]@);
        let low = chars_of(to_lowercase(nets[i].as_str()).as_str());
        if contains_str(&low, p) == want {
            return Some(i);
        }
        i += 1;
    }
    None
}

fn preferred_net_exec(resource_name: &str, xref: &CrossRefTables) -> (r: Option<String>)
    ensures
        crate::migration::types::opt_view(r) == preferred_net(resource_name@, xref@.network_names, xref@.lb_backend_net_map),
{
    assert(str_keys(xref.lb_backend_net_map@) =~= keys_of(xref@.lb_backend_net_map));
    let from_lb: Option<usize> = match kv_find(&xref.lb_backend_net_map, resource_name) {
        Some(i) => if contains_name(&xref.network_names, xref.lb_backend_net_map[i].1.as_str()) { Some(i) } else { None },
        None => None,
    };
    match from_lb {
        Some(i) => Some(string_of(&chars_of(xref.lb_backend_net_map[i].1.as_str()))),
        None => match first_lower_exec(&xref.network_names, "private", true) {
            Some(j) => Some(string_of(&chars_of(xref.network_names[j].as_str()))),
            None => match first_lower_exec(&xref.network_names, "public", false) {
                Some(j) => Some(string_of(&chars_of(xref.network_names[j].as_str()))),
                None => if xref.network_names.len() > 0 {
                    Some(string_of(&chars_of(xref.network_names[0].as_str())))
                } else {
                    None
                },
            },
        },
    }
}

/// Resolve network references (named, by subnet group, and generic) and the server IP
/// placeholder of load balancer backends.
pub fn resolve_network_refs(hcl: &str, resource_name: &str, xref: &CrossRefTables) -> (r: String)
    ensures
        r@ == spec_resolve_network_refs(hcl@, resource_name@, xref@),
{
    let ghost x = xref@;
    let nets = &xref.network_names;
    let ncm = &xref.network_count_map;
    let mut s = chars_of(hcl);
    let mut i: usize = 0;
    while i < nets.len()
        invariant
            i <= nets@.len(),
            x == xref@,
            nets@ == xref.network_names@,
            ncm@ == xref.network_count_map@,
            s@ == net_specific_fold(hcl@, x.network_names, x.network_count_map, i as int),
        decreases nets@.len() - i,
    {
        let n = nets[i].as_str();
        let ph = cat3("\"<TODO: upcloud_network.", n, " reference>\"");
        let phv = chars_of(ph.as_str());
        if crate::text::contains_vec(&s, &phv) {
            proof {
                reveal_strlit("\"<TODO: upcloud_network.");
            }
            let r = net_ref_exec(&s, n, has_count_exec(ncm, n));
            s = replace_v(&s, &phv, &chars_of(r.as_str()));
        }
        i += 1;
    }
    let sgm = &xref.subnet_group_subnets_map;
    let mut k: usize = 0;
    while k < sgm.len()
        invariant
            k <= sgm@.len(),
            x == xref@,
            sgm@ == xref.subnet_group_subnets_map@,
            nets@ == xref.network_names@,
            ncm@ == xref.network_count_map@,
            s@ == subnet_group_fold(net_specific_fold(hcl@, x.network_names, x.network_count_map, x.network_names.len() as int), x.subnet_group_subnets_map, x.network_names, x.network_count_map, k as int),
        decreases sgm@.len() - k,
    {
        let ph = cat3("\"<TODO: upcloud_network UUID subnet_group=", sgm[k].0.as_str(), ">\"");
        let phv = chars_of(ph.as_str());
        if crate::text::contains_vec(&s, &phv) {
            proof {
                reveal_strlit("\"<TODO: upcloud_network UUID subnet_group=");
            }
            let net: Option<String> = match first_known_subnet_exec(&sgm[k].1, nets) {
                Some(j) => Some(string_of(&chars_of(sgm[k].1[j].as_str()))),
                None => if nets.len() > 0 { Some(string_of(&chars_of(nets[0].as_str()))) } else { None },
            };
            match net {
                Some(n) => {
                    let r = if has_count_exec(ncm, n.as_str()) {
                        cat3("upcloud_network.", n.as_str(), "[0].id")
                    } else {
                        cat3("upcloud_network.", n.as_str(), ".id")
                    };
                    s = replace_v(&s, &phv, &chars_of(r.as_str()));
                },
                None => {},
            }
        }
        k += 1;
    }
    match preferred_net_exec(resource_name, xref) {
        Some(n) => {
            let r = net_ref_exec(&s, n.as_str(), has_count_exec(ncm, n.as_str()));
            proof {
                reveal_strlit("\"<TODO: upcloud_network reference>\"");
            }
            s = replace_str(&s, "\"<TODO: upcloud_network reference>\"", r.as_str());
        },
        None => {},
    }
    if xref.server_names.len() > 0 {
        let srv = xref.server_names[0].as_str();
        assert(str_keys(xref.server_info_map@) =~= keys_of(x.server_info_map));
        let counted = match kv_find(&xref.server_info_map, srv) {
            Some(j) => xref.server_info_map[j].1.is_some(),
            None => false,
        };
        let r = if counted {
            cat3("upcloud_server.", srv, "[0].network_interface[0].ip_address")
        } else {
            cat3("upcloud_server.", srv, ".network_interface[0].ip_address")
        };
        proof {
            reveal_strlit("\"<TODO: server IP>\"");
        }
        s = replace_str(&s, "\"<TODO: server IP>\"", r.as_str());
    }
    string_of(&s)
}

/// The key pair placeholders of the first `k` key pairs replaced by their keys: a
/// literal key inside the placeholder's quotes, an expression in place of the quoted
/// placeholder.
pub open spec fn ssh_fold<P: SourceProvider>(p: P, s: Seq<char>, m: Seq<(Seq<char>, (bool, Seq<char>))>, k: int) -> Seq<char>
    decreases k,
{
    if k <= 0 {
        s
    } else {
        let prev = ssh_fold(p, s, m, k - 1);
        let ph = p.spec_ssh_key_placeholder(m[k - 1].0);
        if m[k - 1].1.0 {
            replace(prev, ph, m[k - 1].1.1)
        } else {
            replace(prev, "\""@ + ph + "\""@, m[k - 1].1.1)
        }
    }
}

/// SSH key placeholders resolved; a generic placeholder takes the first key pair's key
/// when that is a literal.
pub open spec fn spec_resolve_ssh_key_refs<P: SourceProvider>(p: P, hcl: Seq<char>, m: Seq<(Seq<char>, (bool, Seq<char>))>) -> Seq<char> {
    let s1 = ssh_fold(p, hcl, m, m.len() as int);
    if contains(s1, "<TODO: paste SSH public key>"@) && m.len() > 0 && m[0].1.0 {
        replace(s1, "<TODO: paste SSH public key>"@, m[0].1.1)
    } else {
        s1
    }
}

/// Resolve SSH public key references in login blocks.
pub fn resolve_ssh_key_refs<P: SourceProvider>(hcl: &str, xref: &CrossRefTables, provider: &P) -> (r: String)
    ensures
        r@ == spec_resolve_ssh_key_refs(*provider, hcl@, xref@.ssh_key_map),
{
    let m = &xref.ssh_key_map;
    let mut s = chars_of(hcl);
    let mut i: usize = 0;
    while i < m.len()
        invariant
            i <= m@.len(),
            m@ == xref.ssh_key_map@,
            s@ == ssh_fold(*provider, hcl@, xref@.ssh_key_map, i as int),
        decreases m@.len() - i,
    {
        let ph = provider.ssh_key_placeholder(m[i].0.as_str());
        match &m[i].1 {
            LoginKeysValue::Literal(pk) => {
                s = replace_v(&s, &chars_of(ph.as_str()), &chars_of(pk.as_str()));
            },
            LoginKeysValue::Expression(e) => {
                let q = cat3("\"", ph.as_str(), "\"");
                s = replace_v(&s, &chars_of(q.as_str()), &chars_of(e.as_str()));
            },
        }
        i += 1;
    }
    if contains_str(&s, "<TODO: paste SSH public key>") && m.len() > 0 {
        match &m[0].1 {
            LoginKeysValue::Literal(key) => {
                proof {
                    reveal_strlit("<TODO: paste SSH public key>");
                }
                s = replace_str(&s, "<TODO: paste SSH public key>", key.as_str());
            },
            LoginKeysValue::Expression(_) => {},
        }
    }
    string_of(&s)
}

/// The property line of one parameter: a valid property is set (`max_connections`
/// commented out, as it needs an account permission); any other is a TODO comment.
pub open spec fn param_line<P: SourceProvider>(p: P, name: Seq<char>, value: Seq<char>) -> Seq<char> {
    if p.spec_valid_db_property(name) {
        if name == "max_connections"@ {
            "    # max_connections = \""@ + value + "\"  # requires pg_user_config_max_connections account permission\n"@
        } else {
            "    "@ + name + " = \""@ + value + "\"\n"@
        }
    } else {
        "    # <TODO: "@ + name + " = \""@ + value + "\" — not a valid upcloud_managed_database_postgresql property>\n"@
    }
}

/// The property lines of the first `n` parameters.
pub open spec fn param_lines<P: SourceProvider>(p: P, params: Seq<(Seq<char>, Seq<char>)>, n: int) -> Seq<char>
    decreases n,
{
    if n <= 0 {
        seq![]
    } else {
        param_lines(p, params, n - 1) + param_line(p, params[n - 1].0, params[n - 1].1)
    }
}

/// The parameter group named by a `# __DB_PROPS:PREFIX:GROUP__` marker line.
pub open spec fn db_props_group(line: Seq<char>) -> Option<Seq<char>> {
    let t = trim(line);
    if starts_with(t, "# __DB_PROPS:"@) && ends_with(t.skip(13), "__"@) {
        let inner = t.skip(13);
        match split_once_char(inner.take(inner.len() - 2), ':') {
            Some(pr) => Some(pr.1),
            None => None,
        }
    } else {
        None
    }
}

/// A marker line becomes its group's property lines (or the provider's TODO text when
/// the group has none); any other line is kept.
pub open spec fn db_line<P: SourceProvider>(p: P, line: Seq<char>, pgm: Seq<(Seq<char>, Seq<(Seq<char>, Seq<char>)>)>) -> Seq<char> {
    match db_props_group(line) {
        Some(g) => match kv_get(pgm, g) {
            Some(params) => if params.len() > 0 {
                param_lines(p, params, params.len() as int)
            } else {
                p.spec_parameter_group_todo(g)
            },
            None => p.spec_parameter_group_todo(g),
        },
        None => line + "\n"@,
    }
}

pub open spec fn db_lines<P: SourceProvider>(p: P, ls: Seq<Seq<char>>, pgm: Seq<(Seq<char>, Seq<(Seq<char>, Seq<char>)>)>, n: int) -> Seq<char>
    decreases n,
{
    if n <= 0 {
        seq![]
    } else {
        db_lines(p, ls, pgm, n - 1) + db_line(p, ls[n - 1], pgm)
    }
}

/// Database parameter group markers replaced by the group's properties.
pub open spec fn spec_resolve_db_parameter_refs<P: SourceProvider>(p: P, hcl: Seq<char>, pgm: Seq<(Seq<char>, Seq<(Seq<char>, Seq<char>)>)>) -> Seq<char> {
    if !contains(hcl, "# __DB_PROPS:"@) {
        hcl
    } else {
        let ls = lines(hcl);
        keep_final_newline(hcl, db_lines(p, ls, pgm, ls.len() as int))
    }
}

fn db_props_group_exec(line: &Vec<char>) -> (r: Option<Vec<char>>)
    ensures
        match r {
            Some(g) => db_props_group(line@) == Some(g@),
            None => db_props_group(line@) is None,
        },
{
    let t = trim_v(line);
    proof {
        reveal_strlit("# __DB_PROPS:");
        reveal_strlit("__");
    }
    if crate::text::starts_with_exec(&t, "# __DB_PROPS:") {
        let n = t.len();
        let inner = slice_of(&t, 13, n);
        assert(inner@ =~= t@.skip(13));
        if ends_with_exec(&inner, "__") {
            let m = inner.len();
            let core = slice_of(&inner, 0, m - 2);
            assert(core@ =~= inner@.take(inner@.len() - 2));
            match split_once_char_v(&core, ':') {
                Some((_, g)) => Some(g),
                None => None,
            }
        } else {
            None
        }
    } else {
        None
    }
}

fn param_lines_exec<P: SourceProvider>(provider: &P, params: &Vec<(String, String)>, out: &mut String)
    ensures
        final(out)@ == old(out)@ + param_lines(*provider, crate::migration::cross_ref::pairs_view(params@), params@.len() as int),
{
    let ghost start = out@;
    let mut i: usize = 0;
    while i < params.len()
        invariant
            i <= params@.len(),
            out@ == start + param_lines(*provider, crate::migration::cross_ref::pairs_view(params@), i as int),
        decreases params@.len() - i,
    {
        let name = params[i].0.as_str();
        let value = params[i].1.as_str();
        let ghost before = out@;
        if provider.is_valid_db_property(name) {
            if crate::text::eq_str(&chars_of(name), "max_connections") {
                push_str(out, "    # max_connections = \"");
                push_str(out, value);
                push_str(out, "\"  # requires pg_user_config_max_connections account permission\n");
            } else {
                push_str(out, "    ");
                push_str(out, name);
                push_str(out, " = \"");
                push_str(out, value);
                push_str(out, "\"\n");
            }
        } else {
            push_str(out, "    # <TODO: ");
            push_str(out, name);
            push_str(out, " = \"");
            push_str(out, value);
            push_str(out, "\" — not a valid upcloud_managed_database_postgresql property>\n");
        }
        assert(out@ =~= before + param_line(*provider, params@[i as int].0@, params@[i as int].1@));
        i += 1;
    }
}

/// Resolve database parameter group markers (`# __DB_PROPS:PREFIX:GROUP__`): each marker
/// line becomes the group's property lines, or the provider's TODO text.
pub fn resolve_db_parameter_refs<P: SourceProvider>(hcl: &str, xref: &CrossRefTables, provider: &P) -> (r: String)
    ensures
        r@ == spec_resolve_db_parameter_refs(*provider, hcl@, xref@.param_group_map),
{
    let v = chars_of(hcl);
    if !contains_str(&v, "# __DB_PROPS:") {
        return string_of(&v);
    }
    let pgm = &xref.param_group_map;
    let ls = lines_v(&v);
    let ghost lsv = views(ls@);
    let mut out = String::new();
    let mut i: usize = 0;
    while i < ls.len()
        invariant
            i <= ls@.len(),
            lsv == views(ls@),
            lsv.len() == ls@.len(),
            pgm@ == xref.param_group_map@,
            out@ == db_lines(*provider, lsv, xref@.param_group_map, i as int),
        decreases ls@.len() - i,
    {
        assert(lsv[i as int] == ls@[i as int]@);
        match db_props_group_exec(&ls[i]) {
            Some(g) => {
                let gs = string_of(&g);
                assert(str_keys(pgm@) =~= keys_of(xref@.param_group_map));
                match kv_find(pgm, gs.as_str()) {
                    Some(j) => {
                        if pgm[j].1.len() > 0 {
                            param_lines_exec(provider, &pgm[j].1, &mut out);
                        } else {
                            let t = provider.parameter_group_todo_text(gs.as_str());
                            push_str(&mut out, t.as_str());
                        }
                    },
                    None => {
                        let t = provider.parameter_group_todo_text(gs.as_str());
                        push_str(&mut out, t.as_str());
                    },
                }
            },
            None => {
                push_vec(&mut out, &ls[i]);
                push_str(&mut out, "\n");
            },
        }
        i += 1;
    }
    string_of(&pop_final_newline(&v, chars_of(out.as_str())))
}

/// All placeholders of one block resolved, in order: zone and object storage region,
/// load balancer refs, Kubernetes refs, network refs, SSH keys, database parameters,
/// probe health checks; then the provider's leftover references cleaned.
pub open spec fn spec_resolve_placeholders<P: SourceProvider>(p: P, hcl: Seq<char>, resource_name: Seq<char>, zone: Seq<char>, region: Seq<char>, xref: XrefModel) -> Seq<char> {
    let s0 = replace(replace(hcl, "__ZONE__"@, zone), "__OBJSTORAGE_REGION__"@, region);
    let s1 = spec_resolve_load_balancer_refs(s0, xref.lb_names, xref.backend_names, xref.cert_bundle_names);
    let s2 = spec_resolve_k8s_refs(s1, xref.k8s_names);
    let s3 = spec_resolve_network_refs(s2, resource_name, xref);
    let s4 = spec_resolve_ssh_key_refs(p, s3, xref.ssh_key_map);
    let s5 = spec_resolve_db_parameter_refs(p, s4, xref.param_group_map);
    let s6 = spec_resolve_lb_probe_refs(s5, probe_props_of(xref.probe_health_map, resource_name));
    p.spec_sanitize(s6)
}

/// Resolve the placeholders of one generated block.
pub fn resolve_placeholders<P: SourceProvider>(
    hcl: &str,
    resource_name: &str,
    zone: &str,
    objstorage_region: &str,
    xref: &CrossRefTables,
    provider: &P,
) -> (r: String)
    ensures
        r@ == spec_resolve_placeholders(*provider, hcl@, resource_name@, zone@, objstorage_region@, xref@),
{
    proof {
        reveal_strlit("__ZONE__");
        reveal_strlit("__OBJSTORAGE_REGION__");
    }
    let z = replace_str(&chars_of(hcl), "__ZONE__", zone);
    let s0 = string_of(&replace_str(&z, "__OBJSTORAGE_REGION__", objstorage_region));
    let s1 = resolve_load_balancer_refs(s0.as_str(), xref);
    let s2 = resolve_k8s_and_generic_refs(s1.as_str(), xref);
    let s3 = resolve_network_refs(s2.as_str(), resource_name, xref);
    let s4 = resolve_ssh_key_refs(s3.as_str(), xref, provider);
    let s5 = resolve_db_parameter_refs(s4.as_str(), xref, provider);
    let s6 = resolve_lb_probe_refs(s5.as_str(), resource_name, xref);
    provider.sanitize_source_refs(s6)
}

} // verus!
