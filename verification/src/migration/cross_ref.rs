//! Cross-reference tables: what the output generator knows of the other resources when it
//! resolves the placeholders of one.
use vstd::prelude::*;

use crate::migration::types::opt_view;
use crate::migration::providers::hcl_blocks::{elems_view, hcl_top_blocks, parse_top_blocks, top_attrs_view, top_view};
use crate::migration::generator::{extract_count_from_hcl, spec_extract_count};
use crate::migration::providers::{ResourceRole, SourceProvider};
use crate::migration::types::{cat3, strs_view, MigrationResult};
use crate::text::{
    before_char, before_char_v, chars_of, contains, contains_str, lines, lines_v, seq_eq, slice_of,
    starts_with, string_of, trim, trim_v, views,
};

verus! {

/// The two forms a `keys = [...]` value can take in a generated login block.
#[derive(Debug, Clone)]
pub enum LoginKeysValue {
    /// A literal public-key string; the quotes around the placeholder are kept.
    Literal(String),
    /// An HCL expression; it replaces the quoted placeholder, quotes included.
    Expression(String),
}

/// Lookup tables for resolving placeholders. Each table of pairs holds a key at most once
/// where it is built as a map.
pub struct CrossRefTables {
    pub lb_names: Vec<String>,
    pub network_names: Vec<String>,
    pub server_names: Vec<String>,
    pub k8s_names: Vec<String>,
    /// key pair name → its public key.
    pub ssh_key_map: Vec<(String, LoginKeysValue)>,
    pub backend_names: Vec<String>,
    pub cert_bundle_names: Vec<String>,
    /// server name → its `count` value, if any.
    pub server_info_map: Vec<(String, Option<String>)>,
    /// firewall name → the servers that reference it.
    pub firewall_to_server_map: Vec<(String, Vec<String>)>,
    /// network name → whether it has a `count`.
    pub network_count_map: Vec<(String, bool)>,
    /// parameter group name → its parameters.
    pub param_group_map: Vec<(String, Vec<(String, String)>)>,
    /// subnet group name → its subnets.
    pub subnet_group_subnets_map: Vec<(String, Vec<String>)>,
    /// load balancer name → the network of its backends.
    pub lb_backend_net_map: Vec<(String, String)>,
    /// server name → the `storage_devices` blocks to inject.
    pub storage_inject_map: Vec<(String, Vec<String>)>,
    /// storage name → the `count` it takes from its server.
    pub storage_promote_count: Vec<(String, String)>,
    /// backend pool name → its health check property lines.
    pub probe_health_map: Vec<(String, String)>,
}

/// The mathematical content of [`CrossRefTables`].
#[verifier::ext_equal]
pub struct XrefModel {
    pub lb_names: Seq<Seq<char>>,
    pub network_names: Seq<Seq<char>>,
    pub server_names: Seq<Seq<char>>,
    pub k8s_names: Seq<Seq<char>>,
    pub ssh_key_map: Seq<(Seq<char>, (bool, Seq<char>))>,
    pub backend_names: Seq<Seq<char>>,
    pub cert_bundle_names: Seq<Seq<char>>,
    pub server_info_map: Seq<(Seq<char>, Option<Seq<char>>)>,
    pub firewall_to_server_map: Seq<(Seq<char>, Seq<Seq<char>>)>,
    pub network_count_map: Seq<(Seq<char>, bool)>,
    pub param_group_map: Seq<(Seq<char>, Seq<(Seq<char>, Seq<char>)>)>,
    pub subnet_group_subnets_map: Seq<(Seq<char>, Seq<Seq<char>>)>,
    pub lb_backend_net_map: Seq<(Seq<char>, Seq<char>)>,
    pub storage_inject_map: Seq<(Seq<char>, Seq<Seq<char>>)>,
    pub storage_promote_count: Seq<(Seq<char>, Seq<char>)>,
    pub probe_health_map: Seq<(Seq<char>, Seq<char>)>,
}

/// Strings, as characters.
pub open spec fn names_view(v: Seq<String>) -> Seq<Seq<char>> {
    v.map_values(|s: String| s@)
}

/// Pairs of strings, as characters.
pub open spec fn pairs_view(v: Seq<(String, String)>) -> Seq<(Seq<char>, Seq<char>)> {
    v.map_values(|p: (String, String)| (p.0@, p.1@))
}

/// Pairs of a string and a list of strings, as characters.
pub open spec fn groups_view(v: Seq<(String, Vec<String>)>) -> Seq<(Seq<char>, Seq<Seq<char>>)> {
    v.map_values(|p: (String, Vec<String>)| (p.0@, names_view(p.1@)))
}

impl View for CrossRefTables {
    type V = XrefModel;

    open spec fn view(&self) -> XrefModel {
        XrefModel {
            lb_names: names_view(self.lb_names@),
            network_names: names_view(self.network_names@),
            server_names: names_view(self.server_names@),
            k8s_names: names_view(self.k8s_names@),
            ssh_key_map: login_table(self.ssh_key_map@),
            backend_names: names_view(self.backend_names@),
            cert_bundle_names: names_view(self.cert_bundle_names@),
            server_info_map: opt_table(self.server_info_map@),
            firewall_to_server_map: groups_view(self.firewall_to_server_map@),
            network_count_map: bool_table(self.network_count_map@),
            param_group_map: params_table(self.param_group_map@),
            subnet_group_subnets_map: groups_view(self.subnet_group_subnets_map@),
            lb_backend_net_map: pairs_view(self.lb_backend_net_map@),
            storage_inject_map: groups_view(self.storage_inject_map@),
            storage_promote_count: pairs_view(self.storage_promote_count@),
            probe_health_map: pairs_view(self.probe_health_map@),
        }
    }
}

/// The index of the first of `keys` equal to `k`.
pub open spec fn key_index(keys: Seq<Seq<char>>, k: Seq<char>) -> Option<int>
    decreases keys.len(),
{
    if keys.len() == 0 {
        None
    } else if keys[0] == k {
        Some(0)
    } else {
        match key_index(keys.drop_first(), k) {
            Some(i) => Some(i + 1),
            None => None,
        }
    }
}

pub proof fn lemma_key_index(keys: Seq<Seq<char>>, k: Seq<char>)
    ensures
        key_index(keys, k) matches Some(i) ==> 0 <= i < keys.len() && keys[i] == k && forall|j: int| 0 <= j < i ==> keys[j] != k,
        key_index(keys, k) is None ==> forall|j: int| 0 <= j < keys.len() ==> keys[j] != k,
    decreases keys.len(),
{
    if keys.len() > 0 {
        lemma_key_index(keys.drop_first(), k);
        assert forall|j: int| 1 <= j < keys.len() implies keys[j] == keys.drop_first()[j - 1] by {}
    }
}

/// The keys of a table.
pub open spec fn keys_of<V>(m: Seq<(Seq<char>, V)>) -> Seq<Seq<char>> {
    m.map_values(|p: (Seq<char>, V)| p.0)
}

/// The keys of a table of strings.
pub open spec fn str_keys<V>(m: Seq<(String, V)>) -> Seq<Seq<char>> {
    m.map_values(|p: (String, V)| p.0@)
}

/// The value of the first entry of `m` with key `k`.
pub open spec fn kv_get<V>(m: Seq<(Seq<char>, V)>, k: Seq<char>) -> Option<V> {
    match key_index(keys_of(m), k) {
        Some(i) => Some(m[i].1),
        None => None,
    }
}

/// Where key `k` first occurs in `m`.
pub fn kv_find<V>(m: &Vec<(String, V)>, k: &str) -> (r: Option<usize>)
    ensures
        match r {
            Some(i) => i < m@.len() && key_index(str_keys(m@), k@) == Some(i as int),
            None => key_index(str_keys(m@), k@) is None,
        },
{
    let ghost ks = str_keys(m@);
    proof {
        lemma_key_index(ks, k@);
    }
    let kv = chars_of(k);
    let mut i: usize = 0;
    while i < m.len()
        invariant
            i <= m@.len(),
            kv@ == k@,
            ks == str_keys(m@),
            ks.len() == m@.len(),
            forall|j: int| 0 <= j < i ==> ks[j] != k@,
            key_index(ks, k@) matches Some(x) ==> 0 <= x < ks.len() && ks[x] == k@ && forall|j: int| 0 <= j < x ==> ks[j] != k@,
            key_index(ks, k@) is None ==> forall|j: int| 0 <= j < ks.len() ==> ks[j] != k@,
        decreases m@.len() - i,
    {
        assert(ks[i as int] == m@[i as int].0@);
        if seq_eq(&chars_of(m[i].0.as_str()), &kv) {
            return Some(i);
        }
        i += 1;
    }
    None
}

/// Whether `names` holds `k`.
pub open spec fn has_name(names: Seq<Seq<char>>, k: Seq<char>) -> bool {
    exists|i: int| 0 <= i < names.len() && names[i] == k
}

pub fn contains_name(names: &Vec<String>, k: &str) -> (r: bool)
    ensures
        r == has_name(names_view(names@), k@),
{
    let ghost nv = names_view(names@);
    let kv = chars_of(k);
    let mut i: usize = 0;
    while i < names.len()
        invariant
            i <= names@.len(),
            kv@ == k@,
            nv == names_view(names@),
            nv.len() == names@.len(),
            forall|j: int| 0 <= j < i ==> nv[j] != k@,
        decreases names@.len() - i,
    {
        assert(nv[i as int] == names@[i as int]@);
        if seq_eq(&chars_of(names[i].as_str()), &kv) {
            return true;
        }
        i += 1;
    }
    false
}

/// A login key value, as its form (literal or not) and text.
pub open spec fn login_view(v: LoginKeysValue) -> (bool, Seq<char>) {
    match v {
        LoginKeysValue::Literal(s) => (true, s@),
        LoginKeysValue::Expression(e) => (false, e@),
    }
}

/// The first block, from index `i`, with identifier `id`.
pub open spec fn first_block<A>(bs: Seq<(Seq<char>, A)>, id: Seq<char>, i: int) -> Option<A>
    decreases bs.len() - i,
{
    if i < 0 || i >= bs.len() {
        None
    } else if bs[i].0 == id {
        Some(bs[i].1)
    } else {
        first_block(bs, id, i + 1)
    }
}

/// The SSH key among parsed top-level blocks: the first element of the `keys` array of
/// the first `login` block, a literal string or an expression (written as HCL); none when
/// either is missing or the key is still a TODO.
pub open spec fn login_keys_of_blocks(bs: Seq<(Seq<char>, Seq<(Seq<char>, Option<Seq<(Option<Seq<char>>, Seq<char>)>>)>)>) -> Option<(bool, Seq<char>)> {
    match first_block(bs, "login"@, 0) {
        None => None,
        Some(attrs) => match first_block(attrs, "keys"@, 0) {
            None => None,
            Some(arr) => match arr {
                None => None,
                Some(els) => if els.len() == 0 || contains(els[0].1, "<TODO"@) {
                    None
                } else {
                    match els[0].0 {
                        Some(lit) => Some((true, lit)),
                        None => Some((false, els[0].1)),
                    }
                },
            },
        },
    }
}

/// The SSH key of a `login { keys = [...] }` snippet; none when the snippet does not
/// parse or holds no usable key.
pub open spec fn spec_extract_login_keys(snippet: Seq<char>) -> Option<(bool, Seq<char>)> {
    match hcl_top_blocks(snippet) {
        None => None,
        Some(bs) => login_keys_of_blocks(bs),
    }
}

/// The SSH public key value among parsed top-level blocks.
pub fn login_keys_from_blocks(bs: &Vec<(String, Vec<(String, Option<Vec<(Option<String>, String)>>)>)>) -> (r: Option<LoginKeysValue>)
    ensures
        match r {
            Some(v) => login_keys_of_blocks(top_view(Some(*bs))->0) == Some(login_view(v)),
            None => login_keys_of_blocks(top_view(Some(*bs))->0) is None,
        },
{
    let ghost bv = top_view(Some(*bs))->0;
    let mut i: usize = 0;
    let mut login: Option<usize> = None;
    while i < bs.len()
        invariant_except_break
            login is None,
        invariant
            i <= bs@.len(),
            bv == top_view(Some(*bs))->0,
            bv.len() == bs@.len(),
            first_block(bv, "login"@, 0) == first_block(bv, "login"@, i as int),
        ensures
            login matches Some(k) ==> k < bs@.len() && first_block(bv, "login"@, 0) == Some(bv[k as int].1),
            login is None ==> first_block(bv, "login"@, 0) is None,
        decreases bs@.len() - i,
    {
        assert(bv[i as int].0 == bs@[i as int].0@);
        if crate::text::eq_str(&chars_of(bs[i].0.as_str()), "login") {
            login = Some(i);
            break;
        }
        i += 1;
    }
    let li = match login {
        Some(li) => li,
        None => return None,
    };
    assert(bv[li as int].1 == top_attrs_view(bs@[li as int].1@));
    let attrs = &bs[li].1;
    let ghost av = top_attrs_view(attrs@);
    let mut j: usize = 0;
    let mut keys: Option<usize> = None;
    while j < attrs.len()
        invariant_except_break
            keys is None,
        invariant
            j <= attrs@.len(),
            av == top_attrs_view(attrs@),
            av.len() == attrs@.len(),
            first_block(av, "keys"@, 0) == first_block(av, "keys"@, j as int),
        ensures
            keys matches Some(k) ==> k < attrs@.len() && first_block(av, "keys"@, 0) == Some(av[k as int].1),
            keys is None ==> first_block(av, "keys"@, 0) is None,
        decreases attrs@.len() - j,
    {
        assert(av[j as int].0 == attrs@[j as int].0@);
        if crate::text::eq_str(&chars_of(attrs[j].0.as_str()), "keys") {
            keys = Some(j);
            break;
        }
        j += 1;
    }
    let ki = match keys {
        Some(ki) => ki,
        None => return None,
    };
    assert(first_block(av, "keys"@, 0) == Some(av[ki as int].1));
    match &attrs[ki].1 {
        None => None,
        Some(els) => {
            assert(av[ki as int].1 == Some(elems_view(els@)));
            if els.len() == 0 || contains_str(&chars_of(els[0].1.as_str()), "<TODO") {
                None
            } else {
                match &els[0].0 {
                    Some(lit) => Some(LoginKeysValue::Literal(string_of(&chars_of(lit.as_str())))),
                    None => Some(LoginKeysValue::Expression(string_of(&chars_of(els[0].1.as_str())))),
                }
            }
        },
    }
}


/// Extract the SSH public key value from a `login { keys = [...] }` snippet.
pub fn extract_login_keys(snippet: &str) -> (r: Option<LoginKeysValue>)
    ensures
        match r {
            Some(v) => spec_extract_login_keys(snippet@) == Some(login_view(v)),
            None => spec_extract_login_keys(snippet@) is None,
        },
{
    match parse_top_blocks(snippet) {
        Some(bs) => login_keys_from_blocks(&bs),
        None => None,
    }
}

// ── Table operations ─────────────────────────────────────────────────────────

/// `m` with key `k` bound to `v` (in place when `k` is there, else appended).
pub open spec fn vput<V>(m: Seq<(Seq<char>, V)>, k: Seq<char>, v: V) -> Seq<(Seq<char>, V)> {
    match key_index(keys_of(m), k) {
        Some(i) => m.update(i, (k, v)),
        None => m.push((k, v)),
    }
}

/// `m` with `v` bound to `k` unless `k` is there already.
pub open spec fn vput_absent<V>(m: Seq<(Seq<char>, V)>, k: Seq<char>, v: V) -> Seq<(Seq<char>, V)> {
    match key_index(keys_of(m), k) {
        Some(i) => m,
        None => m.push((k, v)),
    }
}

/// `m` with `v` appended to the list of `k` (a new list when `k` is not there).
pub open spec fn vappend(m: Seq<(Seq<char>, Seq<Seq<char>>)>, k: Seq<char>, v: Seq<char>) -> Seq<(Seq<char>, Seq<Seq<char>>)> {
    match key_index(keys_of(m), k) {
        Some(i) => m.update(i, (k, m[i].1.push(v))),
        None => m.push((k, seq![v])),
    }
}

/// `m` with `v` appended to the list of `k` unless the list holds it.
pub open spec fn vappend_unique(m: Seq<(Seq<char>, Seq<Seq<char>>)>, k: Seq<char>, v: Seq<char>) -> Seq<(Seq<char>, Seq<Seq<char>>)> {
    match key_index(keys_of(m), k) {
        Some(i) => if has_name(m[i].1, v) { m } else { m.update(i, (k, m[i].1.push(v))) },
        None => m.push((k, seq![v])),
    }
}


/// A table of `LoginKeysValue` values, as characters.
pub open spec fn login_table(m: Seq<(String, LoginKeysValue)>) -> Seq<(Seq<char>, (bool, Seq<char>))> {
    m.map_values(|p: (String, LoginKeysValue)| (p.0@, login_view(p.1)))
}

fn put_login(m: &mut Vec<(String, LoginKeysValue)>, k: String, v: LoginKeysValue)
    ensures
        login_table(final(m)@) == vput(login_table(old(m)@), k@, login_view(v)),
{
    let ghost before = login_table(m@);
    assert(keys_of(before) =~= str_keys(m@));
    match kv_find(m, k.as_str()) {
        Some(i) => {
            let _ = m.remove(i);
            m.insert(i, (k, v));
            assert(login_table(m@) =~= before.update(i as int, (k@, login_view(v))));
        },
        None => {
            m.push((k, v));
            assert(login_table(m@) =~= before.push((k@, login_view(v))));
        },
    }
}

/// A table of `Option<String>` values, as characters.
pub open spec fn opt_table(m: Seq<(String, Option<String>)>) -> Seq<(Seq<char>, Option<Seq<char>>)> {
    m.map_values(|p: (String, Option<String>)| (p.0@, opt_view(p.1)))
}

fn put_opt(m: &mut Vec<(String, Option<String>)>, k: String, v: Option<String>)
    ensures
        opt_table(final(m)@) == vput(opt_table(old(m)@), k@, opt_view(v)),
{
    let ghost before = opt_table(m@);
    assert(keys_of(before) =~= str_keys(m@));
    match kv_find(m, k.as_str()) {
        Some(i) => {
            let _ = m.remove(i);
            m.insert(i, (k, v));
            assert(opt_table(m@) =~= before.update(i as int, (k@, opt_view(v))));
        },
        None => {
            m.push((k, v));
            assert(opt_table(m@) =~= before.push((k@, opt_view(v))));
        },
    }
}

/// A table of `bool` values, as characters.
pub open spec fn bool_table(m: Seq<(String, bool)>) -> Seq<(Seq<char>, bool)> {
    m.map_values(|p: (String, bool)| (p.0@, p.1))
}

fn put_bool(m: &mut Vec<(String, bool)>, k: String, v: bool)
    ensures
        bool_table(final(m)@) == vput(bool_table(old(m)@), k@, v),
{
    let ghost before = bool_table(m@);
    assert(keys_of(before) =~= str_keys(m@));
    match kv_find(m, k.as_str()) {
        Some(i) => {
            let _ = m.remove(i);
            m.insert(i, (k, v));
            assert(bool_table(m@) =~= before.update(i as int, (k@, v)));
        },
        None => {
            m.push((k, v));
            assert(bool_table(m@) =~= before.push((k@, v)));
        },
    }
}

/// A table of `Vec<(String, String)>` values, as characters.
pub open spec fn params_table(m: Seq<(String, Vec<(String, String)>)>) -> Seq<(Seq<char>, Seq<(Seq<char>, Seq<char>)>)> {
    m.map_values(|p: (String, Vec<(String, String)>)| (p.0@, pairs_view(p.1@)))
}

fn put_params(m: &mut Vec<(String, Vec<(String, String)>)>, k: String, v: Vec<(String, String)>)
    ensures
        params_table(final(m)@) == vput(params_table(old(m)@), k@, pairs_view(v@)),
{
    let ghost before = params_table(m@);
    assert(keys_of(before) =~= str_keys(m@));
    match kv_find(m, k.as_str()) {
        Some(i) => {
            let _ = m.remove(i);
            m.insert(i, (k, v));
            assert(params_table(m@) =~= before.update(i as int, (k@, pairs_view(v@))));
        },
        None => {
            m.push((k, v));
            assert(params_table(m@) =~= before.push((k@, pairs_view(v@))));
        },
    }
}

fn put_str(m: &mut Vec<(String, String)>, k: String, v: String)
    ensures
        pairs_view(final(m)@) == vput(pairs_view(old(m)@), k@, v@),
{
    let ghost before = pairs_view(m@);
    assert(keys_of(before) =~= str_keys(m@));
    match kv_find(m, k.as_str()) {
        Some(i) => {
            let _ = m.remove(i);
            m.insert(i, (k, v));
            assert(pairs_view(m@) =~= before.update(i as int, (k@, v@)));
        },
        None => {
            m.push((k, v));
            assert(pairs_view(m@) =~= before.push((k@, v@)));
        },
    }
}

fn put_names(m: &mut Vec<(String, Vec<String>)>, k: String, v: Vec<String>)
    ensures
        groups_view(final(m)@) == vput(groups_view(old(m)@), k@, names_view(v@)),
{
    let ghost before = groups_view(m@);
    assert(keys_of(before) =~= str_keys(m@));
    match kv_find(m, k.as_str()) {
        Some(i) => {
            let _ = m.remove(i);
            m.insert(i, (k, v));
            assert(groups_view(m@) =~= before.update(i as int, (k@, names_view(v@))));
        },
        None => {
            m.push((k, v));
            assert(groups_view(m@) =~= before.push((k@, names_view(v@))));
        },
    }
}

fn put_str_absent(m: &mut Vec<(String, String)>, k: String, v: String)
    ensures
        pairs_view(final(m)@) == vput_absent(pairs_view(old(m)@), k@, v@),
{
    let ghost before = pairs_view(m@);
    assert(keys_of(before) =~= str_keys(m@));
    match kv_find(m, k.as_str()) {
        Some(i) => {},
        None => {
            m.push((k, v));
            assert(pairs_view(m@) =~= before.push((k@, v@)));
        },
    }
}

fn append_name(m: &mut Vec<(String, Vec<String>)>, k: String, v: String, unique: bool)
    ensures
        groups_view(final(m)@) == if unique { vappend_unique(groups_view(old(m)@), k@, v@) } else { vappend(groups_view(old(m)@), k@, v@) },
{
    let ghost before = groups_view(m@);
    assert(keys_of(before) =~= str_keys(m@));
    match kv_find(m, k.as_str()) {
        Some(i) => {
            assert(before[i as int].1 == names_view(m@[i as int].1@));
            if unique && contains_name(&m[i].1, v.as_str()) {
            } else {
                let (k0, mut vs) = m.remove(i);
                let ghost old_vs = vs@;
                vs.push(v);
                assert(names_view(vs@) =~= names_view(old_vs).push(v@));
                m.insert(i, (k, vs));
                assert(groups_view(m@) =~= before.update(i as int, (k@, before[i as int].1.push(v@))));
            }
        },
        None => {
            let mut vs: Vec<String> = Vec::new();
            vs.push(v);
            assert(names_view(vs@) =~= seq![v@]);
            m.push((k, vs));
            assert(groups_view(m@) =~= before.push((k@, seq![v@])));
        },
    }
}


// ── What the tables hold ─────────────────────────────────────────────────────

/// The `count` of a generated block, if it has one.
pub open spec fn hcl_count(o: Option<String>) -> Option<Seq<char>> {
    match o {
        Some(h) => spec_extract_count(h@),
        None => None,
    }
}

/// The names of the first `n` results whose UpCloud type is `t`.
pub open spec fn names_of_type(rs: Seq<MigrationResult>, t: Seq<char>, n: int) -> Seq<Seq<char>>
    decreases n,
{
    if n <= 0 {
        seq![]
    } else {
        let prev = names_of_type(rs, t, n - 1);
        if rs[n - 1].upcloud_type@ == t { prev.push(rs[n - 1].resource_name@) } else { prev }
    }
}

/// The names of the first `n` results whose UpCloud type mentions `upcloud_network`.
pub open spec fn network_names_upto(rs: Seq<MigrationResult>, n: int) -> Seq<Seq<char>>
    decreases n,
{
    if n <= 0 {
        seq![]
    } else {
        let prev = network_names_upto(rs, n - 1);
        if contains(rs[n - 1].upcloud_type@, "upcloud_network"@) { prev.push(rs[n - 1].resource_name@) } else { prev }
    }
}

/// Key pair name → SSH key, over the first `n` results.
pub open spec fn ssh_upto<P: SourceProvider>(p: P, rs: Seq<MigrationResult>, n: int) -> Seq<(Seq<char>, (bool, Seq<char>))>
    decreases n,
{
    if n <= 0 {
        seq![]
    } else {
        let prev = ssh_upto(p, rs, n - 1);
        let r = rs[n - 1];
        if p.spec_role(r.resource_type@) == ResourceRole::KeyPair {
            match r.snippet {
                Some(sn) => match spec_extract_login_keys(sn@) {
                    Some(kv) => vput(prev, r.resource_name@, kv),
                    None => prev,
                },
                None => prev,
            }
        } else {
            prev
        }
    }
}

/// Server name → its `count`, over the first `n` results.
pub open spec fn server_info_upto(rs: Seq<MigrationResult>, n: int) -> Seq<(Seq<char>, Option<Seq<char>>)>
    decreases n,
{
    if n <= 0 {
        seq![]
    } else {
        let prev = server_info_upto(rs, n - 1);
        let r = rs[n - 1];
        if r.upcloud_type@ == "upcloud_server"@ { vput(prev, r.resource_name@, hcl_count(r.upcloud_hcl)) } else { prev }
    }
}

/// `name` appended to the list of each of the first `j` firewalls.
pub open spec fn refs_fold(m: Seq<(Seq<char>, Seq<Seq<char>>)>, refs: Seq<Seq<char>>, name: Seq<char>, j: int) -> Seq<(Seq<char>, Seq<Seq<char>>)>
    decreases j,
{
    if j <= 0 { m } else { vappend(refs_fold(m, refs, name, j - 1), refs[j - 1], name) }
}

/// Firewall name → the compute instances that reference it, over the first `n` results.
pub open spec fn fw_upto<P: SourceProvider>(p: P, rs: Seq<MigrationResult>, n: int) -> Seq<(Seq<char>, Seq<Seq<char>>)>
    decreases n,
{
    if n <= 0 {
        seq![]
    } else {
        let prev = fw_upto(p, rs, n - 1);
        let r = rs[n - 1];
        if p.spec_role(r.resource_type@) == ResourceRole::ComputeInstance {
            match r.source_hcl {
                Some(h) => refs_fold(prev, p.spec_security_refs(h@), r.resource_name@, p.spec_security_refs(h@).len() as int),
                None => prev,
            }
        } else {
            prev
        }
    }
}

/// Network name → whether it has a `count`, over the first `n` results.
pub open spec fn netcount_upto(rs: Seq<MigrationResult>, n: int) -> Seq<(Seq<char>, bool)>
    decreases n,
{
    if n <= 0 {
        seq![]
    } else {
        let prev = netcount_upto(rs, n - 1);
        let r = rs[n - 1];
        if contains(r.upcloud_type@, "upcloud_network"@) { vput(prev, r.resource_name@, hcl_count(r.upcloud_hcl) is Some) } else { prev }
    }
}

/// Parameter group name → its parameters, over the first `n` results.
pub open spec fn params_upto<P: SourceProvider>(p: P, rs: Seq<MigrationResult>, n: int) -> Seq<(Seq<char>, Seq<(Seq<char>, Seq<char>)>)>
    decreases n,
{
    if n <= 0 {
        seq![]
    } else {
        let prev = params_upto(p, rs, n - 1);
        let r = rs[n - 1];
        if p.spec_role(r.resource_type@) == ResourceRole::ParameterGroup {
            match r.source_hcl {
                Some(h) => vput(prev, r.resource_name@, p.spec_parameters(h@)),
                None => prev,
            }
        } else {
            prev
        }
    }
}

/// Subnet group name → its subnets (when it has any), over the first `n` results.
pub open spec fn subnet_groups_upto<P: SourceProvider>(p: P, rs: Seq<MigrationResult>, n: int) -> Seq<(Seq<char>, Seq<Seq<char>>)>
    decreases n,
{
    if n <= 0 {
        seq![]
    } else {
        let prev = subnet_groups_upto(p, rs, n - 1);
        let r = rs[n - 1];
        if p.spec_role(r.resource_type@) == ResourceRole::SubnetGroup {
            match r.source_hcl {
                Some(h) => if p.spec_subnet_group_subnets(h@).len() > 0 {
                    vput(prev, r.resource_name@, p.spec_subnet_group_subnets(h@))
                } else {
                    prev
                },
                None => prev,
            }
        } else {
            prev
        }
    }
}

/// Compute instance → the subnet its source names, over the first `n` results.
pub open spec fn server_subnets_upto<P: SourceProvider>(p: P, rs: Seq<MigrationResult>, n: int) -> Seq<(Seq<char>, Seq<char>)>
    decreases n,
{
    if n <= 0 {
        seq![]
    } else {
        let prev = server_subnets_upto(p, rs, n - 1);
        let r = rs[n - 1];
        if p.spec_role(r.resource_type@) == ResourceRole::ComputeInstance {
            match r.source_hcl {
                Some(h) => match p.spec_instance_subnet(h@) {
                    Some(sn) => vput(prev, r.resource_name@, sn),
                    None => prev,
                },
                None => prev,
            }
        } else {
            prev
        }
    }
}

/// Network interface (of type `nt`) → its subnet, over the first `n` results.
pub open spec fn nic_subnets_upto<P: SourceProvider>(p: P, rs: Seq<MigrationResult>, nt: Seq<char>, n: int) -> Seq<(Seq<char>, Seq<char>)>
    decreases n,
{
    if n <= 0 {
        seq![]
    } else {
        let prev = nic_subnets_upto(p, rs, nt, n - 1);
        let r = rs[n - 1];
        if r.resource_type@ == nt {
            match r.source_hcl {
                Some(h) => match p.spec_nic_subnet(h@) {
                    Some(sn) => vput(prev, r.resource_name@, sn),
                    None => prev,
                },
                None => prev,
            }
        } else {
            prev
        }
    }
}

/// The subnet of the first of `nics`, from index `j`, that has one.
pub open spec fn first_nic_subnet(nics: Seq<Seq<char>>, ntm: Seq<(Seq<char>, Seq<char>)>, j: int) -> Option<Seq<char>>
    decreases nics.len() - j,
{
    if j < 0 || j >= nics.len() {
        None
    } else {
        match kv_get(ntm, nics[j]) {
            Some(sn) => Some(sn),
            None => first_nic_subnet(nics, ntm, j + 1),
        }
    }
}

/// Compute instances without a subnet of their own, with the subnet of their first
/// network interface that has one, over the first `n` results.
pub open spec fn nic_supplements<P: SourceProvider>(p: P, rs: Seq<MigrationResult>, base: Seq<(Seq<char>, Seq<char>)>, ntm: Seq<(Seq<char>, Seq<char>)>, n: int) -> Seq<(Seq<char>, Seq<char>)>
    decreases n,
{
    if n <= 0 {
        seq![]
    } else {
        let prev = nic_supplements(p, rs, base, ntm, n - 1);
        let r = rs[n - 1];
        if p.spec_role(r.resource_type@) == ResourceRole::ComputeInstance && key_index(keys_of(base), r.resource_name@) is None {
            match r.source_hcl {
                Some(h) => match first_nic_subnet(p.spec_nic_refs(h@), ntm, 0) {
                    Some(sn) => prev.push((r.resource_name@, sn)),
                    None => prev,
                },
                None => prev,
            }
        } else {
            prev
        }
    }
}

/// The first `k` pairs bound in `m`, in order.
pub open spec fn put_all(m: Seq<(Seq<char>, Seq<char>)>, ps: Seq<(Seq<char>, Seq<char>)>, k: int) -> Seq<(Seq<char>, Seq<char>)>
    decreases k,
{
    if k <= 0 { m } else { vput(put_all(m, ps, k - 1), ps[k - 1].0, ps[k - 1].1) }
}

/// Compute instance → subnet: from its own source, else through its network interfaces.
pub open spec fn server_subnet_map<P: SourceProvider>(p: P, rs: Seq<MigrationResult>) -> Seq<(Seq<char>, Seq<char>)> {
    let base = server_subnets_upto(p, rs, rs.len() as int);
    match p.spec_nic_type() {
        Some(nt) => {
            let ntm = nic_subnets_upto(p, rs, nt, rs.len() as int);
            if ntm.len() > 0 {
                let sup = nic_supplements(p, rs, base, ntm, rs.len() as int);
                put_all(base, sup, sup.len() as int)
            } else {
                base
            }
        },
        None => base,
    }
}

/// Subnet → security group, from the association resources (of type `at`) among the
/// first `n` results.
pub open spec fn assoc_upto<P: SourceProvider>(p: P, rs: Seq<MigrationResult>, at: Seq<char>, n: int) -> Seq<(Seq<char>, Seq<char>)>
    decreases n,
{
    if n <= 0 {
        seq![]
    } else {
        let prev = assoc_upto(p, rs, at, n - 1);
        let r = rs[n - 1];
        if r.resource_type@ == at {
            match r.source_hcl {
                Some(h) => match p.spec_subnet_nsg(h@) {
                    Some(pr) => vput(prev, pr.0, pr.1),
                    None => prev,
                },
                None => prev,
            }
        } else {
            prev
        }
    }
}

/// Each of the first `k` servers added (once) to the firewall of its subnet.
pub open spec fn fw_assoc_fold(fw: Seq<(Seq<char>, Seq<Seq<char>>)>, ssm: Seq<(Seq<char>, Seq<char>)>, snm: Seq<(Seq<char>, Seq<char>)>, k: int) -> Seq<(Seq<char>, Seq<Seq<char>>)>
    decreases k,
{
    if k <= 0 {
        fw
    } else {
        let prev = fw_assoc_fold(fw, ssm, snm, k - 1);
        match kv_get(snm, ssm[k - 1].1) {
            Some(nsg) => vappend_unique(prev, nsg, ssm[k - 1].0),
            None => prev,
        }
    }
}

/// Firewall → servers: the instances that reference it, and those on a subnet that a
/// subnet association binds to it.
pub open spec fn firewall_map<P: SourceProvider>(p: P, rs: Seq<MigrationResult>) -> Seq<(Seq<char>, Seq<Seq<char>>)> {
    let fw0 = fw_upto(p, rs, rs.len() as int);
    match p.spec_subnet_nsg_association_type() {
        Some(at) => {
            let snm = assoc_upto(p, rs, at, rs.len() as int);
            if snm.len() > 0 {
                let ssm = server_subnet_map(p, rs);
                fw_assoc_fold(fw0, ssm, snm, ssm.len() as int)
            } else {
                fw0
            }
        },
        None => fw0,
    }
}

/// Target group → servers, over the first `n` results.
pub open spec fn tg_servers_upto<P: SourceProvider>(p: P, rs: Seq<MigrationResult>, n: int) -> Seq<(Seq<char>, Seq<Seq<char>>)>
    decreases n,
{
    if n <= 0 {
        seq![]
    } else {
        let prev = tg_servers_upto(p, rs, n - 1);
        let r = rs[n - 1];
        if p.spec_role(r.resource_type@) == ResourceRole::LbTargetGroupAttachment {
            match r.source_hcl {
                Some(h) => match p.spec_tg_server(h@) {
                    Some(pr) => vappend(prev, pr.0, pr.1),
                    None => prev,
                },
                None => prev,
            }
        } else {
            prev
        }
    }
}

/// The load balancer of a listener: its parent, else the one its source names.
pub open spec fn listener_lb<P: SourceProvider>(p: P, r: MigrationResult, h: Seq<char>) -> Seq<char> {
    let fallback = match p.spec_listener_lb(h) {
        Some(y) => y,
        None => seq![],
    };
    match r.parent_resource {
        Some(x) => if x@.len() > 0 { x@ } else { fallback },
        None => fallback,
    }
}

/// Load balancer → target groups, over the first `n` results.
pub open spec fn lb_tgs_upto<P: SourceProvider>(p: P, rs: Seq<MigrationResult>, n: int) -> Seq<(Seq<char>, Seq<Seq<char>>)>
    decreases n,
{
    if n <= 0 {
        seq![]
    } else {
        let prev = lb_tgs_upto(p, rs, n - 1);
        let r = rs[n - 1];
        if p.spec_role(r.resource_type@) == ResourceRole::LbListener {
            match r.source_hcl {
                Some(h) => match p.spec_listener_tg(h@) {
                    Some(tg) => if listener_lb(p, r, h@).len() > 0 { vappend(prev, listener_lb(p, r, h@), tg) } else { prev },
                    None => prev,
                },
                None => prev,
            }
        } else {
            prev
        }
    }
}

/// The subnet of the first of `servers`, from index `j`, whose subnet is a known network.
pub open spec fn first_net_of_servers(servers: Seq<Seq<char>>, ssm: Seq<(Seq<char>, Seq<char>)>, nets: Seq<Seq<char>>, j: int) -> Option<Seq<char>>
    decreases servers.len() - j,
{
    if j < 0 || j >= servers.len() {
        None
    } else {
        match kv_get(ssm, servers[j]) {
            Some(sn) => if has_name(nets, sn) { Some(sn) } else { first_net_of_servers(servers, ssm, nets, j + 1) },
            None => first_net_of_servers(servers, ssm, nets, j + 1),
        }
    }
}

/// The first such network over the servers of the target groups, from index `i`.
pub open spec fn first_net_of_tgs(tgs: Seq<Seq<char>>, tgsm: Seq<(Seq<char>, Seq<Seq<char>>)>, ssm: Seq<(Seq<char>, Seq<char>)>, nets: Seq<Seq<char>>, i: int) -> Option<Seq<char>>
    decreases tgs.len() - i,
{
    if i < 0 || i >= tgs.len() {
        None
    } else {
        match kv_get(tgsm, tgs[i]) {
            Some(servers) => match first_net_of_servers(servers, ssm, nets, 0) {
                Some(sn) => Some(sn),
                None => first_net_of_tgs(tgs, tgsm, ssm, nets, i + 1),
            },
            None => first_net_of_tgs(tgs, tgsm, ssm, nets, i + 1),
        }
    }
}

/// Load balancer → the network of its backends, over the first `k` load balancers.
pub open spec fn lb_net_fold(lbt: Seq<(Seq<char>, Seq<Seq<char>>)>, tgsm: Seq<(Seq<char>, Seq<Seq<char>>)>, ssm: Seq<(Seq<char>, Seq<char>)>, nets: Seq<Seq<char>>, k: int) -> Seq<(Seq<char>, Seq<char>)>
    decreases k,
{
    if k <= 0 {
        seq![]
    } else {
        let prev = lb_net_fold(lbt, tgsm, ssm, nets, k - 1);
        match first_net_of_tgs(lbt[k - 1].1, tgsm, ssm, nets, 0) {
            Some(sn) => vput(prev, lbt[k - 1].0, sn),
            None => prev,
        }
    }
}

/// Storage name → whether it has a `count`, over the first `n` results.
pub open spec fn storage_count_upto(rs: Seq<MigrationResult>, n: int) -> Seq<(Seq<char>, bool)>
    decreases n,
{
    if n <= 0 {
        seq![]
    } else {
        let prev = storage_count_upto(rs, n - 1);
        let r = rs[n - 1];
        if r.upcloud_type@ == "upcloud_storage"@ { vput(prev, r.resource_name@, hcl_count(r.upcloud_hcl) is Some) } else { prev }
    }
}

/// The storage named on the first `storage = upcloud_storage.NAME...` line, from line `j`.
pub open spec fn storage_line_name(ls: Seq<Seq<char>>, j: int) -> Option<Seq<char>>
    decreases ls.len() - j,
{
    if j < 0 || j >= ls.len() {
        None
    } else if starts_with(trim(ls[j]), "storage = upcloud_storage."@) {
        Some(before_char(trim(ls[j]).skip(26), '.'))
    } else {
        storage_line_name(ls, j + 1)
    }
}

/// The reference a server's `storage_devices` block makes to a storage.
pub open spec fn storage_ref(st: Seq<char>, server_counted: bool, storage_counted: bool) -> Seq<char> {
    if server_counted {
        "upcloud_storage."@ + st + "[count.index].id"@
    } else if storage_counted {
        "upcloud_storage."@ + st + "[0].id"@
    } else {
        "upcloud_storage."@ + st + ".id"@
    }
}

/// A `storage_devices` block.
pub open spec fn storage_block(sref: Seq<char>) -> Seq<char> {
    "  storage_devices {\n    storage = "@ + sref + "\n    type    = \"disk\"\n  }\n"@
}

/// Server → `storage_devices` blocks, and storage → the `count` it takes from a counted
/// server, over the first `n` volume attachments.
pub open spec fn storage_upto<P: SourceProvider>(p: P, rs: Seq<MigrationResult>, sim: Seq<(Seq<char>, Option<Seq<char>>)>, scm: Seq<(Seq<char>, bool)>, n: int) -> (Seq<(Seq<char>, Seq<Seq<char>>)>, Seq<(Seq<char>, Seq<char>)>)
    decreases n,
{
    if n <= 0 {
        (seq![], seq![])
    } else {
        let prev = storage_upto(p, rs, sim, scm, n - 1);
        let r = rs[n - 1];
        if p.spec_role(r.resource_type@) == ResourceRole::VolumeAttachment {
            match (r.parent_resource, r.snippet) {
                (Some(srv), Some(sn)) => if srv@.len() > 0 {
                    match storage_line_name(lines(sn@), 0) {
                        Some(st) => {
                            let sc = match kv_get(sim, srv@) { Some(c) => c, None => None };
                            let sthc = kv_get(scm, st) == Some(true);
                            let promote = match sc {
                                Some(c) => if !sthc { vput(prev.1, st, c) } else { prev.1 },
                                None => prev.1,
                            };
                            (vappend(prev.0, srv@, storage_block(storage_ref(st, sc is Some, sthc))), promote)
                        },
                        None => prev,
                    }
                } else {
                    prev
                },
                _ => prev,
            }
        } else {
            prev
        }
    }
}

/// Probe (of type `pt`) → its health check properties, when it has any, over the first
/// `n` results.
pub open spec fn probe_props_upto<P: SourceProvider>(p: P, rs: Seq<MigrationResult>, pt: Seq<char>, n: int) -> Seq<(Seq<char>, Seq<char>)>
    decreases n,
{
    if n <= 0 {
        seq![]
    } else {
        let prev = probe_props_upto(p, rs, pt, n - 1);
        let r = rs[n - 1];
        if r.resource_type@ == pt {
            match r.source_hcl {
                Some(h) => if p.spec_probe_props(h@).len() > 0 { vput(prev, r.resource_name@, p.spec_probe_props(h@)) } else { prev },
                None => prev,
            }
        } else {
            prev
        }
    }
}

/// Backend pool → the health check of the probe its first rule names, over the first `n`
/// results.
pub open spec fn probe_health_upto<P: SourceProvider>(p: P, rs: Seq<MigrationResult>, psm: Seq<(Seq<char>, Seq<char>)>, n: int) -> Seq<(Seq<char>, Seq<char>)>
    decreases n,
{
    if n <= 0 {
        seq![]
    } else {
        let prev = probe_health_upto(p, rs, psm, n - 1);
        let r = rs[n - 1];
        if p.spec_role(r.resource_type@) == ResourceRole::LbListener {
            match r.source_hcl {
                Some(h) => match p.spec_rule_probe(h@) {
                    Some(pr) => match kv_get(psm, pr.1) {
                        Some(props) => vput_absent(prev, pr.0, props),
                        None => prev,
                    },
                    None => prev,
                },
                None => prev,
            }
        } else {
            prev
        }
    }
}

/// The cross-reference tables of a set of results.
pub open spec fn spec_cross_ref<P: SourceProvider>(p: P, rs: Seq<MigrationResult>) -> XrefModel {
    let n = rs.len() as int;
    let nets = network_names_upto(rs, n);
    let sim = server_info_upto(rs, n);
    let ssm = server_subnet_map(p, rs);
    let tgsm = tg_servers_upto(p, rs, n);
    let lbt = lb_tgs_upto(p, rs, n);
    let st = storage_upto(p, rs, sim, storage_count_upto(rs, n), n);
    XrefModel {
        lb_names: names_of_type(rs, "upcloud_loadbalancer"@, n),
        network_names: nets,
        server_names: names_of_type(rs, "upcloud_server"@, n),
        k8s_names: names_of_type(rs, "upcloud_kubernetes_cluster"@, n),
        ssh_key_map: ssh_upto(p, rs, n),
        backend_names: names_of_type(rs, "upcloud_loadbalancer_backend"@, n),
        cert_bundle_names: names_of_type(rs, "upcloud_loadbalancer_manual_certificate_bundle"@, n),
        server_info_map: sim,
        firewall_to_server_map: firewall_map(p, rs),
        network_count_map: netcount_upto(rs, n),
        param_group_map: params_upto(p, rs, n),
        subnet_group_subnets_map: subnet_groups_upto(p, rs, n),
        lb_backend_net_map: lb_net_fold(lbt, tgsm, ssm, nets, lbt.len() as int),
        storage_inject_map: st.0,
        storage_promote_count: st.1,
        probe_health_map: match p.spec_probe_type() {
            Some(pt) => probe_health_upto(p, rs, probe_props_upto(p, rs, pt, n), n),
            None => seq![],
        },
    }
}


// ── Building the tables ──────────────────────────────────────────────────────

fn copy_str(s: &str) -> (r: String)
    ensures
        r@ == s@,
{
    string_of(&chars_of(s))
}

fn hcl_count_exec(o: &Option<String>) -> (r: Option<String>)
    ensures
        opt_view(r) == hcl_count(*o),
{
    match o {
        Some(h) => extract_count_from_hcl(h.as_str()),
        None => None,
    }
}

fn names_of_type_exec(results: &[MigrationResult], t: &str) -> (r: Vec<String>)
    ensures
        names_view(r@) == names_of_type(results@, t@, results@.len() as int),
{
    let mut out: Vec<String> = Vec::new();
    let mut i: usize = 0;
    while i < results.len()
        invariant
            i <= results@.len(),
            names_view(out@) == names_of_type(results@, t@, i as int),
        decreases results@.len() - i,
    {
        let r = &results[i];
        if crate::text::eq_str(&chars_of(r.upcloud_type.as_str()), t) {
            let ghost prev = out@;
            out.push(copy_str(r.resource_name.as_str()));
            assert(names_view(out@) =~= names_view(prev).push(r.resource_name@));
        }
        i += 1;
    }
    out
}

fn network_names_exec(results: &[MigrationResult]) -> (r: Vec<String>)
    ensures
        names_view(r@) == network_names_upto(results@, results@.len() as int),
{
    let mut out: Vec<String> = Vec::new();
    let mut i: usize = 0;
    while i < results.len()
        invariant
            i <= results@.len(),
            names_view(out@) == network_names_upto(results@, i as int),
        decreases results@.len() - i,
    {
        let r = &results[i];
        if contains_str(&chars_of(r.upcloud_type.as_str()), "upcloud_network") {
            let ghost prev = out@;
            out.push(copy_str(r.resource_name.as_str()));
            assert(names_view(out@) =~= names_view(prev).push(r.resource_name@));
        }
        i += 1;
    }
    out
}

fn ssh_exec<P: SourceProvider>(provider: &P, results: &[MigrationResult]) -> (m: Vec<(String, LoginKeysValue)>)
    ensures
        login_table(m@) == ssh_upto(*provider, results@, results@.len() as int),
{
    let mut m: Vec<(String, LoginKeysValue)> = Vec::new();
    let mut i: usize = 0;
    while i < results.len()
        invariant
            i <= results@.len(),
            login_table(m@) == ssh_upto(*provider, results@, i as int),
        decreases results@.len() - i,
    {
        let r = &results[i];
        if provider.resource_role(r.resource_type.as_str()) == ResourceRole::KeyPair {
            match &r.snippet {
                Some(sn) => match extract_login_keys(sn.as_str()) {
                    Some(kv) => put_login(&mut m, copy_str(r.resource_name.as_str()), kv),
                    None => {},
                },
                None => {},
            }
        }
        i += 1;
    }
    m
}

fn server_info_exec(results: &[MigrationResult]) -> (m: Vec<(String, Option<String>)>)
    ensures
        opt_table(m@) == server_info_upto(results@, results@.len() as int),
{
    let mut m: Vec<(String, Option<String>)> = Vec::new();
    let mut i: usize = 0;
    while i < results.len()
        invariant
            i <= results@.len(),
            opt_table(m@) == server_info_upto(results@, i as int),
        decreases results@.len() - i,
    {
        let r = &results[i];
        if crate::text::eq_str(&chars_of(r.upcloud_type.as_str()), "upcloud_server") {
            put_opt(&mut m, copy_str(r.resource_name.as_str()), hcl_count_exec(&r.upcloud_hcl));
        }
        i += 1;
    }
    m
}

fn fw_exec<P: SourceProvider>(provider: &P, results: &[MigrationResult]) -> (m: Vec<(String, Vec<String>)>)
    ensures
        groups_view(m@) == fw_upto(*provider, results@, results@.len() as int),
{
    let mut m: Vec<(String, Vec<String>)> = Vec::new();
    let mut i: usize = 0;
    while i < results.len()
        invariant
            i <= results@.len(),
            groups_view(m@) == fw_upto(*provider, results@, i as int),
        decreases results@.len() - i,
    {
        let r = &results[i];
        if provider.resource_role(r.resource_type.as_str()) == ResourceRole::ComputeInstance {
            match &r.source_hcl {
                Some(h) => {
                    let refs = provider.extract_security_refs_from_instance(h.as_str());
                    let ghost rv = names_view(refs@);
                    assert(rv == strs_view(refs@));
                    let ghost start = groups_view(m@);
                    let mut j: usize = 0;
                    while j < refs.len()
                        invariant
                            j <= refs@.len(),
                            rv == names_view(refs@),
                            groups_view(m@) == refs_fold(start, rv, r.resource_name@, j as int),
                        decreases refs@.len() - j,
                    {
                        append_name(&mut m, copy_str(refs[j].as_str()), copy_str(r.resource_name.as_str()), false);
                        j += 1;
                    }
                },
                None => {},
            }
        }
        i += 1;
    }
    m
}

fn netcount_exec(results: &[MigrationResult]) -> (m: Vec<(String, bool)>)
    ensures
        bool_table(m@) == netcount_upto(results@, results@.len() as int),
{
    let mut m: Vec<(String, bool)> = Vec::new();
    let mut i: usize = 0;
    while i < results.len()
        invariant
            i <= results@.len(),
            bool_table(m@) == netcount_upto(results@, i as int),
        decreases results@.len() - i,
    {
        let r = &results[i];
        if contains_str(&chars_of(r.upcloud_type.as_str()), "upcloud_network") {
            put_bool(&mut m, copy_str(r.resource_name.as_str()), hcl_count_exec(&r.upcloud_hcl).is_some());
        }
        i += 1;
    }
    m
}

fn storage_count_exec(results: &[MigrationResult]) -> (m: Vec<(String, bool)>)
    ensures
        bool_table(m@) == storage_count_upto(results@, results@.len() as int),
{
    let mut m: Vec<(String, bool)> = Vec::new();
    let mut i: usize = 0;
    while i < results.len()
        invariant
            i <= results@.len(),
            bool_table(m@) == storage_count_upto(results@, i as int),
        decreases results@.len() - i,
    {
        let r = &results[i];
        if crate::text::eq_str(&chars_of(r.upcloud_type.as_str()), "upcloud_storage") {
            put_bool(&mut m, copy_str(r.resource_name.as_str()), hcl_count_exec(&r.upcloud_hcl).is_some());
        }
        i += 1;
    }
    m
}

fn params_exec<P: SourceProvider>(provider: &P, results: &[MigrationResult]) -> (m: Vec<(String, Vec<(String, String)>)>)
    ensures
        params_table(m@) == params_upto(*provider, results@, results@.len() as int),
{
    let mut m: Vec<(String, Vec<(String, String)>)> = Vec::new();
    let mut i: usize = 0;
    while i < results.len()
        invariant
            i <= results@.len(),
            params_table(m@) == params_upto(*provider, results@, i as int),
        decreases results@.len() - i,
    {
        let r = &results[i];
        if provider.resource_role(r.resource_type.as_str()) == ResourceRole::ParameterGroup {
            match &r.source_hcl {
                Some(h) => {
                    let ps = provider.extract_parameter_blocks(h.as_str());
                    assert(pairs_view(ps@) == crate::migration::providers::aws::database::params_view(ps@));
                    put_params(&mut m, copy_str(r.resource_name.as_str()), ps);
                },
                None => {},
            }
        }
        i += 1;
    }
    m
}

fn subnet_groups_exec<P: SourceProvider>(provider: &P, results: &[MigrationResult]) -> (m: Vec<(String, Vec<String>)>)
    ensures
        groups_view(m@) == subnet_groups_upto(*provider, results@, results@.len() as int),
{
    let mut m: Vec<(String, Vec<String>)> = Vec::new();
    let mut i: usize = 0;
    while i < results.len()
        invariant
            i <= results@.len(),
            groups_view(m@) == subnet_groups_upto(*provider, results@, i as int),
        decreases results@.len() - i,
    {
        let r = &results[i];
        if provider.resource_role(r.resource_type.as_str()) == ResourceRole::SubnetGroup {
            match &r.source_hcl {
                Some(h) => {
                    let sns = provider.extract_subnet_names_from_subnet_group(h.as_str());
                    assert(names_view(sns@) == strs_view(sns@));
                    if sns.len() > 0 {
                        put_names(&mut m, copy_str(r.resource_name.as_str()), sns);
                    }
                },
                None => {},
            }
        }
        i += 1;
    }
    m
}

fn server_subnets_exec<P: SourceProvider>(provider: &P, results: &[MigrationResult]) -> (m: Vec<(String, String)>)
    ensures
        pairs_view(m@) == server_subnets_upto(*provider, results@, results@.len() as int),
{
    let mut m: Vec<(String, String)> = Vec::new();
    let mut i: usize = 0;
    while i < results.len()
        invariant
            i <= results@.len(),
            pairs_view(m@) == server_subnets_upto(*provider, results@, i as int),
        decreases results@.len() - i,
    {
        let r = &results[i];
        if provider.resource_role(r.resource_type.as_str()) == ResourceRole::ComputeInstance {
            match &r.source_hcl {
                Some(h) => match provider.extract_subnet_from_instance(h.as_str()) {
                    Some(sn) => put_str(&mut m, copy_str(r.resource_name.as_str()), sn),
                    None => {},
                },
                None => {},
            }
        }
        i += 1;
    }
    m
}

fn nic_subnets_exec<P: SourceProvider>(provider: &P, results: &[MigrationResult], nt: &str) -> (m: Vec<(String, String)>)
    ensures
        pairs_view(m@) == nic_subnets_upto(*provider, results@, nt@, results@.len() as int),
{
    let mut m: Vec<(String, String)> = Vec::new();
    let mut i: usize = 0;
    while i < results.len()
        invariant
            i <= results@.len(),
            pairs_view(m@) == nic_subnets_upto(*provider, results@, nt@, i as int),
        decreases results@.len() - i,
    {
        let r = &results[i];
        if crate::text::eq_str(&chars_of(r.resource_type.as_str()), nt) {
            match &r.source_hcl {
                Some(h) => match provider.extract_subnet_from_nic(h.as_str()) {
                    Some(sn) => put_str(&mut m, copy_str(r.resource_name.as_str()), sn),
                    None => {},
                },
                None => {},
            }
        }
        i += 1;
    }
    m
}

fn first_nic_subnet_exec(nics: &Vec<String>, ntm: &Vec<(String, String)>) -> (r: Option<String>)
    ensures
        opt_view(r) == first_nic_subnet(names_view(nics@), pairs_view(ntm@), 0),
{
    let ghost nv = names_view(nics@);
    let ghost tv = pairs_view(ntm@);
    assert(keys_of(tv) =~= str_keys(ntm@));
    let mut j: usize = 0;
    while j < nics.len()
        invariant
            j <= nics@.len(),
            nv == names_view(nics@),
            tv == pairs_view(ntm@),
            keys_of(tv) == str_keys(ntm@),
            first_nic_subnet(nv, tv, 0) == first_nic_subnet(nv, tv, j as int),
        decreases nics@.len() - j,
    {
        assert(nv[j as int] == nics@[j as int]@);
        match kv_find(ntm, nics[j].as_str()) {
            Some(k) => {
                return Some(copy_str(ntm[k].1.as_str()));
            },
            None => {},
        }
        j += 1;
    }
    None
}

fn server_subnet_map_exec<P: SourceProvider>(provider: &P, results: &[MigrationResult]) -> (m: Vec<(String, String)>)
    ensures
        pairs_view(m@) == server_subnet_map(*provider, results@),
{
    let mut m = server_subnets_exec(provider, results);
    match provider.nic_resource_type() {
        Some(nt) => {
            let ntm = nic_subnets_exec(provider, results, nt);
            if ntm.len() > 0 {
                let ghost base = pairs_view(m@);
                assert(keys_of(base) =~= str_keys(m@));
                let mut sup: Vec<(String, String)> = Vec::new();
                let mut i: usize = 0;
                while i < results.len()
                    invariant
                        i <= results@.len(),
                        base == pairs_view(m@),
                        keys_of(base) == str_keys(m@),
                        pairs_view(sup@) == nic_supplements(*provider, results@, base, pairs_view(ntm@), i as int),
                    decreases results@.len() - i,
                {
                    let r = &results[i];
                    if provider.resource_role(r.resource_type.as_str()) == ResourceRole::ComputeInstance
                        && kv_find(&m, r.resource_name.as_str()).is_none() {
                        match &r.source_hcl {
                            Some(h) => {
                                let nics = provider.extract_nic_refs_from_instance(h.as_str());
                                assert(names_view(nics@) == strs_view(nics@));
                                match first_nic_subnet_exec(&nics, &ntm) {
                                    Some(sn) => {
                                        let ghost prev = sup@;
                                        sup.push((copy_str(r.resource_name.as_str()), sn));
                                        assert(pairs_view(sup@) =~= pairs_view(prev).push((r.resource_name@, sn@)));
                                    },
                                    None => {},
                                }
                            },
                            None => {},
                        }
                    }
                    i += 1;
                }
                let ghost supv = pairs_view(sup@);
                let mut k: usize = 0;
                while k < sup.len()
                    invariant
                        k <= sup@.len(),
                        supv == pairs_view(sup@),
                        pairs_view(m@) == put_all(base, supv, k as int),
                    decreases sup@.len() - k,
                {
                    put_str(&mut m, copy_str(sup[k].0.as_str()), copy_str(sup[k].1.as_str()));
                    k += 1;
                }
            }
        },
        None => {},
    }
    m
}

fn assoc_exec<P: SourceProvider>(provider: &P, results: &[MigrationResult], at: &str) -> (m: Vec<(String, String)>)
    ensures
        pairs_view(m@) == assoc_upto(*provider, results@, at@, results@.len() as int),
{
    let mut m: Vec<(String, String)> = Vec::new();
    let mut i: usize = 0;
    while i < results.len()
        invariant
            i <= results@.len(),
            pairs_view(m@) == assoc_upto(*provider, results@, at@, i as int),
        decreases results@.len() - i,
    {
        let r = &results[i];
        if crate::text::eq_str(&chars_of(r.resource_type.as_str()), at) {
            match &r.source_hcl {
                Some(h) => match provider.extract_nsg_from_subnet_association(h.as_str()) {
                    Some((sn, nsg)) => put_str(&mut m, sn, nsg),
                    None => {},
                },
                None => {},
            }
        }
        i += 1;
    }
    m
}

fn firewall_map_exec<P: SourceProvider>(provider: &P, results: &[MigrationResult], ssm: &Vec<(String, String)>) -> (m: Vec<(String, Vec<String>)>)
    requires
        pairs_view(ssm@) == server_subnet_map(*provider, results@),
    ensures
        groups_view(m@) == firewall_map(*provider, results@),
{
    let mut m = fw_exec(provider, results);
    match provider.subnet_nsg_association_type() {
        Some(at) => {
            let snm = assoc_exec(provider, results, at);
            if snm.len() > 0 {
                let ghost fw0 = groups_view(m@);
                let ghost sv = pairs_view(ssm@);
                let ghost nv = pairs_view(snm@);
                assert(keys_of(nv) =~= str_keys(snm@));
                let mut k: usize = 0;
                while k < ssm.len()
                    invariant
                        k <= ssm@.len(),
                        sv == pairs_view(ssm@),
                        nv == pairs_view(snm@),
                        keys_of(nv) == str_keys(snm@),
                        groups_view(m@) == fw_assoc_fold(fw0, sv, nv, k as int),
                    decreases ssm@.len() - k,
                {
                    assert(sv[k as int] == (ssm@[k as int].0@, ssm@[k as int].1@));
                    match kv_find(&snm, ssm[k].1.as_str()) {
                        Some(j) => append_name(&mut m, copy_str(snm[j].1.as_str()), copy_str(ssm[k].0.as_str()), true),
                        None => {},
                    }
                    k += 1;
                }
            }
        },
        None => {},
    }
    m
}

fn tg_servers_exec<P: SourceProvider>(provider: &P, results: &[MigrationResult]) -> (m: Vec<(String, Vec<String>)>)
    ensures
        groups_view(m@) == tg_servers_upto(*provider, results@, results@.len() as int),
{
    let mut m: Vec<(String, Vec<String>)> = Vec::new();
    let mut i: usize = 0;
    while i < results.len()
        invariant
            i <= results@.len(),
            groups_view(m@) == tg_servers_upto(*provider, results@, i as int),
        decreases results@.len() - i,
    {
        let r = &results[i];
        if provider.resource_role(r.resource_type.as_str()) == ResourceRole::LbTargetGroupAttachment {
            match &r.source_hcl {
                Some(h) => match provider.extract_tg_server_from_attachment(h.as_str()) {
                    Some((tg, srv)) => append_name(&mut m, tg, srv, false),
                    None => {},
                },
                None => {},
            }
        }
        i += 1;
    }
    m
}

fn lb_tgs_exec<P: SourceProvider>(provider: &P, results: &[MigrationResult]) -> (m: Vec<(String, Vec<String>)>)
    ensures
        groups_view(m@) == lb_tgs_upto(*provider, results@, results@.len() as int),
{
    let mut m: Vec<(String, Vec<String>)> = Vec::new();
    let mut i: usize = 0;
    while i < results.len()
        invariant
            i <= results@.len(),
            groups_view(m@) == lb_tgs_upto(*provider, results@, i as int),
        decreases results@.len() - i,
    {
        let r = &results[i];
        if provider.resource_role(r.resource_type.as_str()) == ResourceRole::LbListener {
            match &r.source_hcl {
                Some(h) => match provider.extract_tg_from_listener(h.as_str()) {
                    Some(tg) => {
                        let fallback = match provider.extract_lb_name_from_listener(h.as_str()) {
                            Some(y) => y,
                            None => String::new(),
                        };
                        let lb = match &r.parent_resource {
                            Some(x) => if chars_of(x.as_str()).len() > 0 { copy_str(x.as_str()) } else { fallback },
                            None => fallback,
                        };
                        if chars_of(lb.as_str()).len() > 0 {
                            append_name(&mut m, lb, tg, false);
                        }
                    },
                    None => {},
                },
                None => {},
            }
        }
        i += 1;
    }
    m
}

fn first_net_of_servers_exec(servers: &Vec<String>, ssm: &Vec<(String, String)>, nets: &Vec<String>) -> (r: Option<String>)
    ensures
        opt_view(r) == first_net_of_servers(names_view(servers@), pairs_view(ssm@), names_view(nets@), 0),
{
    let ghost sv = names_view(servers@);
    let ghost mv = pairs_view(ssm@);
    assert(keys_of(mv) =~= str_keys(ssm@));
    let mut j: usize = 0;
    while j < servers.len()
        invariant
            j <= servers@.len(),
            sv == names_view(servers@),
            mv == pairs_view(ssm@),
            keys_of(mv) == str_keys(ssm@),
            first_net_of_servers(sv, mv, names_view(nets@), 0) == first_net_of_servers(sv, mv, names_view(nets@), j as int),
        decreases servers@.len() - j,
    {
        assert(sv[j as int] == servers@[j as int]@);
        match kv_find(ssm, servers[j].as_str()) {
            Some(k) => {
                if contains_name(nets, ssm[k].1.as_str()) {
                    return Some(copy_str(ssm[k].1.as_str()));
                }
            },
            None => {},
        }
        j += 1;
    }
    None
}

fn first_net_of_tgs_exec(tgs: &Vec<String>, tgsm: &Vec<(String, Vec<String>)>, ssm: &Vec<(String, String)>, nets: &Vec<String>) -> (r: Option<String>)
    ensures
        opt_view(r) == first_net_of_tgs(names_view(tgs@), groups_view(tgsm@), pairs_view(ssm@), names_view(nets@), 0),
{
    let ghost tv = names_view(tgs@);
    let ghost gv = groups_view(tgsm@);
    assert(keys_of(gv) =~= str_keys(tgsm@));
    let mut i: usize = 0;
    while i < tgs.len()
        invariant
            i <= tgs@.len(),
            tv == names_view(tgs@),
            gv == groups_view(tgsm@),
            keys_of(gv) == str_keys(tgsm@),
            first_net_of_tgs(tv, gv, pairs_view(ssm@), names_view(nets@), 0) == first_net_of_tgs(tv, gv, pairs_view(ssm@), names_view(nets@), i as int),
        decreases tgs@.len() - i,
    {
        assert(tv[i as int] == tgs@[i as int]@);
        match kv_find(tgsm, tgs[i].as_str()) {
            Some(k) => {
                assert(gv[k as int].1 == names_view(tgsm@[k as int].1@));
                match first_net_of_servers_exec(&tgsm[k].1, ssm, nets) {
                    Some(sn) => return Some(sn),
                    None => {},
                }
            },
            None => {},
        }
        i += 1;
    }
    None
}

fn storage_line_name_exec(sn: &str) -> (r: Option<String>)
    ensures
        opt_view(r) == storage_line_name(lines(sn@), 0),
{
    let ls = lines_v(&chars_of(sn));
    let ghost lv = views(ls@);
    let mut j: usize = 0;
    while j < ls.len()
        invariant
            j <= ls@.len(),
            lv == views(ls@),
            lv == lines(sn@),
            storage_line_name(lv, 0) == storage_line_name(lv, j as int),
        decreases ls@.len() - j,
    {
        assert(lv[j as int] == ls@[j as int]@);
        let t = trim_v(&ls[j]);
        proof {
            reveal_strlit("storage = upcloud_storage.");
        }
        if crate::text::starts_with_exec(&t, "storage = upcloud_storage.") {
            let n = t.len();
            let rest = slice_of(&t, 26, n);
            assert(rest@ =~= t@.skip(26));
            return Some(string_of(&before_char_v(&rest, '.')));
        }
        j += 1;
    }
    None
}

fn storage_exec<P: SourceProvider>(provider: &P, results: &[MigrationResult], sim: &Vec<(String, Option<String>)>, scm: &Vec<(String, bool)>) -> (r: (Vec<(String, Vec<String>)>, Vec<(String, String)>))
    ensures
        (groups_view(r.0@), pairs_view(r.1@)) == storage_upto(*provider, results@, opt_table(sim@), bool_table(scm@), results@.len() as int),
{
    let mut inject: Vec<(String, Vec<String>)> = Vec::new();
    let mut promote: Vec<(String, String)> = Vec::new();
    assert(keys_of(opt_table(sim@)) =~= str_keys(sim@));
    assert(keys_of(bool_table(scm@)) =~= str_keys(scm@));
    let mut i: usize = 0;
    while i < results.len()
        invariant
            i <= results@.len(),
            keys_of(opt_table(sim@)) == str_keys(sim@),
            keys_of(bool_table(scm@)) == str_keys(scm@),
            (groups_view(inject@), pairs_view(promote@)) == storage_upto(*provider, results@, opt_table(sim@), bool_table(scm@), i as int),
        decreases results@.len() - i,
    {
        let r = &results[i];
        if provider.resource_role(r.resource_type.as_str()) == ResourceRole::VolumeAttachment {
            match (&r.parent_resource, &r.snippet) {
                (Some(srv), Some(sn)) => {
                    if chars_of(srv.as_str()).len() > 0 {
                        match storage_line_name_exec(sn.as_str()) {
                            Some(st) => {
                                let sc: Option<String> = match kv_find(sim, srv.as_str()) {
                                    Some(k) => match &sim[k].1 {
                                        Some(c) => Some(copy_str(c.as_str())),
                                        None => None,
                                    },
                                    None => None,
                                };
                                let sthc = match kv_find(scm, st.as_str()) {
                                    Some(k) => scm[k].1,
                                    None => false,
                                };
                                let sref = if sc.is_some() {
                                    cat3("upcloud_storage.", st.as_str(), "[count.index].id")
                                } else if sthc {
                                    cat3("upcloud_storage.", st.as_str(), "[0].id")
                                } else {
                                    cat3("upcloud_storage.", st.as_str(), ".id")
                                };
                                let block = cat3("  storage_devices {\n    storage = ", sref.as_str(), "\n    type    = \"disk\"\n  }\n");
                                match sc {
                                    Some(c) => if !sthc {
                                        put_str(&mut promote, copy_str(st.as_str()), c);
                                    },
                                    None => {},
                                }
                                append_name(&mut inject, copy_str(srv.as_str()), block, false);
                            },
                            None => {},
                        }
                    }
                },
                _ => {},
            }
        }
        i += 1;
    }
    (inject, promote)
}

fn probe_props_exec<P: SourceProvider>(provider: &P, results: &[MigrationResult], pt: &str) -> (m: Vec<(String, String)>)
    ensures
        pairs_view(m@) == probe_props_upto(*provider, results@, pt@, results@.len() as int),
{
    let mut m: Vec<(String, String)> = Vec::new();
    let mut i: usize = 0;
    while i < results.len()
        invariant
            i <= results@.len(),
            pairs_view(m@) == probe_props_upto(*provider, results@, pt@, i as int),
        decreases results@.len() - i,
    {
        let r = &results[i];
        if crate::text::eq_str(&chars_of(r.resource_type.as_str()), pt) {
            match &r.source_hcl {
                Some(h) => {
                    let props = provider.extract_probe_health_check_props(h.as_str());
                    if chars_of(props.as_str()).len() > 0 {
                        put_str(&mut m, copy_str(r.resource_name.as_str()), props);
                    }
                },
                None => {},
            }
        }
        i += 1;
    }
    m
}

fn probe_health_exec<P: SourceProvider>(provider: &P, results: &[MigrationResult], psm: &Vec<(String, String)>) -> (m: Vec<(String, String)>)
    ensures
        pairs_view(m@) == probe_health_upto(*provider, results@, pairs_view(psm@), results@.len() as int),
{
    assert(keys_of(pairs_view(psm@)) =~= str_keys(psm@));
    let mut m: Vec<(String, String)> = Vec::new();
    let mut i: usize = 0;
    while i < results.len()
        invariant
            i <= results@.len(),
            keys_of(pairs_view(psm@)) == str_keys(psm@),
            pairs_view(m@) == probe_health_upto(*provider, results@, pairs_view(psm@), i as int),
        decreases results@.len() - i,
    {
        let r = &results[i];
        if provider.resource_role(r.resource_type.as_str()) == ResourceRole::LbListener {
            match &r.source_hcl {
                Some(h) => match provider.extract_probe_from_lb_rule(h.as_str()) {
                    Some((backend, probe)) => match kv_find(psm, probe.as_str()) {
                        Some(k) => put_str_absent(&mut m, backend, copy_str(psm[k].1.as_str())),
                        None => {},
                    },
                    None => {},
                },
                None => {},
            }
        }
        i += 1;
    }
    m
}

/// Build the cross-reference lookup tables from the migration results.
pub fn build_cross_ref_tables<P: SourceProvider>(results: &[MigrationResult], provider: &P) -> (x: CrossRefTables)
    ensures
        x@ == spec_cross_ref(*provider, results@),
{
    let network_names = network_names_exec(results);
    let server_info_map = server_info_exec(results);
    let ssm = server_subnet_map_exec(provider, results);
    let firewall_to_server_map = firewall_map_exec(provider, results, &ssm);
    let tgsm = tg_servers_exec(provider, results);
    let lbt = lb_tgs_exec(provider, results);
    let ghost lbtv = groups_view(lbt@);
    let mut lb_backend_net_map: Vec<(String, String)> = Vec::new();
    let mut k: usize = 0;
    while k < lbt.len()
        invariant
            k <= lbt@.len(),
            lbtv == groups_view(lbt@),
            pairs_view(lb_backend_net_map@) == lb_net_fold(lbtv, groups_view(tgsm@), pairs_view(ssm@), names_view(network_names@), k as int),
        decreases lbt@.len() - k,
    {
        assert(lbtv[k as int] == (lbt@[k as int].0@, names_view(lbt@[k as int].1@)));
        match first_net_of_tgs_exec(&lbt[k].1, &tgsm, &ssm, &network_names) {
            Some(sn) => put_str(&mut lb_backend_net_map, copy_str(lbt[k].0.as_str()), sn),
            None => {},
        }
        k += 1;
    }
    let scm = storage_count_exec(results);
    let (storage_inject_map, storage_promote_count) = storage_exec(provider, results, &server_info_map, &scm);
    let probe_health_map = match provider.lb_probe_resource_type() {
        Some(pt) => {
            let psm = probe_props_exec(provider, results, pt);
            probe_health_exec(provider, results, &psm)
        },
        None => {
            let e: Vec<(String, String)> = Vec::new();
            assert(pairs_view(e@) =~= seq![]);
            e
        },
    };
    let x = CrossRefTables {
        lb_names: names_of_type_exec(results, "upcloud_loadbalancer"),
        network_names,
        server_names: names_of_type_exec(results, "upcloud_server"),
        k8s_names: names_of_type_exec(results, "upcloud_kubernetes_cluster"),
        ssh_key_map: ssh_exec(provider, results),
        backend_names: names_of_type_exec(results, "upcloud_loadbalancer_backend"),
        cert_bundle_names: names_of_type_exec(results, "upcloud_loadbalancer_manual_certificate_bundle"),
        server_info_map,
        firewall_to_server_map,
        network_count_map: netcount_exec(results),
        param_group_map: params_exec(provider, results),
        subnet_group_subnets_map: subnet_groups_exec(provider, results),
        lb_backend_net_map,
        storage_inject_map,
        storage_promote_count,
        probe_health_map,
    };
    x
}

} // verus!
