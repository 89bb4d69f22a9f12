//! AWS databases: RDS instances and clusters, parameter and subnet groups, ElastiCache.
use vstd::prelude::*;

use crate::migration::providers::shared::{is_valid_pg_property, spec_is_valid_pg_property};
use crate::migration::types::{
    cat3, cat5, new_result, note, opt_view, push_note, result_model, strs_view, MigrationResult,
    MigrationStatus, ResultModel,
};
use crate::terraform::types::TerraformResource;
use crate::text::{
    before_char, before_char_v, chars_of, contains, contains_str, dec, eq_str, find,
    find_char_from, has_char, lines, lines_v, opt_vec_view, push_str, push_u64, push_vec,
    replace_char, replace_char_v, slice_of, spec_to_lowercase, string_of, to_lowercase, trim,
    trim_char, trim_char_v, trim_v, starts_with, starts_with_exec, views,
};

verus! {

/// The UpCloud database type and property prefix for an engine name (any case):
/// MySQL and MariaDB become MySQL, everything else PostgreSQL.
pub open spec fn engine_kind(engine: Seq<char>) -> (Seq<char>, Seq<char>) {
    let e = spec_to_lowercase(engine);
    if contains(e, "postgres"@) {
        ("upcloud_managed_database_postgresql"@, "pg"@)
    } else if contains(e, "mysql"@) || contains(e, "mariadb"@) {
        ("upcloud_managed_database_mysql"@, "mysql"@)
    } else {
        ("upcloud_managed_database_postgresql"@, "pg"@)
    }
}

fn map_engine(engine: &str) -> (r: (&'static str, &'static str))
    ensures
        (r.0@, r.1@) == engine_kind(engine@),
{
    let e = chars_of(to_lowercase(engine).as_str());
    if contains_str(&e, "postgres") {
        ("upcloud_managed_database_postgresql", "pg")
    } else if contains_str(&e, "mysql") || contains_str(&e, "mariadb") {
        ("upcloud_managed_database_mysql", "mysql")
    } else {
        ("upcloud_managed_database_postgresql", "pg")
    }
}

/// The plan for an RDS instance class.
pub open spec fn rds_plan(c: Seq<char>) -> Seq<char> {
    if contains(c, "micro"@) || contains(c, "small"@) {
        "1x1xCPU-2GB-25GB"@
    } else if contains(c, "medium"@) {
        "1x2xCPU-4GB-50GB"@
    } else if contains(c, "xlarge"@) {
        "2x6xCPU-16GB-100GB"@
    } else if contains(c, "large"@) {
        "2x4xCPU-8GB-100GB"@
    } else {
        "1x2xCPU-4GB-50GB"@
    }
}

fn map_instance_class(c: &Vec<char>) -> (r: &'static str)
    ensures
        r@ == rds_plan(c@),
{
    if contains_str(c, "micro") || contains_str(c, "small") {
        "1x1xCPU-2GB-25GB"
    } else if contains_str(c, "medium") {
        "1x2xCPU-4GB-50GB"
    } else if contains_str(c, "xlarge") {
        "2x6xCPU-16GB-100GB"
    } else if contains_str(c, "large") {
        "2x4xCPU-8GB-100GB"
    } else {
        "1x2xCPU-4GB-50GB"
    }
}

/// `t` split at its first `.` (the whole text and nothing when there is none), and
/// whether it holds one.
pub open spec fn dot_parts(t: Seq<char>) -> (Seq<char>, Seq<char>, bool) {
    match find(t, seq!['.']) {
        Some(i) => (t.take(i), before_char(t.skip(i + 1), '.'), true),
        None => (t, seq![], false),
    }
}

pub fn dot_parts_exec(t: &Vec<char>) -> (r: (Vec<char>, Vec<char>, bool))
    ensures
        (r.0@, r.1@, r.2) == dot_parts(t@),
{
    let n = t.len();
    match find_char_from(t, '.', 0) {
        Some(i) => {
            assert(t@.skip(0) =~= t@);
            let a = slice_of(t, 0, i);
            let rest = slice_of(t, i + 1, n);
            assert(a@ =~= t@.take(i as int));
            assert(rest@ =~= t@.skip(i + 1));
            (a, before_char_v(&rest, '.'), true)
        },
        None => {
            assert(t@.skip(0) =~= t@);
            (slice_of(t, 0, n), Vec::new(), false)
        },
    }
}

/// The parameter group named by `aws_db_parameter_group.NAME...` or
/// `aws_elasticache_parameter_group.NAME...`.
pub open spec fn param_group_name(v: Seq<char>) -> Option<Seq<char>> {
    let (p0, p1, dotted) = dot_parts(trim_char(v, '"'));
    if dotted && (p0 == "aws_db_parameter_group"@ || p0 == "aws_elasticache_parameter_group"@) {
        Some(p1)
    } else {
        None
    }
}

fn param_group_resource_name(v: &Vec<char>) -> (r: Option<Vec<char>>)
    ensures
        opt_vec_view(r) == param_group_name(v@),
{
    let (p0, p1, dotted) = dot_parts_exec(&trim_char_v(v, '"'));
    if dotted && (eq_str(&p0, "aws_db_parameter_group") || eq_str(&p0, "aws_elasticache_parameter_group")) {
        Some(p1)
    } else {
        None
    }
}

/// The subnet group named by `aws_db_subnet_group.NAME...`,
/// `aws_elasticache_subnet_group.NAME...`, or a plain name without `.` or `$`.
pub open spec fn subnet_group_name(v: Seq<char>) -> Option<Seq<char>> {
    let t = trim_char(v, '"');
    let (p0, p1, dotted) = dot_parts(t);
    if dotted && (p0 == "aws_db_subnet_group"@ || p0 == "aws_elasticache_subnet_group"@) {
        Some(p1)
    } else if t.len() > 0 && !t.contains('.') && !t.contains('$') {
        Some(t)
    } else {
        None
    }
}

fn subnet_group_resource_name(v: &Vec<char>) -> (r: Option<Vec<char>>)
    ensures
        opt_vec_view(r) == subnet_group_name(v@),
{
    let t = trim_char_v(v, '"');
    let (p0, p1, dotted) = dot_parts_exec(&t);
    if dotted && (eq_str(&p0, "aws_db_subnet_group") || eq_str(&p0, "aws_elasticache_subnet_group")) {
        Some(p1)
    } else if t.len() > 0 && !has_char(&t, '.') && !has_char(&t, '$') {
        Some(t)
    } else {
        None
    }
}

/// The `\n    # __DB_PROPS:ENGINE:GROUP__` marker for a parameter group reference.
pub open spec fn props_marker(res: TerraformResource, key: Seq<char>, engine_short: Seq<char>) -> Seq<char> {
    match res.attr(key) {
        Some(v) => match param_group_name(v) {
            Some(g) => "\n    # __DB_PROPS:"@ + engine_short + ":"@ + g + "__"@,
            None => seq![],
        },
        None => seq![],
    }
}

fn props_marker_exec(res: &TerraformResource, key: &str, engine_short: &str) -> (r: String)
    ensures
        r@ == props_marker(*res, key@, engine_short@),
{
    match res.get_attr(key) {
        Some(v) => match param_group_resource_name(&v) {
            Some(g) => {
                let mut s = cat3("\n    # __DB_PROPS:", engine_short, ":");
                push_vec(&mut s, &g);
                push_str(&mut s, "__");
                s
            },
            None => String::new(),
        },
        None => String::new(),
    }
}

/// The network UUID placeholder, naming the subnet group when there is one.
pub open spec fn net_placeholder(res: TerraformResource, key: Seq<char>) -> Seq<char> {
    match res.attr(key) {
        Some(v) => match subnet_group_name(v) {
            Some(sg) => "<TODO: upcloud_network UUID subnet_group="@ + sg + ">"@,
            None => "<TODO: upcloud_network UUID>"@,
        },
        None => "<TODO: upcloud_network UUID>"@,
    }
}

fn net_placeholder_exec(res: &TerraformResource, key: &str) -> (r: String)
    ensures
        r@ == net_placeholder(*res, key@),
{
    match res.get_attr(key) {
        Some(v) => match subnet_group_resource_name(&v) {
            Some(sg) => {
                let mut s = String::from_str("<TODO: upcloud_network UUID subnet_group=");
                push_vec(&mut s, &sg);
                push_str(&mut s, ">");
                s
            },
            None => String::from_str("<TODO: upcloud_network UUID>"),
        },
        None => String::from_str("<TODO: upcloud_network UUID>"),
    }
}

pub open spec fn spec_rds_hcl(upcloud_type: Seq<char>, name: Seq<char>, plan: Seq<char>, network_uuid_placeholder: Seq<char>, param_group_marker: Seq<char>) -> Seq<char> {
    "resource \""@
        + upcloud_type
        + "\" \""@
        + name
        + "\" {\n  name  = \""@
        + name
        + "-db\"\n  plan  = \""@
        + plan
        + "\"\n  title = \""@
        + name
        + "\"\n  zone  = \"__ZONE__\"\n\n  # Private network access — required for servers to reach the database.\n  # Set uuid to the upcloud_network in the same zone.\n  network {\n    family = \"IPv4\"\n    name   = \"private\"\n    type   = \"private\"\n    uuid   = \""@
        + network_uuid_placeholder
        + "\"\n  }\n\n  properties {\n    public_access = false"@
        + param_group_marker
        + "\n  }\n}\n"@
}

/// The managed database resource of an RDS instance.
fn rds_hcl(upcloud_type: &str, name: &str, plan: &str, network_uuid_placeholder: &str, param_group_marker: &str) -> (r: String)
    ensures
        r@ == spec_rds_hcl(upcloud_type@, name@, plan@, network_uuid_placeholder@, param_group_marker@),
{
    let mut s = String::new();
    push_str(&mut s, "resource \"");
    push_str(&mut s, upcloud_type);
    push_str(&mut s, "\" \"");
    push_str(&mut s, name);
    push_str(&mut s, "\" {\n  name  = \"");
    push_str(&mut s, name);
    push_str(&mut s, "-db\"\n  plan  = \"");
    push_str(&mut s, plan);
    push_str(&mut s, "\"\n  title = \"");
    push_str(&mut s, name);
    push_str(&mut s, "\"\n  zone  = \"__ZONE__\"\n\n  # Private network access — required for servers to reach the database.\n  # Set uuid to the upcloud_network in the same zone.\n  network {\n    family = \"IPv4\"\n    name   = \"private\"\n    type   = \"private\"\n    uuid   = \"");
    push_str(&mut s, network_uuid_placeholder);
    push_str(&mut s, "\"\n  }\n\n  properties {\n    public_access = false");
    push_str(&mut s, param_group_marker);
    push_str(&mut s, "\n  }\n}\n");
    s
}

pub open spec fn spec_rds_cluster_hcl(upcloud_type: Seq<char>, name: Seq<char>, network_uuid_placeholder: Seq<char>, param_group_marker: Seq<char>) -> Seq<char> {
    "resource \""@
        + upcloud_type
        + "\" \""@
        + name
        + "\" {\n  name  = \""@
        + name
        + "-cluster\"\n  plan  = \"1x2xCPU-4GB-50GB\"\n  title = \""@
        + name
        + "\"\n  zone  = \"__ZONE__\"\n\n  network {\n    family = \"IPv4\"\n    name   = \"private\"\n    type   = \"private\"\n    uuid   = \""@
        + network_uuid_placeholder
        + "\"\n  }\n\n  properties {\n    public_access = false"@
        + param_group_marker
        + "\n  }\n}\n"@
}

/// The managed database resource of an Aurora cluster.
fn rds_cluster_hcl(upcloud_type: &str, name: &str, network_uuid_placeholder: &str, param_group_marker: &str) -> (r: String)
    ensures
        r@ == spec_rds_cluster_hcl(upcloud_type@, name@, network_uuid_placeholder@, param_group_marker@),
{
    let mut s = String::new();
    push_str(&mut s, "resource \"");
    push_str(&mut s, upcloud_type);
    push_str(&mut s, "\" \"");
    push_str(&mut s, name);
    push_str(&mut s, "\" {\n  name  = \"");
    push_str(&mut s, name);
    push_str(&mut s, "-cluster\"\n  plan  = \"1x2xCPU-4GB-50GB\"\n  title = \"");
    push_str(&mut s, name);
    push_str(&mut s, "\"\n  zone  = \"__ZONE__\"\n\n  network {\n    family = \"IPv4\"\n    name   = \"private\"\n    type   = \"private\"\n    uuid   = \"");
    push_str(&mut s, network_uuid_placeholder);
    push_str(&mut s, "\"\n  }\n\n  properties {\n    public_access = false");
    push_str(&mut s, param_group_marker);
    push_str(&mut s, "\n  }\n}\n");
    s
}

pub open spec fn spec_valkey_hcl(name: Seq<char>, plan: Seq<char>, network_uuid_placeholder: Seq<char>) -> Seq<char> {
    "resource \"upcloud_managed_database_valkey\" \""@
        + name
        + "\" {\n  name  = \""@
        + name
        + "-cache\"\n  plan  = \""@
        + plan
        + "\"\n  title = \""@
        + name
        + "\"\n  zone  = \"__ZONE__\"\n\n  network {\n    family = \"IPv4\"\n    name   = \"private\"\n    type   = \"private\"\n    uuid   = \""@
        + network_uuid_placeholder
        + "\"\n  }\n\n  properties {\n    public_access = false\n  }\n}\n"@
}

/// The managed Valkey resource of an ElastiCache cluster.
fn valkey_hcl(name: &str, plan: &str, network_uuid_placeholder: &str) -> (r: String)
    ensures
        r@ == spec_valkey_hcl(name@, plan@, network_uuid_placeholder@),
{
    let mut s = String::new();
    push_str(&mut s, "resource \"upcloud_managed_database_valkey\" \"");
    push_str(&mut s, name);
    push_str(&mut s, "\" {\n  name  = \"");
    push_str(&mut s, name);
    push_str(&mut s, "-cache\"\n  plan  = \"");
    push_str(&mut s, plan);
    push_str(&mut s, "\"\n  title = \"");
    push_str(&mut s, name);
    push_str(&mut s, "\"\n  zone  = \"__ZONE__\"\n\n  network {\n    family = \"IPv4\"\n    name   = \"private\"\n    type   = \"private\"\n    uuid   = \"");
    push_str(&mut s, network_uuid_placeholder);
    push_str(&mut s, "\"\n  }\n\n  properties {\n    public_access = false\n  }\n}\n");
    s
}


pub open spec fn spec_map_rds_instance(res: TerraformResource) -> ResultModel {
    let engine = res.attr_trim_or("engine"@, "postgres"@);
    let (ut, es) = engine_kind(engine);
    let plan = rds_plan(res.attr_trim_or("instance_class"@, "db.t3.medium"@));
    let marker = props_marker(res, "parameter_group_name"@, es);
    let ph = net_placeholder(res, "db_subnet_group_name"@);
    let network_note = if contains(ph, "subnet_group="@) {
        "network.uuid resolved from db_subnet_group — verify the network is correct."@
    } else {
        "Set network.uuid to the upcloud_network resource in the same zone."@
    };
    result_model(
        res,
        MigrationStatus::Compatible,
        ut,
        Some(spec_rds_hcl(ut, res.name@, plan, ph, marker)),
        None,
        None,
        seq!["engine '"@ + engine + "' → "@ + ut, "Migrate DB parameters and connection strings manually"@, network_note],
    )
}

/// `aws_db_instance` → a managed database of the engine's kind, its plan from the
/// instance class, its network from the subnet group, and a marker for the parameter
/// group's properties.
pub fn map_rds_instance(res: &TerraformResource) -> (r: MigrationResult)
    ensures
        r@ == spec_map_rds_instance(*res),
{
    let engine = string_of(&res.trimmed_or("engine", "postgres"));
    let (ut, es) = map_engine(engine.as_str());
    let plan = map_instance_class(&res.trimmed_or("instance_class", "db.t3.medium"));
    let marker = props_marker_exec(res, "parameter_group_name", es);
    let ph = net_placeholder_exec(res, "db_subnet_group_name");
    let hcl = rds_hcl(ut, res.name.as_str(), plan, ph.as_str(), marker.as_str());
    let network_note = if contains_str(&chars_of(ph.as_str()), "subnet_group=") {
        String::from_str("network.uuid resolved from db_subnet_group — verify the network is correct.")
    } else {
        String::from_str("Set network.uuid to the upcloud_network resource in the same zone.")
    };
    let mut first = cat3("engine '", engine.as_str(), "' → ");
    push_str(&mut first, ut);
    let mut notes: Vec<String> = Vec::new();
    push_note(&mut notes, first);
    push_note(&mut notes, String::from_str("Migrate DB parameters and connection strings manually"));
    push_note(&mut notes, network_note);
    new_result(res, MigrationStatus::Compatible, ut, Some(hcl), None, None, notes)
}

pub open spec fn spec_map_rds_cluster(res: TerraformResource) -> ResultModel {
    let engine = res.attr_trim_or("engine"@, "aurora-postgresql"@);
    let (ut, es) = engine_kind(engine);
    let marker = props_marker(res, "db_cluster_parameter_group_name"@, es);
    let ph = net_placeholder(res, "db_subnet_group_name"@);
    result_model(
        res,
        MigrationStatus::Compatible,
        ut,
        Some(spec_rds_cluster_hcl(ut, res.name@, ph, marker)),
        None,
        None,
        seq![
            "Aurora cluster → UpCloud Managed Database (no multi-master equivalent)"@,
            "Review cluster-specific features like read replicas"@,
        ],
    )
}

/// `aws_rds_cluster` → one managed database (no multi-master equivalent).
pub fn map_rds_cluster(res: &TerraformResource) -> (r: MigrationResult)
    ensures
        r@ == spec_map_rds_cluster(*res),
{
    let engine = string_of(&res.trimmed_or("engine", "aurora-postgresql"));
    let (ut, es) = map_engine(engine.as_str());
    let marker = props_marker_exec(res, "db_cluster_parameter_group_name", es);
    let ph = net_placeholder_exec(res, "db_subnet_group_name");
    let hcl = rds_cluster_hcl(ut, res.name.as_str(), ph.as_str(), marker.as_str());
    let mut notes = note("Aurora cluster → UpCloud Managed Database (no multi-master equivalent)");
    push_note(&mut notes, String::from_str("Review cluster-specific features like read replicas"));
    new_result(res, MigrationStatus::Compatible, ut, Some(hcl), None, None, notes)
}

/// `t` split at its first `=`.
pub open spec fn split_eq(t: Seq<char>) -> Option<(Seq<char>, Seq<char>)> {
    match find(t, seq!['=']) {
        Some(i) => Some((t.take(i), t.skip(i + 1))),
        None => None,
    }
}

/// The state of the parameter-block scan: inside a block, the name and value seen
/// there, and the pairs collected.
#[verifier::ext_equal]
pub struct ParamScan {
    pub in_block: bool,
    pub name: Option<Seq<char>>,
    pub value: Option<Seq<char>>,
    pub params: Seq<(Seq<char>, Seq<char>)>,
}

pub open spec fn param_step(st: ParamScan, line: Seq<char>) -> ParamScan {
    let t = trim(line);
    if starts_with(t, "parameter"@) && t.contains('{') {
        ParamScan { in_block: true, name: None, value: None, ..st }
    } else if st.in_block {
        if t == "}"@ {
            ParamScan {
                in_block: false,
                name: None,
                value: None,
                params: match (st.name, st.value) {
                    (Some(n), Some(v)) => st.params.push((n, v)),
                    _ => st.params,
                },
            }
        } else {
            match split_eq(t) {
                Some((k, v)) => {
                    let key = trim(k);
                    let val = trim_char(trim(v), '"');
                    if key == "name"@ {
                        ParamScan { name: Some(val), ..st }
                    } else if key == "value"@ {
                        ParamScan { value: Some(val), ..st }
                    } else {
                        st
                    }
                },
                None => st,
            }
        }
    } else {
        st
    }
}

pub open spec fn param_fold(ls: Seq<Seq<char>>) -> ParamScan
    decreases ls.len(),
{
    if ls.len() == 0 {
        ParamScan { in_block: false, name: None, value: None, params: seq![] }
    } else {
        param_step(param_fold(ls.drop_last()), ls.last())
    }
}

/// The `(name, value)` of each complete `parameter { ... }` block, in order.
pub open spec fn spec_extract_parameter_blocks(raw_hcl: Seq<char>) -> Seq<(Seq<char>, Seq<char>)> {
    param_fold(lines(raw_hcl)).params
}

pub open spec fn params_view(v: Seq<(String, String)>) -> Seq<(Seq<char>, Seq<char>)> {
    v.map_values(|p: (String, String)| (p.0@, p.1@))
}

/// Extract `parameter { name = "..." value = "..." }` blocks from raw HCL text.
pub fn extract_parameter_blocks(raw_hcl: &str) -> (r: Vec<(String, String)>)
    ensures
        params_view(r@) == spec_extract_parameter_blocks(raw_hcl@),
{
    let ls = lines_v(&chars_of(raw_hcl));
    let mut params: Vec<(String, String)> = Vec::new();
    let mut in_block = false;
    let mut name: Option<Vec<char>> = None;
    let mut value: Option<Vec<char>> = None;
    let mut i: usize = 0;
    assert(views(ls@).take(0) =~= Seq::<Seq<char>>::empty());
    assert(params_view(params@) =~= Seq::<(Seq<char>, Seq<char>)>::empty());
    while i < ls.len()
        invariant
            i <= ls@.len(),
            views(ls@) == lines(raw_hcl@),
            param_fold(views(ls@).take(i as int)) == (ParamScan {
                in_block,
                name: opt_vec_view(name),
                value: opt_vec_view(value),
                params: params_view(params@),
            }),
        decreases ls@.len() - i,
    {
        assert(views(ls@).take(i + 1).drop_last() =~= views(ls@).take(i as int));
        assert(views(ls@).take(i + 1).last() == ls@[i as int]@);
        let t = trim_v(&ls[i]);
        if starts_with_exec(&t, "parameter") && has_char(&t, '{') {
            in_block = true;
            name = None;
            value = None;
        } else if in_block {
            if eq_str(&t, "}") {
                let ghost prev = params_view(params@);
                match (&name, &value) {
                    (Some(n), Some(v)) => {
                        params.push((string_of(n), string_of(v)));
                        assert(params_view(params@) =~= prev.push((n@, v@)));
                    },
                    _ => {},
                }
                in_block = false;
                name = None;
                value = None;
            } else {
                let tn = t.len();
                match find_char_from(&t, '=', 0) {
                    Some(k) => {
                        assert(t@.skip(0) =~= t@);
                        let head = slice_of(&t, 0, k);
                        assert(head@ =~= t@.take(k as int));
                        let key = trim_v(&head);
                        let rest = slice_of(&t, k + 1, tn);
                        assert(rest@ =~= t@.skip(k + 1));
                        let val = trim_char_v(&trim_v(&rest), '"');
                        if eq_str(&key, "name") {
                            name = Some(val);
                        } else if eq_str(&key, "value") {
                            value = Some(val);
                        }
                    },
                    None => {
                        assert(t@.skip(0) =~= t@);
                    },
                }
            }
        }
        i += 1;
    }
    assert(views(ls@).take(i as int) =~= views(ls@));
    params
}

/// The names of the parameters that are not PostgreSQL properties.
pub open spec fn invalid_names(ps: Seq<(Seq<char>, Seq<char>)>) -> Seq<Seq<char>>
    decreases ps.len(),
{
    if ps.len() == 0 {
        seq![]
    } else if spec_is_valid_pg_property(ps.last().0) {
        invalid_names(ps.drop_last())
    } else {
        invalid_names(ps.drop_last()).push(ps.last().0)
    }
}

/// The texts joined with `sep` between them.
pub open spec fn join(xs: Seq<Seq<char>>, sep: Seq<char>) -> Seq<char>
    decreases xs.len(),
{
    if xs.len() == 0 {
        seq![]
    } else if xs.len() == 1 {
        xs[0]
    } else {
        join(xs.drop_last(), sep) + sep + xs.last()
    }
}

/// [`join`] on strings.
pub fn join_strs(xs: &Vec<String>, sep: &str) -> (r: String)
    ensures
        r@ == join(strs_view(xs@), sep@),
{
    let ghost v = strs_view(xs@);
    let mut s = String::new();
    let mut i: usize = 0;
    assert(v.take(0) =~= Seq::<Seq<char>>::empty());
    while i < xs.len()
        invariant
            i <= xs@.len(),
            v == strs_view(xs@),
            s@ == join(v.take(i as int), sep@),
        decreases xs@.len() - i,
    {
        assert(v.take(i + 1).drop_last() =~= v.take(i as int));
        assert(v.take(i + 1).last() == xs@[i as int]@);
        if i > 0 {
            push_str(&mut s, sep);
        } else {
            assert(v.take(1)[0] == xs@[0]@);
        }
        push_str(&mut s, xs[i].as_str());
        i += 1;
    }
    assert(v.take(i as int) =~= v);
    s
}

pub open spec fn spec_map_db_parameter_group(res: TerraformResource) -> ResultModel {
    let family = res.attr_trim_or("family"@, "postgres"@);
    let mysqlish = contains(family, "mysql"@) || contains(family, "mariadb"@);
    let db_type = if mysqlish { "upcloud_managed_database_mysql"@ } else { "upcloud_managed_database_postgresql"@ };
    let prefix = if mysqlish { "mysql"@ } else { "pg"@ };
    let params = spec_extract_parameter_blocks(res.raw_hcl@);
    let invalid = invalid_names(params);
    let note0 = "No standalone UpCloud equivalent — "@ + dec(params.len()) + " parameter(s) merged inline into the target "@ + db_type + " properties block."@;
    let notes = if invalid.len() == 0 {
        seq![note0]
    } else {
        seq![note0, dec(invalid.len()) + " unsupported parameter(s) commented out: "@ + join(invalid, ", "@)]
    };
    result_model(res, MigrationStatus::Partial, "("@ + prefix + " parameters → properties block)"@, None, None, None, notes)
}

/// `aws_db_parameter_group`: no standalone resource; its parameters are merged into
/// the database's properties, and the notes count them and name those that are not
/// properties of a PostgreSQL database.
pub fn map_db_parameter_group(res: &TerraformResource) -> (r: MigrationResult)
    ensures
        r@ == spec_map_db_parameter_group(*res),
{
    let family = res.trimmed_or("family", "postgres");
    let mysqlish = contains_str(&family, "mysql") || contains_str(&family, "mariadb");
    let db_type = if mysqlish { "upcloud_managed_database_mysql" } else { "upcloud_managed_database_postgresql" };
    let prefix = if mysqlish { "mysql" } else { "pg" };
    let params = extract_parameter_blocks(res.raw_hcl.as_str());
    let ghost pv = params_view(params@);
    let mut invalid: Vec<String> = Vec::new();
    let mut i: usize = 0;
    assert(pv.take(0) =~= Seq::<(Seq<char>, Seq<char>)>::empty());
    while i < params.len()
        invariant
            i <= params@.len(),
            pv == params_view(params@),
            strs_view(invalid@) == invalid_names(pv.take(i as int)),
        decreases params@.len() - i,
    {
        assert(pv.take(i + 1).drop_last() =~= pv.take(i as int));
        assert(pv.take(i + 1).last() == (params@[i as int].0@, params@[i as int].1@));
        if !is_valid_pg_property(params[i].0.as_str()) {
            push_note(&mut invalid, params[i].0.clone());
        }
        i += 1;
    }
    assert(pv.take(i as int) =~= pv);
    let mut note0 = String::from_str("No standalone UpCloud equivalent — ");
    push_u64(&mut note0, params.len() as u64);
    push_str(&mut note0, " parameter(s) merged inline into the target ");
    push_str(&mut note0, db_type);
    push_str(&mut note0, " properties block.");
    let mut notes: Vec<String> = Vec::new();
    push_note(&mut notes, note0);
    if invalid.len() > 0 {
        let mut n1 = String::new();
        push_u64(&mut n1, invalid.len() as u64);
        push_str(&mut n1, " unsupported parameter(s) commented out: ");
        let j = join_strs(&invalid, ", ");
        push_str(&mut n1, j.as_str());
        push_note(&mut notes, n1);
    }
    let ut = cat3("(", prefix, " parameters → properties block)");
    new_result(res, MigrationStatus::Partial, ut.as_str(), None, None, None, notes)
}

pub open spec fn spec_map_db_subnet_group(res: TerraformResource) -> ResultModel {
    result_model(
        res,
        MigrationStatus::Partial,
        "(subnet group → network block)"@,
        None,
        None,
        None,
        seq![
            "aws_db_subnet_group has no UpCloud equivalent resource."@,
            "Network placement is configured directly in the `network {}` block of your upcloud_managed_database_* resource."@,
        ],
    )
}

/// `aws_db_subnet_group`: network placement goes into the database's `network` block.
pub fn map_db_subnet_group(res: &TerraformResource) -> (r: MigrationResult)
    ensures
        r@ == spec_map_db_subnet_group(*res),
{
    let mut notes = note("aws_db_subnet_group has no UpCloud equivalent resource.");
    push_note(&mut notes, String::from_str("Network placement is configured directly in the `network {}` block of your upcloud_managed_database_* resource."));
    new_result(res, MigrationStatus::Partial, "(subnet group → network block)", None, None, None, notes)
}

pub open spec fn spec_map_elasticache_subnet_group(res: TerraformResource) -> ResultModel {
    result_model(
        res,
        MigrationStatus::Partial,
        "(subnet group → network block)"@,
        None,
        None,
        None,
        seq![
            "aws_elasticache_subnet_group has no UpCloud equivalent resource."@,
            "Network placement is configured directly in the `network {}` block of your upcloud_managed_database_valkey resource."@,
        ],
    )
}

/// `aws_elasticache_subnet_group`: network placement goes into the Valkey `network` block.
pub fn map_elasticache_subnet_group(res: &TerraformResource) -> (r: MigrationResult)
    ensures
        r@ == spec_map_elasticache_subnet_group(*res),
{
    let mut notes = note("aws_elasticache_subnet_group has no UpCloud equivalent resource.");
    push_note(&mut notes, String::from_str("Network placement is configured directly in the `network {}` block of your upcloud_managed_database_valkey resource."));
    new_result(res, MigrationStatus::Partial, "(subnet group → network block)", None, None, None, notes)
}

/// The commented property line of one ElastiCache parameter: `valkey_` and the name
/// with `-` as `_`.
pub open spec fn valkey_param_line(p: (Seq<char>, Seq<char>)) -> Seq<char> {
    "#     valkey_"@ + replace_char(p.0, '-', "_"@) + " = \""@ + p.1 + "\""@
}

pub open spec fn valkey_param_lines(ps: Seq<(Seq<char>, Seq<char>)>) -> Seq<Seq<char>>
    decreases ps.len(),
{
    if ps.len() == 0 {
        seq![]
    } else {
        valkey_param_lines(ps.drop_last()).push(valkey_param_line(ps.last()))
    }
}

pub open spec fn valkey_lines(name: Seq<char>, ps: Seq<(Seq<char>, Seq<char>)>) -> Seq<Seq<char>> {
    seq![
        "# aws_elasticache_parameter_group \""@ + name + "\" has no standalone UpCloud resource."@,
        "# Add these parameters to the properties {} block of your upcloud_managed_database_valkey resource:"@,
        "#"@,
        "#   properties {"@,
        "#     public_access = false"@,
    ] + (if ps.len() == 0 {
        seq!["#     # <TODO: migrate valkey parameters manually>"@]
    } else {
        valkey_param_lines(ps)
    }) + seq!["#   }"@]
}

pub open spec fn spec_map_elasticache_parameter_group(res: TerraformResource) -> ResultModel {
    let ps = spec_extract_parameter_blocks(res.raw_hcl@);
    result_model(
        res,
        MigrationStatus::Partial,
        "(valkey parameters → properties block)"@,
        Some(join(valkey_lines(res.name@, ps), "\n"@)),
        None,
        None,
        seq![
            "aws_elasticache_parameter_group has no UpCloud equivalent resource."@,
            "Add the "@ + dec(ps.len()) + " properties shown above to your upcloud_managed_database_valkey resource."@,
        ],
    )
}

/// `aws_elasticache_parameter_group`: a commented `properties` block with each
/// parameter as a Valkey property, to be copied into the Valkey resource.
pub fn map_elasticache_parameter_group(res: &TerraformResource) -> (r: MigrationResult)
    ensures
        r@ == spec_map_elasticache_parameter_group(*res),
{
    let params = extract_parameter_blocks(res.raw_hcl.as_str());
    let ghost pv = params_view(params@);
    let mut lines: Vec<String> = Vec::new();
    push_note(&mut lines, cat3("# aws_elasticache_parameter_group \"", res.name.as_str(), "\" has no standalone UpCloud resource."));
    push_note(&mut lines, String::from_str("# Add these parameters to the properties {} block of your upcloud_managed_database_valkey resource:"));
    push_note(&mut lines, String::from_str("#"));
    push_note(&mut lines, String::from_str("#   properties {"));
    push_note(&mut lines, String::from_str("#     public_access = false"));
    let ghost head = strs_view(lines@);
    if params.len() == 0 {
        push_note(&mut lines, String::from_str("#     # <TODO: migrate valkey parameters manually>"));
    } else {
        let mut i: usize = 0;
        assert(pv.take(0) =~= Seq::<(Seq<char>, Seq<char>)>::empty());
        assert(head + valkey_param_lines(pv.take(0)) =~= head);
        while i < params.len()
            invariant
                i <= params@.len(),
                pv == params_view(params@),
                strs_view(lines@) == head + valkey_param_lines(pv.take(i as int)),
            decreases params@.len() - i,
        {
            assert(pv.take(i + 1).drop_last() =~= pv.take(i as int));
            assert(pv.take(i + 1).last() == (params@[i as int].0@, params@[i as int].1@));
            let vn = replace_char_v(&chars_of(params[i].0.as_str()), '-', "_");
            let mut l = String::from_str("#     valkey_");
            push_vec(&mut l, &vn);
            push_str(&mut l, " = \"");
            push_str(&mut l, params[i].1.as_str());
            push_str(&mut l, "\"");
            push_note(&mut lines, l);
            i += 1;
        }
        assert(pv.take(i as int) =~= pv);
    }
    push_note(&mut lines, String::from_str("#   }"));
    assert(strs_view(lines@) =~= valkey_lines(res.name@, pv));
    let hcl = join_strs(&lines, "\n");
    let mut notes = note("aws_elasticache_parameter_group has no UpCloud equivalent resource.");
    let mut n1 = String::from_str("Add the ");
    push_u64(&mut n1, params.len() as u64);
    push_str(&mut n1, " properties shown above to your upcloud_managed_database_valkey resource.");
    push_note(&mut notes, n1);
    new_result(res, MigrationStatus::Partial, "(valkey parameters → properties block)", Some(hcl), None, None, notes)
}

/// The Valkey plan for an ElastiCache node type.
pub open spec fn valkey_plan(t: Seq<char>) -> Seq<char> {
    if contains(t, "micro"@) || contains(t, "small"@) {
        "1x1xCPU-2GB"@
    } else if contains(t, "medium"@) {
        "1x2xCPU-4GB"@
    } else if contains(t, "xlarge"@) {
        "1x4xCPU-28GB"@
    } else if contains(t, "large"@) {
        "1x2xCPU-8GB"@
    } else {
        "1x1xCPU-2GB"@
    }
}

/// Map an ElastiCache node_type to the closest UpCloud Valkey plan.
/// Valkey plans don't include a disk-size suffix.
fn map_elasticache_node_type(t: &Vec<char>) -> (r: &'static str)
    ensures
        r@ == valkey_plan(t@),
{
    if contains_str(t, "micro") || contains_str(t, "small") {
        "1x1xCPU-2GB"
    } else if contains_str(t, "medium") {
        "1x2xCPU-4GB"
    } else if contains_str(t, "xlarge") {
        "1x4xCPU-28GB"
    } else if contains_str(t, "large") {
        "1x2xCPU-8GB"
    } else {
        "1x1xCPU-2GB"
    }
}

pub open spec fn spec_map_elasticache_cluster(res: TerraformResource) -> ResultModel {
    let engine = res.attr_trim_or("engine"@, "redis"@);
    let node_type = res.attr_trim_or("node_type"@, seq![]);
    let plan = valkey_plan(node_type);
    let ph = net_placeholder(res, "subnet_group_name"@);
    let n0 = seq!["ElastiCache ("@ + engine + ") → UpCloud Managed Valkey (Redis-compatible)"@, "Update connection strings to point to UpCloud Valkey endpoint"@];
    let notes = if node_type.len() > 0 {
        n0.push("node_type '"@ + node_type + "' → plan '"@ + plan + "'"@)
    } else {
        n0
    };
    result_model(res, MigrationStatus::Compatible, "upcloud_managed_database_valkey"@, Some(spec_valkey_hcl(res.name@, plan, ph)), None, None, notes)
}

/// `aws_elasticache_cluster` → a managed Valkey database.
pub fn map_elasticache_cluster(res: &TerraformResource) -> (r: MigrationResult)
    ensures
        r@ == spec_map_elasticache_cluster(*res),
{
    let engine = string_of(&res.trimmed_or("engine", "redis"));
    let nt = match res.get_trimmed("node_type") {
        Some(v) => v,
        None => Vec::new(),
    };
    let plan = map_elasticache_node_type(&nt);
    let ph = net_placeholder_exec(res, "subnet_group_name");
    let hcl = valkey_hcl(res.name.as_str(), plan, ph.as_str());
    let mut notes = note(cat3("ElastiCache (", engine.as_str(), ") → UpCloud Managed Valkey (Redis-compatible)").as_str());
    push_note(&mut notes, String::from_str("Update connection strings to point to UpCloud Valkey endpoint"));
    if nt.len() > 0 {
        push_note(&mut notes, cat5("node_type '", string_of(&nt).as_str(), "' → plan '", plan, "'"));
    }
    new_result(res, MigrationStatus::Compatible, "upcloud_managed_database_valkey", Some(hcl), None, None, notes)
}

/// The size class of an ElastiCache node or RDS instance type, by the word it holds:
/// 0 for `micro`/`small` (or none of the words), 1 for `medium`, 2 for `large`, 3 for
/// `xlarge`; the smaller word counts first when several occur.
pub open spec fn node_size_class(t: Seq<char>) -> int {
    if contains(t, "micro"@) || contains(t, "small"@) {
        0
    } else if contains(t, "medium"@) {
        1
    } else if contains(t, "xlarge"@) {
        3
    } else if contains(t, "large"@) {
        2
    } else {
        0
    }
}

/// The memory, in GB, of the Valkey plans a node type can get.
pub open spec fn valkey_plan_memory(p: Seq<char>) -> int {
    if p == "1x1xCPU-2GB"@ {
        2
    } else if p == "1x2xCPU-4GB"@ {
        4
    } else if p == "1x2xCPU-8GB"@ {
        8
    } else if p == "1x4xCPU-28GB"@ {
        28
    } else {
        -1
    }
}

/// The Valkey plan of an ElastiCache node type follows its size class: `micro`/`small`
/// nodes get `1x1xCPU-2GB`, `medium` nodes `1x2xCPU-4GB`, `large` nodes `1x2xCPU-8GB`,
/// `xlarge` nodes `1x4xCPU-28GB`, and other types the smallest plan; a larger class
/// never gets a plan with less memory.
pub proof fn valkey_plan_follows_node_size(t: Seq<char>, u: Seq<char>)
    ensures
        node_size_class(t) == 0 ==> valkey_plan(t) == "1x1xCPU-2GB"@,
        node_size_class(t) == 1 ==> valkey_plan(t) == "1x2xCPU-4GB"@,
        node_size_class(t) == 2 ==> valkey_plan(t) == "1x2xCPU-8GB"@,
        node_size_class(t) == 3 ==> valkey_plan(t) == "1x4xCPU-28GB"@,
        (contains(t, "medium"@) && !contains(t, "micro"@) && !contains(t, "small"@)) ==> valkey_plan(t) == "1x2xCPU-4GB"@,
        valkey_plan_memory(valkey_plan(t)) > 0,
        node_size_class(t) <= node_size_class(u) ==> valkey_plan_memory(valkey_plan(t)) <= valkey_plan_memory(valkey_plan(u)),
{
    reveal_strlit("1x1xCPU-2GB");
    assert("1x1xCPU-2GB"@[0] == '1');
    assert("1x1xCPU-2GB"@[1] == 'x');
    assert("1x1xCPU-2GB"@[2] == '1');
    assert("1x1xCPU-2GB"@[3] == 'x');
    assert("1x1xCPU-2GB"@[4] == 'C');
    assert("1x1xCPU-2GB"@[5] == 'P');
    assert("1x1xCPU-2GB"@[6] == 'U');
    assert("1x1xCPU-2GB"@[7] == '-');
    assert("1x1xCPU-2GB"@[8] == '2');
    assert("1x1xCPU-2GB"@[9] == 'G');
    assert("1x1xCPU-2GB"@[10] == 'B');
    reveal_strlit("1x2xCPU-4GB");
    assert("1x2xCPU-4GB"@[0] == '1');
    assert("1x2xCPU-4GB"@[1] == 'x');
    assert("1x2xCPU-4GB"@[2] == '2');
    assert("1x2xCPU-4GB"@[3] == 'x');
    assert("1x2xCPU-4GB"@[4] == 'C');
    assert("1x2xCPU-4GB"@[5] == 'P');
    assert("1x2xCPU-4GB"@[6] == 'U');
    assert("1x2xCPU-4GB"@[7] == '-');
    assert("1x2xCPU-4GB"@[8] == '4');
    assert("1x2xCPU-4GB"@[9] == 'G');
    assert("1x2xCPU-4GB"@[10] == 'B');
    reveal_strlit("1x2xCPU-8GB");
    assert("1x2xCPU-8GB"@[0] == '1');
    assert("1x2xCPU-8GB"@[1] == 'x');
    assert("1x2xCPU-8GB"@[2] == '2');
    assert("1x2xCPU-8GB"@[3] == 'x');
    assert("1x2xCPU-8GB"@[4] == 'C');
    assert("1x2xCPU-8GB"@[5] == 'P');
    assert("1x2xCPU-8GB"@[6] == 'U');
    assert("1x2xCPU-8GB"@[7] == '-');
    assert("1x2xCPU-8GB"@[8] == '8');
    assert("1x2xCPU-8GB"@[9] == 'G');
    assert("1x2xCPU-8GB"@[10] == 'B');
    reveal_strlit("1x4xCPU-28GB");
    assert("1x4xCPU-28GB"@[0] == '1');
    assert("1x4xCPU-28GB"@[1] == 'x');
    assert("1x4xCPU-28GB"@[2] == '4');
    assert("1x4xCPU-28GB"@[3] == 'x');
    assert("1x4xCPU-28GB"@[4] == 'C');
    assert("1x4xCPU-28GB"@[5] == 'P');
    assert("1x4xCPU-28GB"@[6] == 'U');
    assert("1x4xCPU-28GB"@[7] == '-');
    assert("1x4xCPU-28GB"@[8] == '2');
    assert("1x4xCPU-28GB"@[9] == '8');
    assert("1x4xCPU-28GB"@[10] == 'G');
    assert("1x4xCPU-28GB"@[11] == 'B');
}

/// The RDS plans an instance class can get, by memory in GB.
pub open spec fn rds_plan_memory(p: Seq<char>) -> int {
    if p == "1x1xCPU-2GB-25GB"@ {
        2
    } else if p == "1x2xCPU-4GB-50GB"@ {
        4
    } else if p == "2x4xCPU-8GB-100GB"@ {
        8
    } else if p == "2x6xCPU-16GB-100GB"@ {
        16
    } else {
        -1
    }
}

/// The RDS plan of an instance class follows its size class: `micro`/`small` classes get
/// `1x1xCPU-2GB-25GB`, `medium` ones `1x2xCPU-4GB-50GB`, `large` ones
/// `2x4xCPU-8GB-100GB`, `xlarge` ones `2x6xCPU-16GB-100GB`, other classes the medium
/// plan; among classes that name a size, a larger one never gets less memory.
pub proof fn rds_plan_follows_instance_size(c: Seq<char>, d: Seq<char>)
    ensures
        (contains(c, "micro"@) || contains(c, "small"@)) ==> rds_plan(c) == "1x1xCPU-2GB-25GB"@,
        node_size_class(c) == 1 ==> rds_plan(c) == "1x2xCPU-4GB-50GB"@,
        node_size_class(c) == 2 ==> rds_plan(c) == "2x4xCPU-8GB-100GB"@,
        node_size_class(c) == 3 ==> rds_plan(c) == "2x6xCPU-16GB-100GB"@,
        node_size_class(c) == 0 && !contains(c, "micro"@) && !contains(c, "small"@) ==> rds_plan(c) == "1x2xCPU-4GB-50GB"@,
        rds_plan_memory(rds_plan(c)) > 0,
        (contains(c, "micro"@) || contains(c, "small"@) || node_size_class(c) > 0) && node_size_class(c) <= node_size_class(d)
            ==> rds_plan_memory(rds_plan(c)) <= rds_plan_memory(rds_plan(d)),
{
    reveal_strlit("1x1xCPU-2GB-25GB");
    assert("1x1xCPU-2GB-25GB"@[0] == '1');
    assert("1x1xCPU-2GB-25GB"@[1] == 'x');
    assert("1x1xCPU-2GB-25GB"@[2] == '1');
    assert("1x1xCPU-2GB-25GB"@[3] == 'x');
    assert("1x1xCPU-2GB-25GB"@[4] == 'C');
    assert("1x1xCPU-2GB-25GB"@[5] == 'P');
    assert("1x1xCPU-2GB-25GB"@[6] == 'U');
    assert("1x1xCPU-2GB-25GB"@[7] == '-');
    assert("1x1xCPU-2GB-25GB"@[8] == '2');
    assert("1x1xCPU-2GB-25GB"@[9] == 'G');
    assert("1x1xCPU-2GB-25GB"@[10] == 'B');
    assert("1x1xCPU-2GB-25GB"@[11] == '-');
    assert("1x1xCPU-2GB-25GB"@[12] == '2');
    assert("1x1xCPU-2GB-25GB"@[13] == '5');
    assert("1x1xCPU-2GB-25GB"@[14] == 'G');
    assert("1x1xCPU-2GB-25GB"@[15] == 'B');
    reveal_strlit("1x2xCPU-4GB-50GB");
    assert("1x2xCPU-4GB-50GB"@[0] == '1');
    assert("1x2xCPU-4GB-50GB"@[1] == 'x');
    assert("1x2xCPU-4GB-50GB"@[2] == '2');
    assert("1x2xCPU-4GB-50GB"@[3] == 'x');
    assert("1x2xCPU-4GB-50GB"@[4] == 'C');
    assert("1x2xCPU-4GB-50GB"@[5] == 'P');
    assert("1x2xCPU-4GB-50GB"@[6] == 'U');
    assert("1x2xCPU-4GB-50GB"@[7] == '-');
    assert("1x2xCPU-4GB-50GB"@[8] == '4');
    assert("1x2xCPU-4GB-50GB"@[9] == 'G');
    assert("1x2xCPU-4GB-50GB"@[10] == 'B');
    assert("1x2xCPU-4GB-50GB"@[11] == '-');
    assert("1x2xCPU-4GB-50GB"@[12] == '5');
    assert("1x2xCPU-4GB-50GB"@[13] == '0');
    assert("1x2xCPU-4GB-50GB"@[14] == 'G');
    assert("1x2xCPU-4GB-50GB"@[15] == 'B');
    reveal_strlit("2x4xCPU-8GB-100GB");
    assert("2x4xCPU-8GB-100GB"@[0] == '2');
    assert("2x4xCPU-8GB-100GB"@[1] == 'x');
    assert("2x4xCPU-8GB-100GB"@[2] == '4');
    assert("2x4xCPU-8GB-100GB"@[3] == 'x');
    assert("2x4xCPU-8GB-100GB"@[4] == 'C');
    assert("2x4xCPU-8GB-100GB"@[5] == 'P');
    assert("2x4xCPU-8GB-100GB"@[6] == 'U');
    assert("2x4xCPU-8GB-100GB"@[7] == '-');
    assert("2x4xCPU-8GB-100GB"@[8] == '8');
    assert("2x4xCPU-8GB-100GB"@[9] == 'G');
    assert("2x4xCPU-8GB-100GB"@[10] == 'B');
    assert("2x4xCPU-8GB-100GB"@[11] == '-');
    assert("2x4xCPU-8GB-100GB"@[12] == '1');
    assert("2x4xCPU-8GB-100GB"@[13] == '0');
    assert("2x4xCPU-8GB-100GB"@[14] == '0');
    assert("2x4xCPU-8GB-100GB"@[15] == 'G');
    assert("2x4xCPU-8GB-100GB"@[16] == 'B');
    reveal_strlit("2x6xCPU-16GB-100GB");
    assert("2x6xCPU-16GB-100GB"@[0] == '2');
    assert("2x6xCPU-16GB-100GB"@[1] == 'x');
    assert("2x6xCPU-16GB-100GB"@[2] == '6');
    assert("2x6xCPU-16GB-100GB"@[3] == 'x');
    assert("2x6xCPU-16GB-100GB"@[4] == 'C');
    assert("2x6xCPU-16GB-100GB"@[5] == 'P');
    assert("2x6xCPU-16GB-100GB"@[6] == 'U');
    assert("2x6xCPU-16GB-100GB"@[7] == '-');
    assert("2x6xCPU-16GB-100GB"@[8] == '1');
    assert("2x6xCPU-16GB-100GB"@[9] == '6');
    assert("2x6xCPU-16GB-100GB"@[10] == 'G');
    assert("2x6xCPU-16GB-100GB"@[11] == 'B');
    assert("2x6xCPU-16GB-100GB"@[12] == '-');
    assert("2x6xCPU-16GB-100GB"@[13] == '1');
    assert("2x6xCPU-16GB-100GB"@[14] == '0');
    assert("2x6xCPU-16GB-100GB"@[15] == '0');
    assert("2x6xCPU-16GB-100GB"@[16] == 'G');
    assert("2x6xCPU-16GB-100GB"@[17] == 'B');
}

/// The UpCloud database type of an RDS engine (any case): an engine naming PostgreSQL
/// becomes PostgreSQL with the `pg` property prefix; one naming MySQL or MariaDB (and not
/// PostgreSQL) becomes MySQL with `mysql`; any other engine PostgreSQL.
pub proof fn engine_kind_follows_engine_family(engine: Seq<char>)
    ensures
        contains(spec_to_lowercase(engine), "postgres"@) ==> engine_kind(engine) == ("upcloud_managed_database_postgresql"@, "pg"@),
        !contains(spec_to_lowercase(engine), "postgres"@) && (contains(spec_to_lowercase(engine), "mysql"@) || contains(spec_to_lowercase(engine), "mariadb"@))
            ==> engine_kind(engine) == ("upcloud_managed_database_mysql"@, "mysql"@),
        !contains(spec_to_lowercase(engine), "postgres"@) && !contains(spec_to_lowercase(engine), "mysql"@) && !contains(spec_to_lowercase(engine), "mariadb"@)
            ==> engine_kind(engine) == ("upcloud_managed_database_postgresql"@, "pg"@),
{
}

} // verus!
