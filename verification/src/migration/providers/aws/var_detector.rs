//! AWS variable detection — recognises EC2/RDS/ElastiCache types and AWS regions.
use vstd::prelude::*;

use crate::migration::providers::aws::compute::{aws_instance_type_to_upcloud_plan, spec_aws_instance_plan};
use crate::migration::types::strs_view;
use crate::migration::var_detector::{
    attrs_contain, cap10, collect_candidates, concat3, conv_views, opt_conv_view, opt_str_view,
    opt_to_owned, some_views, VarConversion, VarConversionModel, VarDetector, VarKind,
};
use crate::text::{
    chars_of, contains, contains_str, ends_with, ends_with_exec, eq_str, rfind, rfind_below_exec,
    slice_of, starts_with, starts_with_exec, string_of, spec_to_lowercase, to_lowercase,
    lemma_rfind_bounds,
};

use crate::migration::providers::aws::compute::{aws_zone_default_table, spec_aws_zone_default};

verus! {

pub open spec fn spec_aws_region_zone(region: Seq<char>) -> Option<Seq<char>> {
    if region == "us-east-1"@ || region == "us-east-2"@ {
        Some("us-nyc1"@)
    } else if region == "us-west-1"@ || region == "us-west-2"@ {
        Some("us-chi1"@)
    } else if region == "ca-central-1"@ || region == "ca-west-1"@ {
        Some("us-nyc1"@)
    } else if region == "eu-west-1"@ || region == "eu-west-2"@ || region == "eu-west-3"@ {
        Some("de-fra1"@)
    } else if region == "eu-central-1"@ || region == "eu-central-2"@ {
        Some("de-fra1"@)
    } else if region == "eu-north-1"@ {
        Some("fi-hel1"@)
    } else if region == "eu-south-1"@ || region == "eu-south-2"@ {
        Some("pl-waw1"@)
    } else if region == "ap-east-1"@ {
        Some("sg-sin1"@)
    } else if region == "ap-southeast-1"@ || region == "ap-southeast-2"@ || region == "ap-southeast-3"@ || region == "ap-southeast-4"@ {
        Some("sg-sin1"@)
    } else if region == "ap-northeast-1"@ || region == "ap-northeast-2"@ || region == "ap-northeast-3"@ {
        Some("sg-sin1"@)
    } else if region == "ap-south-1"@ || region == "ap-south-2"@ {
        Some("sg-sin1"@)
    } else if region == "sa-east-1"@ {
        Some("us-nyc1"@)
    } else if region == "me-south-1"@ || region == "me-central-1"@ {
        Some("sg-sin1"@)
    } else if region == "af-south-1"@ {
        Some("de-fra1"@)
    } else if region == "il-central-1"@ {
        Some("de-fra1"@)
    } else {
        None
    }
}

/// Map an AWS region to the closest UpCloud zone.
pub fn aws_region_to_upcloud_zone(region: &str) -> (r: Option<&'static str>)
    ensures
        r matches Some(x) ==> spec_aws_region_zone(region@) == Some(x@),
        r is None ==> spec_aws_region_zone(region@) is None,
{
    let v = chars_of(region);
    if eq_str(&v, "us-east-1") || eq_str(&v, "us-east-2") {
        Some("us-nyc1")
    } else if eq_str(&v, "us-west-1") || eq_str(&v, "us-west-2") {
        Some("us-chi1")
    } else if eq_str(&v, "ca-central-1") || eq_str(&v, "ca-west-1") {
        Some("us-nyc1")
    } else if eq_str(&v, "eu-west-1") || eq_str(&v, "eu-west-2") || eq_str(&v, "eu-west-3") {
        Some("de-fra1")
    } else if eq_str(&v, "eu-central-1") || eq_str(&v, "eu-central-2") {
        Some("de-fra1")
    } else if eq_str(&v, "eu-north-1") {
        Some("fi-hel1")
    } else if eq_str(&v, "eu-south-1") || eq_str(&v, "eu-south-2") {
        Some("pl-waw1")
    } else if eq_str(&v, "ap-east-1") {
        Some("sg-sin1")
    } else if eq_str(&v, "ap-southeast-1") || eq_str(&v, "ap-southeast-2") || eq_str(&v, "ap-southeast-3") || eq_str(&v, "ap-southeast-4") {
        Some("sg-sin1")
    } else if eq_str(&v, "ap-northeast-1") || eq_str(&v, "ap-northeast-2") || eq_str(&v, "ap-northeast-3") {
        Some("sg-sin1")
    } else if eq_str(&v, "ap-south-1") || eq_str(&v, "ap-south-2") {
        Some("sg-sin1")
    } else if eq_str(&v, "sa-east-1") {
        Some("us-nyc1")
    } else if eq_str(&v, "me-south-1") || eq_str(&v, "me-central-1") {
        Some("sg-sin1")
    } else if eq_str(&v, "af-south-1") {
        Some("de-fra1")
    } else if eq_str(&v, "il-central-1") {
        Some("de-fra1")
    } else {
        None
    }
}

pub open spec fn spec_is_aws_region(s: Seq<char>) -> bool {
    s == "us-east-1"@
    || s == "us-east-2"@
    || s == "us-west-1"@
    || s == "us-west-2"@
    || s == "ca-central-1"@
    || s == "ca-west-1"@
    || s == "eu-west-1"@
    || s == "eu-west-2"@
    || s == "eu-west-3"@
    || s == "eu-central-1"@
    || s == "eu-central-2"@
    || s == "eu-north-1"@
    || s == "eu-south-1"@
    || s == "eu-south-2"@
    || s == "ap-east-1"@
    || s == "ap-southeast-1"@
    || s == "ap-southeast-2"@
    || s == "ap-southeast-3"@
    || s == "ap-southeast-4"@
    || s == "ap-northeast-1"@
    || s == "ap-northeast-2"@
    || s == "ap-northeast-3"@
    || s == "ap-south-1"@
    || s == "ap-south-2"@
    || s == "sa-east-1"@
    || s == "me-south-1"@
    || s == "me-central-1"@
    || s == "af-south-1"@
    || s == "il-central-1"@
}

/// Whether `s` is one of the known AWS region codes.
fn is_aws_region(s: &str) -> (r: bool)
    ensures
        r == spec_is_aws_region(s@),
{
    let v = chars_of(s);
    eq_str(&v, "us-east-1")
        || eq_str(&v, "us-east-2")
        || eq_str(&v, "us-west-1")
        || eq_str(&v, "us-west-2")
        || eq_str(&v, "ca-central-1")
        || eq_str(&v, "ca-west-1")
        || eq_str(&v, "eu-west-1")
        || eq_str(&v, "eu-west-2")
        || eq_str(&v, "eu-west-3")
        || eq_str(&v, "eu-central-1")
        || eq_str(&v, "eu-central-2")
        || eq_str(&v, "eu-north-1")
        || eq_str(&v, "eu-south-1")
        || eq_str(&v, "eu-south-2")
        || eq_str(&v, "ap-east-1")
        || eq_str(&v, "ap-southeast-1")
        || eq_str(&v, "ap-southeast-2")
        || eq_str(&v, "ap-southeast-3")
        || eq_str(&v, "ap-southeast-4")
        || eq_str(&v, "ap-northeast-1")
        || eq_str(&v, "ap-northeast-2")
        || eq_str(&v, "ap-northeast-3")
        || eq_str(&v, "ap-south-1")
        || eq_str(&v, "ap-south-2")
        || eq_str(&v, "sa-east-1")
        || eq_str(&v, "me-south-1")
        || eq_str(&v, "me-central-1")
        || eq_str(&v, "af-south-1")
        || eq_str(&v, "il-central-1")
}

/// The text after the last `.` of `s`, or all of `s` when it has none.
pub open spec fn after_last_dot(s: Seq<char>) -> Seq<char> {
    match rfind(s, seq!['.']) {
        Some(i) => s.skip(i + 1),
        None => s,
    }
}

/// Plan of an RDS instance class (`db.` prefix, plans with storage) or an
/// ElastiCache node type (`cache.` prefix, plans without storage).
pub open spec fn spec_rds_or_cache_plan(class: Seq<char>) -> Option<Seq<char>> {
    if !starts_with(class, "db."@) && !starts_with(class, "cache."@) {
        None
    } else {
        let is_rds = starts_with(class, "db."@);
        let size = after_last_dot(
            if is_rds {
                class.skip(3)
            } else {
                class.skip(6)
            },
        );
        if size == "nano"@ || size == "micro"@ || size == "small"@ {
            Some(if is_rds { "1x1xCPU-2GB-25GB"@ } else { "1x1xCPU-2GB"@ })
        } else if size == "medium"@ {
            Some(if is_rds { "1x2xCPU-4GB-50GB"@ } else { "1x2xCPU-4GB"@ })
        } else if size == "large"@ {
            Some(if is_rds { "2x4xCPU-8GB-100GB"@ } else { "1x2xCPU-8GB"@ })
        } else if size == "xlarge"@ {
            Some(if is_rds { "2x6xCPU-16GB-100GB"@ } else { "1x4xCPU-28GB"@ })
        } else if ends_with(size, "xlarge"@) {
            Some(if is_rds { "2x8xCPU-32GB-100GB"@ } else { "1x8xCPU-56GB"@ })
        } else {
            None
        }
    }
}

/// Map an AWS RDS instance class or ElastiCache node type to the corresponding UpCloud
/// managed database plan. Returns `None` for unrecognised patterns.
fn rds_or_cache_class_to_upcloud_plan(class: &str) -> (r: Option<&'static str>)
    ensures
        r matches Some(x) ==> spec_rds_or_cache_plan(class@) == Some(x@),
        r is None ==> spec_rds_or_cache_plan(class@) is None,
{
    let v = chars_of(class);
    let is_db = starts_with_exec(&v, "db.");
    let is_cache = starts_with_exec(&v, "cache.");
    if !is_db && !is_cache {
        return None;
    }
    proof {
        reveal_strlit("db.");
        reveal_strlit("cache.");
    }
    let stripped = if is_db {
        slice_of(&v, 3, v.len())
    } else {
        slice_of(&v, 6, v.len())
    };
    assert(is_db ==> stripped@ =~= v@.skip(3));
    assert(!is_db ==> stripped@ =~= v@.skip(6));
    let dot = chars_of(".");
    proof {
        reveal_strlit(".");
    }
    assert(dot@ =~= seq!['.']);
    let size = match rfind_below_exec(&stripped, &dot, stripped.len() + 1) {
        Some(i) => {
            proof {
                lemma_rfind_bounds(stripped@, seq!['.']);
            }
            slice_of(&stripped, i + 1, stripped.len())
        },
        None => slice_of(&stripped, 0, stripped.len()),
    };
    assert(size@ =~= after_last_dot(stripped@));
    if eq_str(&size, "nano") || eq_str(&size, "micro") || eq_str(&size, "small") {
        Some(if is_db { "1x1xCPU-2GB-25GB" } else { "1x1xCPU-2GB" })
    } else if eq_str(&size, "medium") {
        Some(if is_db { "1x2xCPU-4GB-50GB" } else { "1x2xCPU-4GB" })
    } else if eq_str(&size, "large") {
        Some(if is_db { "2x4xCPU-8GB-100GB" } else { "1x2xCPU-8GB" })
    } else if eq_str(&size, "xlarge") {
        Some(if is_db { "2x6xCPU-16GB-100GB" } else { "1x4xCPU-28GB" })
    } else if ends_with_exec(&size, "xlarge") {
        Some(if is_db { "2x8xCPU-32GB-100GB" } else { "1x8xCPU-56GB" })
    } else {
        None
    }
}


// ───────────────────────── instance type scoring ─────────────────────────

/// Signal 1: the default is an EC2 instance type, or else an RDS/ElastiCache class.
/// Gives (points, signals, converted value).
pub open spec fn it_default_signal(default_val: Option<Seq<char>>) -> (nat, Seq<Seq<char>>, Option<
    Seq<char>,
>) {
    match default_val {
        Some(dv) => match spec_aws_instance_plan(dv) {
            Some(p) => (5, seq!["default '"@ + dv + "' is an AWS EC2 instance type"@], Some(p)),
            None => match spec_rds_or_cache_plan(dv) {
                Some(p) => (
                    5,
                    seq!["default '"@ + dv + "' is an AWS RDS/ElastiCache instance class"@],
                    Some(p),
                ),
                None => (0, seq![], None),
            },
        },
        None => (0, seq![], None),
    }
}

/// Signal 2: the variable is used as an instance type / class / node type attribute.
pub open spec fn it_usage_signal(usage: Seq<Seq<char>>) -> (nat, Seq<Seq<char>>) {
    if usage.contains("instance_type"@) {
        (5, seq!["referenced as 'instance_type' attribute in a resource"@])
    } else if usage.contains("instance_types"@) {
        (3, seq!["referenced as 'instance_types' attribute in a resource"@])
    } else if usage.contains("instance_class"@) {
        (5, seq!["referenced as 'instance_class' attribute in a resource (RDS)"@])
    } else if usage.contains("node_type"@) {
        (5, seq!["referenced as 'node_type' attribute in a resource (ElastiCache)"@])
    } else {
        (0, seq![])
    }
}

/// Signal 3: the lower-cased description mentions an instance/machine type.
pub open spec fn it_desc_signal(description: Option<Seq<char>>) -> (nat, Seq<Seq<char>>) {
    match description {
        Some(d) => {
            let dl = spec_to_lowercase(d);
            if contains(dl, "instance type"@) || contains(dl, "machine type"@) || contains(
                dl,
                "server size"@,
            ) || contains(dl, "ec2 instance"@) || contains(dl, "instance class"@) || contains(
                dl,
                "compute type"@,
            ) || contains(dl, "node type"@) {
                (2, seq!["description mentions instance/machine type"@])
            } else {
                (0, seq![])
            }
        },
        None => (0, seq![]),
    }
}

/// Signal 4: the lower-cased variable name suggests an instance type.
pub open spec fn it_name_signal(name: Seq<char>) -> (nat, Seq<Seq<char>>) {
    let nl = spec_to_lowercase(name);
    if contains(nl, "instance_type"@) || contains(nl, "machine_type"@) || contains(
        nl,
        "server_size"@,
    ) || contains(nl, "instance_class"@) || contains(nl, "node_type"@) {
        (1, seq!["variable name suggests instance type"@])
    } else {
        (0, seq![])
    }
}

/// The instance-type candidate: the sum of the four signals, capped at 10, or none when 0.
pub open spec fn spec_score_instance_type(
    name: Seq<char>,
    default_val: Option<Seq<char>>,
    description: Option<Seq<char>>,
    usage: Seq<Seq<char>>,
) -> Option<VarConversionModel> {
    let (s1, g1, cv) = it_default_signal(default_val);
    let (s2, g2) = it_usage_signal(usage);
    let (s3, g3) = it_desc_signal(description);
    let (s4, g4) = it_name_signal(name);
    let score = s1 + s2 + s3 + s4;
    if score == 0 {
        None
    } else {
        Some(
            VarConversionModel {
                kind: VarKind::InstanceType,
                confidence: cap10(score),
                converted_value: cv,
                original_default: default_val,
                signals: g1 + g2 + g3 + g4,
            },
        )
    }
}

fn push_signal(signals: &mut Vec<String>, s: String)
    ensures
        strs_view(final(signals)@) == strs_view(old(signals)@).push(s@),
{
    signals.push(s);
    assert(strs_view(signals@) =~= strs_view(old(signals)@).push(s@));
}

fn score_instance_type(
    name: &str,
    default_val: Option<&str>,
    description: Option<&str>,
    usage_attrs: &[String],
) -> (r: Option<VarConversion>)
    ensures
        opt_conv_view(r) == spec_score_instance_type(
            name@,
            opt_str_view(default_val),
            opt_str_view(description),
            strs_view(usage_attrs@),
        ),
{
    let ghost (s1, g1, cv1) = it_default_signal(opt_str_view(default_val));
    let ghost (s2, g2) = it_usage_signal(strs_view(usage_attrs@));
    let ghost (s3, g3) = it_desc_signal(opt_str_view(description));
    let ghost (s4, g4) = it_name_signal(name@);
    let mut score: u8 = 0;
    let mut signals: Vec<String> = Vec::new();
    let mut converted_value: Option<String> = None;
    let original_default = opt_to_owned(default_val);

    // Signal 1: default matches an EC2 instance type, or an RDS/ElastiCache class.
    if let Some(dv) = default_val {
        if let Some(plan) = aws_instance_type_to_upcloud_plan(dv) {
            score += 5;
            push_signal(&mut signals, concat3("default '", dv, "' is an AWS EC2 instance type"));
            converted_value = Some(plan.to_owned());
        } else if let Some(plan) = rds_or_cache_class_to_upcloud_plan(dv) {
            score += 5;
            push_signal(
                &mut signals,
                concat3("default '", dv, "' is an AWS RDS/ElastiCache instance class"),
            );
            converted_value = Some(plan.to_owned());
        }
    }
    assert(score == s1 && strs_view(signals@) =~= g1);

    // Signal 2: used as instance_type / instance_types / instance_class / node_type.
    if attrs_contain(usage_attrs, "instance_type") {
        score += 5;
        push_signal(
            &mut signals,
            "referenced as 'instance_type' attribute in a resource".to_owned(),
        );
    } else if attrs_contain(usage_attrs, "instance_types") {
        score += 3;
        push_signal(
            &mut signals,
            "referenced as 'instance_types' attribute in a resource".to_owned(),
        );
    } else if attrs_contain(usage_attrs, "instance_class") {
        score += 5;
        push_signal(
            &mut signals,
            "referenced as 'instance_class' attribute in a resource (RDS)".to_owned(),
        );
    } else if attrs_contain(usage_attrs, "node_type") {
        score += 5;
        push_signal(
            &mut signals,
            "referenced as 'node_type' attribute in a resource (ElastiCache)".to_owned(),
        );
    }
    assert(score == s1 + s2 && strs_view(signals@) =~= g1 + g2);

    // Signal 3: description keywords.
    if let Some(desc) = description {
        let dl_s = to_lowercase(desc);
        let dl = chars_of(dl_s.as_str());
        if contains_str(&dl, "instance type") || contains_str(&dl, "machine type")
            || contains_str(&dl, "server size") || contains_str(&dl, "ec2 instance")
            || contains_str(&dl, "instance class") || contains_str(&dl, "compute type")
            || contains_str(&dl, "node type") {
            score += 2;
            push_signal(&mut signals, "description mentions instance/machine type".to_owned());
        }
    }
    assert(score == s1 + s2 + s3 && strs_view(signals@) =~= g1 + g2 + g3);

    // Signal 4: variable name keywords.
    let nl_s = to_lowercase(name);
    let nl = chars_of(nl_s.as_str());
    if contains_str(&nl, "instance_type") || contains_str(&nl, "machine_type") || contains_str(
        &nl,
        "server_size",
    ) || contains_str(&nl, "instance_class") || contains_str(&nl, "node_type") {
        score += 1;
        push_signal(&mut signals, "variable name suggests instance type".to_owned());
    }
    assert(score == s1 + s2 + s3 + s4 && strs_view(signals@) =~= g1 + g2 + g3 + g4);

    if score == 0 {
        return None;
    }
    Some(
        VarConversion {
            kind: VarKind::InstanceType,
            confidence: if score > 10 { 10 } else { score },
            converted_value,
            original_default,
            signals,
        },
    )
}

// ───────────────────────── region scoring ─────────────────────────

/// The first usage attribute that names a region: 2 for `region`, 1 for
/// `availability_zone`/`az`, 0 when none does.
pub open spec fn first_region_attr(usage: Seq<Seq<char>>) -> nat
    decreases usage.len(),
{
    if usage.len() == 0 {
        0
    } else if usage[0] == "region"@ {
        2
    } else if usage[0] == "availability_zone"@ || usage[0] == "az"@ {
        1
    } else {
        first_region_attr(usage.drop_first())
    }
}

/// Signal 1: the default is an AWS region; gives (points, signals, converted zone).
pub open spec fn rg_default_signal(default_val: Option<Seq<char>>) -> (nat, Seq<Seq<char>>, Option<
    Seq<char>,
>) {
    match default_val {
        Some(dv) => if spec_is_aws_region(dv) {
            (5, seq!["default '"@ + dv + "' is an AWS region code"@], spec_aws_region_zone(dv))
        } else {
            (0, seq![], None)
        },
        None => (0, seq![], None),
    }
}

/// Signal 2: the first region-like usage attribute.
pub open spec fn rg_usage_signal(usage: Seq<Seq<char>>) -> (nat, Seq<Seq<char>>) {
    let k = first_region_attr(usage);
    if k == 2 {
        (5, seq!["referenced as 'region' attribute in a resource or provider"@])
    } else if k == 1 {
        (3, seq!["referenced as 'availability_zone' attribute"@])
    } else {
        (0, seq![])
    }
}

/// Signal 3: the lower-cased description mentions a region or location.
pub open spec fn rg_desc_signal(description: Option<Seq<char>>) -> (nat, Seq<Seq<char>>) {
    match description {
        Some(d) => {
            let dl = spec_to_lowercase(d);
            if contains(dl, "region"@) || contains(dl, "location"@) || contains(
                dl,
                "datacenter"@,
            ) || contains(dl, "data center"@) || contains(dl, "geography"@) || contains(
                dl,
                "area"@,
            ) {
                (2, seq!["description mentions region/location"@])
            } else {
                (0, seq![])
            }
        },
        None => (0, seq![]),
    }
}

/// Signal 4: the lower-cased variable name suggests a region or zone.
pub open spec fn rg_name_signal(name: Seq<char>) -> (nat, Seq<Seq<char>>) {
    let nl = spec_to_lowercase(name);
    if contains(nl, "region"@) || contains(nl, "location"@) || nl == "zone"@ || contains(
        nl,
        "datacenter"@,
    ) || contains(nl, "data_center"@) {
        (1, seq!["variable name suggests region/zone"@])
    } else {
        (0, seq![])
    }
}

/// The region candidate: the sum of the four signals, capped at 10, or none when 0.
pub open spec fn spec_score_region(
    name: Seq<char>,
    default_val: Option<Seq<char>>,
    description: Option<Seq<char>>,
    usage: Seq<Seq<char>>,
) -> Option<VarConversionModel> {
    let (s1, g1, cv) = rg_default_signal(default_val);
    let (s2, g2) = rg_usage_signal(usage);
    let (s3, g3) = rg_desc_signal(description);
    let (s4, g4) = rg_name_signal(name);
    let score = s1 + s2 + s3 + s4;
    if score == 0 {
        None
    } else {
        Some(
            VarConversionModel {
                kind: VarKind::Region,
                confidence: cap10(score),
                converted_value: cv,
                original_default: default_val,
                signals: g1 + g2 + g3 + g4,
            },
        )
    }
}

fn region_attr_kind(usage_attrs: &[String]) -> (r: u8)
    ensures
        r as nat == first_region_attr(strs_view(usage_attrs@)),
{
    let mut i: usize = 0;
    assert(strs_view(usage_attrs@).skip(0) =~= strs_view(usage_attrs@));
    while i < usage_attrs.len()
        invariant
            i <= usage_attrs@.len(),
            first_region_attr(strs_view(usage_attrs@)) == first_region_attr(
                strs_view(usage_attrs@).skip(i as int),
            ),
        decreases usage_attrs@.len() - i,
    {
        let a = chars_of(usage_attrs[i].as_str());
        assert(strs_view(usage_attrs@).skip(i as int)[0] == a@);
        if eq_str(&a, "region") {
            return 2;
        }
        if eq_str(&a, "availability_zone") || eq_str(&a, "az") {
            return 1;
        }
        assert(strs_view(usage_attrs@).skip(i as int).drop_first() =~= strs_view(usage_attrs@).skip(
            i + 1,
        ));
        i += 1;
    }
    0
}

fn score_region(
    name: &str,
    default_val: Option<&str>,
    description: Option<&str>,
    usage_attrs: &[String],
) -> (r: Option<VarConversion>)
    ensures
        opt_conv_view(r) == spec_score_region(
            name@,
            opt_str_view(default_val),
            opt_str_view(description),
            strs_view(usage_attrs@),
        ),
{
    let ghost (s1, g1, cv1) = rg_default_signal(opt_str_view(default_val));
    let ghost (s2, g2) = rg_usage_signal(strs_view(usage_attrs@));
    let ghost (s3, g3) = rg_desc_signal(opt_str_view(description));
    let ghost (s4, g4) = rg_name_signal(name@);
    let mut score: u8 = 0;
    let mut signals: Vec<String> = Vec::new();
    let mut converted_value: Option<String> = None;
    let original_default = opt_to_owned(default_val);

    // Signal 1: default matches an AWS region.
    if let Some(dv) = default_val {
        if is_aws_region(dv) {
            score += 5;
            push_signal(&mut signals, concat3("default '", dv, "' is an AWS region code"));
            converted_value = match aws_region_to_upcloud_zone(dv) {
                Some(z) => Some(z.to_owned()),
                None => None,
            };
        }
    }
    assert(score == s1 && strs_view(signals@) =~= g1);

    // Signal 2: used as a region-related attribute.
    let k = region_attr_kind(usage_attrs);
    if k == 2 {
        score += 5;
        push_signal(
            &mut signals,
            "referenced as 'region' attribute in a resource or provider".to_owned(),
        );
    } else if k == 1 {
        score += 3;
        push_signal(&mut signals, "referenced as 'availability_zone' attribute".to_owned());
    }
    assert(score == s1 + s2 && strs_view(signals@) =~= g1 + g2);

    // Signal 3: description keywords.
    if let Some(desc) = description {
        let dl_s = to_lowercase(desc);
        let dl = chars_of(dl_s.as_str());
        if contains_str(&dl, "region") || contains_str(&dl, "location") || contains_str(
            &dl,
            "datacenter",
        ) || contains_str(&dl, "data center") || contains_str(&dl, "geography") || contains_str(
            &dl,
            "area",
        ) {
            score += 2;
            push_signal(&mut signals, "description mentions region/location".to_owned());
        }
    }
    assert(score == s1 + s2 + s3 && strs_view(signals@) =~= g1 + g2 + g3);

    // Signal 4: variable name keywords.
    let nl_s = to_lowercase(name);
    let nl = chars_of(nl_s.as_str());
    if contains_str(&nl, "region") || contains_str(&nl, "location") || eq_str(&nl, "zone")
        || contains_str(&nl, "datacenter") || contains_str(&nl, "data_center") {
        score += 1;
        push_signal(&mut signals, "variable name suggests region/zone".to_owned());
    }
    assert(score == s1 + s2 + s3 + s4 && strs_view(signals@) =~= g1 + g2 + g3 + g4);

    if score == 0 {
        return None;
    }
    Some(
        VarConversion {
            kind: VarKind::Region,
            confidence: if score > 10 { 10 } else { score },
            converted_value,
            original_default,
            signals,
        },
    )
}

/// Recognises EC2/RDS/ElastiCache types and AWS regions.
pub struct AwsVarDetector;

impl VarDetector for AwsVarDetector {
    open spec fn spec_detect(
        &self,
        name: Seq<char>,
        default_val: Option<Seq<char>>,
        description: Option<Seq<char>>,
        usage_attrs: Seq<Seq<char>>,
    ) -> Seq<VarConversionModel> {
        some_views(
            spec_score_instance_type(name, default_val, description, usage_attrs),
            spec_score_region(name, default_val, description, usage_attrs),
        )
    }

    fn detect(
        &self,
        name: &str,
        default_val: Option<&str>,
        description: Option<&str>,
        usage_attrs: &[String],
    ) -> (r: Vec<VarConversion>) {
        let a = score_instance_type(name, default_val, description, usage_attrs);
        let b = score_region(name, default_val, description, usage_attrs);
        collect_candidates(a, b)
    }
}

/// The AWS regions with an UpCloud zone, and their zones: North American regions go to
/// `us-nyc1` (east, Canada, South America) or `us-chi1` (west), European ones to the
/// European zones, Asia-Pacific and Middle East ones to `sg-sin1`; no other region has one.
pub proof fn aws_region_zone_table(region: Seq<char>)
    ensures
        spec_aws_region_zone("us-east-1"@) == Some("us-nyc1"@),
        spec_aws_region_zone("us-east-2"@) == Some("us-nyc1"@),
        spec_aws_region_zone("us-west-1"@) == Some("us-chi1"@),
        spec_aws_region_zone("us-west-2"@) == Some("us-chi1"@),
        spec_aws_region_zone("ca-central-1"@) == Some("us-nyc1"@),
        spec_aws_region_zone("ca-west-1"@) == Some("us-nyc1"@),
        spec_aws_region_zone("eu-west-1"@) == Some("de-fra1"@),
        spec_aws_region_zone("eu-west-2"@) == Some("de-fra1"@),
        spec_aws_region_zone("eu-west-3"@) == Some("de-fra1"@),
        spec_aws_region_zone("eu-central-1"@) == Some("de-fra1"@),
        spec_aws_region_zone("eu-central-2"@) == Some("de-fra1"@),
        spec_aws_region_zone("eu-north-1"@) == Some("fi-hel1"@),
        spec_aws_region_zone("eu-south-1"@) == Some("pl-waw1"@),
        spec_aws_region_zone("eu-south-2"@) == Some("pl-waw1"@),
        spec_aws_region_zone("ap-east-1"@) == Some("sg-sin1"@),
        spec_aws_region_zone("ap-southeast-1"@) == Some("sg-sin1"@),
        spec_aws_region_zone("ap-southeast-2"@) == Some("sg-sin1"@),
        spec_aws_region_zone("ap-southeast-3"@) == Some("sg-sin1"@),
        spec_aws_region_zone("ap-southeast-4"@) == Some("sg-sin1"@),
        spec_aws_region_zone("ap-northeast-1"@) == Some("sg-sin1"@),
        spec_aws_region_zone("ap-northeast-2"@) == Some("sg-sin1"@),
        spec_aws_region_zone("ap-northeast-3"@) == Some("sg-sin1"@),
        spec_aws_region_zone("ap-south-1"@) == Some("sg-sin1"@),
        spec_aws_region_zone("ap-south-2"@) == Some("sg-sin1"@),
        spec_aws_region_zone("sa-east-1"@) == Some("us-nyc1"@),
        spec_aws_region_zone("me-south-1"@) == Some("sg-sin1"@),
        spec_aws_region_zone("me-central-1"@) == Some("sg-sin1"@),
        spec_aws_region_zone("af-south-1"@) == Some("de-fra1"@),
        spec_aws_region_zone("il-central-1"@) == Some("de-fra1"@),
        spec_aws_region_zone(region) is Some ==> (region == "us-east-1"@ || region == "us-east-2"@ || region == "us-west-1"@ || region == "us-west-2"@ || region == "ca-central-1"@ || region == "ca-west-1"@ || region == "eu-west-1"@ || region == "eu-west-2"@ || region == "eu-west-3"@ || region == "eu-central-1"@ || region == "eu-central-2"@ || region == "eu-north-1"@ || region == "eu-south-1"@ || region == "eu-south-2"@ || region == "ap-east-1"@ || region == "ap-southeast-1"@ || region == "ap-southeast-2"@ || region == "ap-southeast-3"@ || region == "ap-southeast-4"@ || region == "ap-northeast-1"@ || region == "ap-northeast-2"@ || region == "ap-northeast-3"@ || region == "ap-south-1"@ || region == "ap-south-2"@ || region == "sa-east-1"@ || region == "me-south-1"@ || region == "me-central-1"@ || region == "af-south-1"@ || region == "il-central-1"@),
{
    reveal_strlit("us-east-1");
    assert("us-east-1"@[0] == 'u');
    assert("us-east-1"@[1] == 's');
    assert("us-east-1"@[2] == '-');
    assert("us-east-1"@[3] == 'e');
    assert("us-east-1"@[4] == 'a');
    assert("us-east-1"@[5] == 's');
    assert("us-east-1"@[6] == 't');
    assert("us-east-1"@[7] == '-');
    assert("us-east-1"@[8] == '1');
    reveal_strlit("us-east-2");
    assert("us-east-2"@[0] == 'u');
    assert("us-east-2"@[1] == 's');
    assert("us-east-2"@[2] == '-');
    assert("us-east-2"@[3] == 'e');
    assert("us-east-2"@[4] == 'a');
    assert("us-east-2"@[5] == 's');
    assert("us-east-2"@[6] == 't');
    assert("us-east-2"@[7] == '-');
    assert("us-east-2"@[8] == '2');
    reveal_strlit("us-west-1");
    assert("us-west-1"@[0] == 'u');
    assert("us-west-1"@[1] == 's');
    assert("us-west-1"@[2] == '-');
    assert("us-west-1"@[3] == 'w');
    assert("us-west-1"@[4] == 'e');
    assert("us-west-1"@[5] == 's');
    assert("us-west-1"@[6] == 't');
    assert("us-west-1"@[7] == '-');
    assert("us-west-1"@[8] == '1');
    reveal_strlit("us-west-2");
    assert("us-west-2"@[0] == 'u');
    assert("us-west-2"@[1] == 's');
    assert("us-west-2"@[2] == '-');
    assert("us-west-2"@[3] == 'w');
    assert("us-west-2"@[4] == 'e');
    assert("us-west-2"@[5] == 's');
    assert("us-west-2"@[6] == 't');
    assert("us-west-2"@[7] == '-');
    assert("us-west-2"@[8] == '2');
    reveal_strlit("ca-central-1");
    assert("ca-central-1"@[0] == 'c');
    assert("ca-central-1"@[1] == 'a');
    assert("ca-central-1"@[2] == '-');
    assert("ca-central-1"@[3] == 'c');
    assert("ca-central-1"@[4] == 'e');
    assert("ca-central-1"@[5] == 'n');
    assert("ca-central-1"@[6] == 't');
    assert("ca-central-1"@[7] == 'r');
    assert("ca-central-1"@[8] == 'a');
    assert("ca-central-1"@[9] == 'l');
    assert("ca-central-1"@[10] == '-');
    assert("ca-central-1"@[11] == '1');
    reveal_strlit("ca-west-1");
    assert("ca-west-1"@[0] == 'c');
    assert("ca-west-1"@[1] == 'a');
    assert("ca-west-1"@[2] == '-');
    assert("ca-west-1"@[3] == 'w');
    assert("ca-west-1"@[4] == 'e');
    assert("ca-west-1"@[5] == 's');
    assert("ca-west-1"@[6] == 't');
    assert("ca-west-1"@[7] == '-');
    assert("ca-west-1"@[8] == '1');
    reveal_strlit("eu-west-1");
    assert("eu-west-1"@[0] == 'e');
    assert("eu-west-1"@[1] == 'u');
    assert("eu-west-1"@[2] == '-');
    assert("eu-west-1"@[3] == 'w');
    assert("eu-west-1"@[4] == 'e');
    assert("eu-west-1"@[5] == 's');
    assert("eu-west-1"@[6] == 't');
    assert("eu-west-1"@[7] == '-');
    assert("eu-west-1"@[8] == '1');
    reveal_strlit("eu-west-2");
    assert("eu-west-2"@[0] == 'e');
    assert("eu-west-2"@[1] == 'u');
    assert("eu-west-2"@[2] == '-');
    assert("eu-west-2"@[3] == 'w');
    assert("eu-west-2"@[4] == 'e');
    assert("eu-west-2"@[5] == 's');
    assert("eu-west-2"@[6] == 't');
    assert("eu-west-2"@[7] == '-');
    assert("eu-west-2"@[8] == '2');
    reveal_strlit("eu-west-3");
    assert("eu-west-3"@[0] == 'e');
    assert("eu-west-3"@[1] == 'u');
    assert("eu-west-3"@[2] == '-');
    assert("eu-west-3"@[3] == 'w');
    assert("eu-west-3"@[4] == 'e');
    assert("eu-west-3"@[5] == 's');
    assert("eu-west-3"@[6] == 't');
    assert("eu-west-3"@[7] == '-');
    assert("eu-west-3"@[8] == '3');
    reveal_strlit("eu-central-1");
    assert("eu-central-1"@[0] == 'e');
    assert("eu-central-1"@[1] == 'u');
    assert("eu-central-1"@[2] == '-');
    assert("eu-central-1"@[3] == 'c');
    assert("eu-central-1"@[4] == 'e');
    assert("eu-central-1"@[5] == 'n');
    assert("eu-central-1"@[6] == 't');
    assert("eu-central-1"@[7] == 'r');
    assert("eu-central-1"@[8] == 'a');
    assert("eu-central-1"@[9] == 'l');
    assert("eu-central-1"@[10] == '-');
    assert("eu-central-1"@[11] == '1');
    reveal_strlit("eu-central-2");
    assert("eu-central-2"@[0] == 'e');
    assert("eu-central-2"@[1] == 'u');
    assert("eu-central-2"@[2] == '-');
    assert("eu-central-2"@[3] == 'c');
    assert("eu-central-2"@[4] == 'e');
    assert("eu-central-2"@[5] == 'n');
    assert("eu-central-2"@[6] == 't');
    assert("eu-central-2"@[7] == 'r');
    assert("eu-central-2"@[8] == 'a');
    assert("eu-central-2"@[9] == 'l');
    assert("eu-central-2"@[10] == '-');
    assert("eu-central-2"@[11] == '2');
    reveal_strlit("eu-north-1");
    assert("eu-north-1"@[0] == 'e');
    assert("eu-north-1"@[1] == 'u');
    assert("eu-north-1"@[2] == '-');
    assert("eu-north-1"@[3] == 'n');
    assert("eu-north-1"@[4] == 'o');
    assert("eu-north-1"@[5] == 'r');
    assert("eu-north-1"@[6] == 't');
    assert("eu-north-1"@[7] == 'h');
    assert("eu-north-1"@[8] == '-');
    assert("eu-north-1"@[9] == '1');
    reveal_strlit("eu-south-1");
    assert("eu-south-1"@[0] == 'e');
    assert("eu-south-1"@[1] == 'u');
    assert("eu-south-1"@[2] == '-');
    assert("eu-south-1"@[3] == 's');
    assert("eu-south-1"@[4] == 'o');
    assert("eu-south-1"@[5] == 'u');
    assert("eu-south-1"@[6] == 't');
    assert("eu-south-1"@[7] == 'h');
    assert("eu-south-1"@[8] == '-');
    assert("eu-south-1"@[9] == '1');
    reveal_strlit("eu-south-2");
    assert("eu-south-2"@[0] == 'e');
    assert("eu-south-2"@[1] == 'u');
    assert("eu-south-2"@[2] == '-');
    assert("eu-south-2"@[3] == 's');
    assert("eu-south-2"@[4] == 'o');
    assert("eu-south-2"@[5] == 'u');
    assert("eu-south-2"@[6] == 't');
    assert("eu-south-2"@[7] == 'h');
    assert("eu-south-2"@[8] == '-');
    assert("eu-south-2"@[9] == '2');
    reveal_strlit("ap-east-1");
    assert("ap-east-1"@[0] == 'a');
    assert("ap-east-1"@[1] == 'p');
    assert("ap-east-1"@[2] == '-');
    assert("ap-east-1"@[3] == 'e');
    assert("ap-east-1"@[4] == 'a');
    assert("ap-east-1"@[5] == 's');
    assert("ap-east-1"@[6] == 't');
    assert("ap-east-1"@[7] == '-');
    assert("ap-east-1"@[8] == '1');
    reveal_strlit("ap-southeast-1");
    assert("ap-southeast-1"@[0] == 'a');
    assert("ap-southeast-1"@[1] == 'p');
    assert("ap-southeast-1"@[2] == '-');
    assert("ap-southeast-1"@[3] == 's');
    assert("ap-southeast-1"@[4] == 'o');
    assert("ap-southeast-1"@[5] == 'u');
    assert("ap-southeast-1"@[6] == 't');
    assert("ap-southeast-1"@[7] == 'h');
    assert("ap-southeast-1"@[8] == 'e');
    assert("ap-southeast-1"@[9] == 'a');
    assert("ap-southeast-1"@[10] == 's');
    assert("ap-southeast-1"@[11] == 't');
    assert("ap-southeast-1"@[12] == '-');
    assert("ap-southeast-1"@[13] == '1');
    reveal_strlit("ap-southeast-2");
    assert("ap-southeast-2"@[0] == 'a');
    assert("ap-southeast-2"@[1] == 'p');
    assert("ap-southeast-2"@[2] == '-');
    assert("ap-southeast-2"@[3] == 's');
    assert("ap-southeast-2"@[4] == 'o');
    assert("ap-southeast-2"@[5] == 'u');
    assert("ap-southeast-2"@[6] == 't');
    assert("ap-southeast-2"@[7] == 'h');
    assert("ap-southeast-2"@[8] == 'e');
    assert("ap-southeast-2"@[9] == 'a');
    assert("ap-southeast-2"@[10] == 's');
    assert("ap-southeast-2"@[11] == 't');
    assert("ap-southeast-2"@[12] == '-');
    assert("ap-southeast-2"@[13] == '2');
    reveal_strlit("ap-southeast-3");
    assert("ap-southeast-3"@[0] == 'a');
    assert("ap-southeast-3"@[1] == 'p');
    assert("ap-southeast-3"@[2] == '-');
    assert("ap-southeast-3"@[3] == 's');
    assert("ap-southeast-3"@[4] == 'o');
    assert("ap-southeast-3"@[5] == 'u');
    assert("ap-southeast-3"@[6] == 't');
    assert("ap-southeast-3"@[7] == 'h');
    assert("ap-southeast-3"@[8] == 'e');
    assert("ap-southeast-3"@[9] == 'a');
    assert("ap-southeast-3"@[10] == 's');
    assert("ap-southeast-3"@[11] == 't');
    assert("ap-southeast-3"@[12] == '-');
    assert("ap-southeast-3"@[13] == '3');
    reveal_strlit("ap-southeast-4");
    assert("ap-southeast-4"@[0] == 'a');
    assert("ap-southeast-4"@[1] == 'p');
    assert("ap-southeast-4"@[2] == '-');
    assert("ap-southeast-4"@[3] == 's');
    assert("ap-southeast-4"@[4] == 'o');
    assert("ap-southeast-4"@[5] == 'u');
    assert("ap-southeast-4"@[6] == 't');
    assert("ap-southeast-4"@[7] == 'h');
    assert("ap-southeast-4"@[8] == 'e');
    assert("ap-southeast-4"@[9] == 'a');
    assert("ap-southeast-4"@[10] == 's');
    assert("ap-southeast-4"@[11] == 't');
    assert("ap-southeast-4"@[12] == '-');
    assert("ap-southeast-4"@[13] == '4');
    reveal_strlit("ap-northeast-1");
    assert("ap-northeast-1"@[0] == 'a');
    assert("ap-northeast-1"@[1] == 'p');
    assert("ap-northeast-1"@[2] == '-');
    assert("ap-northeast-1"@[3] == 'n');
    assert("ap-northeast-1"@[4] == 'o');
    assert("ap-northeast-1"@[5] == 'r');
    assert("ap-northeast-1"@[6] == 't');
    assert("ap-northeast-1"@[7] == 'h');
    assert("ap-northeast-1"@[8] == 'e');
    assert("ap-northeast-1"@[9] == 'a');
    assert("ap-northeast-1"@[10] == 's');
    assert("ap-northeast-1"@[11] == 't');
    assert("ap-northeast-1"@[12] == '-');
    assert("ap-northeast-1"@[13] == '1');
    reveal_strlit("ap-northeast-2");
    assert("ap-northeast-2"@[0] == 'a');
    assert("ap-northeast-2"@[1] == 'p');
    assert("ap-northeast-2"@[2] == '-');
    assert("ap-northeast-2"@[3] == 'n');
    assert("ap-northeast-2"@[4] == 'o');
    assert("ap-northeast-2"@[5] == 'r');
    assert("ap-northeast-2"@[6] == 't');
    assert("ap-northeast-2"@[7] == 'h');
    assert("ap-northeast-2"@[8] == 'e');
    assert("ap-northeast-2"@[9] == 'a');
    assert("ap-northeast-2"@[10] == 's');
    assert("ap-northeast-2"@[11] == 't');
    assert("ap-northeast-2"@[12] == '-');
    assert("ap-northeast-2"@[13] == '2');
    reveal_strlit("ap-northeast-3");
    assert("ap-northeast-3"@[0] == 'a');
    assert("ap-northeast-3"@[1] == 'p');
    assert("ap-northeast-3"@[2] == '-');
    assert("ap-northeast-3"@[3] == 'n');
    assert("ap-northeast-3"@[4] == 'o');
    assert("ap-northeast-3"@[5] == 'r');
    assert("ap-northeast-3"@[6] == 't');
    assert("ap-northeast-3"@[7] == 'h');
    assert("ap-northeast-3"@[8] == 'e');
    assert("ap-northeast-3"@[9] == 'a');
    assert("ap-northeast-3"@[10] == 's');
    assert("ap-northeast-3"@[11] == 't');
    assert("ap-northeast-3"@[12] == '-');
    assert("ap-northeast-3"@[13] == '3');
    reveal_strlit("ap-south-1");
    assert("ap-south-1"@[0] == 'a');
    assert("ap-south-1"@[1] == 'p');
    assert("ap-south-1"@[2] == '-');
    assert("ap-south-1"@[3] == 's');
    assert("ap-south-1"@[4] == 'o');
    assert("ap-south-1"@[5] == 'u');
    assert("ap-south-1"@[6] == 't');
    assert("ap-south-1"@[7] == 'h');
    assert("ap-south-1"@[8] == '-');
    assert("ap-south-1"@[9] == '1');
    reveal_strlit("ap-south-2");
    assert("ap-south-2"@[0] == 'a');
    assert("ap-south-2"@[1] == 'p');
    assert("ap-south-2"@[2] == '-');
    assert("ap-south-2"@[3] == 's');
    assert("ap-south-2"@[4] == 'o');
    assert("ap-south-2"@[5] == 'u');
    assert("ap-south-2"@[6] == 't');
    assert("ap-south-2"@[7] == 'h');
    assert("ap-south-2"@[8] == '-');
    assert("ap-south-2"@[9] == '2');
    reveal_strlit("sa-east-1");
    assert("sa-east-1"@[0] == 's');
    assert("sa-east-1"@[1] == 'a');
    assert("sa-east-1"@[2] == '-');
    assert("sa-east-1"@[3] == 'e');
    assert("sa-east-1"@[4] == 'a');
    assert("sa-east-1"@[5] == 's');
    assert("sa-east-1"@[6] == 't');
    assert("sa-east-1"@[7] == '-');
    assert("sa-east-1"@[8] == '1');
    reveal_strlit("me-south-1");
    assert("me-south-1"@[0] == 'm');
    assert("me-south-1"@[1] == 'e');
    assert("me-south-1"@[2] == '-');
    assert("me-south-1"@[3] == 's');
    assert("me-south-1"@[4] == 'o');
    assert("me-south-1"@[5] == 'u');
    assert("me-south-1"@[6] == 't');
    assert("me-south-1"@[7] == 'h');
    assert("me-south-1"@[8] == '-');
    assert("me-south-1"@[9] == '1');
    reveal_strlit("me-central-1");
    assert("me-central-1"@[0] == 'm');
    assert("me-central-1"@[1] == 'e');
    assert("me-central-1"@[2] == '-');
    assert("me-central-1"@[3] == 'c');
    assert("me-central-1"@[4] == 'e');
    assert("me-central-1"@[5] == 'n');
    assert("me-central-1"@[6] == 't');
    assert("me-central-1"@[7] == 'r');
    assert("me-central-1"@[8] == 'a');
    assert("me-central-1"@[9] == 'l');
    assert("me-central-1"@[10] == '-');
    assert("me-central-1"@[11] == '1');
    reveal_strlit("af-south-1");
    assert("af-south-1"@[0] == 'a');
    assert("af-south-1"@[1] == 'f');
    assert("af-south-1"@[2] == '-');
    assert("af-south-1"@[3] == 's');
    assert("af-south-1"@[4] == 'o');
    assert("af-south-1"@[5] == 'u');
    assert("af-south-1"@[6] == 't');
    assert("af-south-1"@[7] == 'h');
    assert("af-south-1"@[8] == '-');
    assert("af-south-1"@[9] == '1');
    reveal_strlit("il-central-1");
    assert("il-central-1"@[0] == 'i');
    assert("il-central-1"@[1] == 'l');
    assert("il-central-1"@[2] == '-');
    assert("il-central-1"@[3] == 'c');
    assert("il-central-1"@[4] == 'e');
    assert("il-central-1"@[5] == 'n');
    assert("il-central-1"@[6] == 't');
    assert("il-central-1"@[7] == 'r');
    assert("il-central-1"@[8] == 'a');
    assert("il-central-1"@[9] == 'l');
    assert("il-central-1"@[10] == '-');
    assert("il-central-1"@[11] == '1');
}

/// The area of an AWS region by its two-letter prefix: 1 for the Americas (`us`, `ca`,
/// `sa`), 2 for Europe and the regions it serves (`eu`, `af`, `il`), 3 for Asia-Pacific
/// and the Middle East (`ap`, `me`); 0 otherwise.
pub open spec fn aws_region_area(r: Seq<char>) -> int {
    if r.len() < 3 || r[2] != '-' {
        0
    } else if (r[0] == 'u' && r[1] == 's') || (r[0] == 'c' && r[1] == 'a') || (r[0] == 's' && r[1] == 'a') {
        1
    } else if (r[0] == 'e' && r[1] == 'u') || (r[0] == 'a' && r[1] == 'f') || (r[0] == 'i' && r[1] == 'l') {
        2
    } else if (r[0] == 'a' && r[1] == 'p') || (r[0] == 'm' && r[1] == 'e') {
        3
    } else {
        0
    }
}

/// The area of an UpCloud zone by its country prefix: 1 for the United States (`us`),
/// 2 for Europe (`de`, `fi`, `pl`, `nl`, `uk`, `es`, `se`, `dk`, `no`), 3 for Asia-Pacific
/// (`sg`, `au`, `jp`); 0 otherwise.
pub open spec fn upcloud_zone_area(z: Seq<char>) -> int {
    if z.len() < 3 || z[2] != '-' {
        0
    } else if z[0] == 'u' && z[1] == 's' {
        1
    } else if (z[0] == 'd' && z[1] == 'e') || (z[0] == 'f' && z[1] == 'i') || (z[0] == 'p' && z[1] == 'l')
        || (z[0] == 'n' && z[1] == 'l') || (z[0] == 'u' && z[1] == 'k') || (z[0] == 'e' && z[1] == 's')
        || (z[0] == 's' && z[1] == 'e') || (z[0] == 'd' && z[1] == 'k') || (z[0] == 'n' && z[1] == 'o') {
        2
    } else if (z[0] == 's' && z[1] == 'g') || (z[0] == 'a' && z[1] == 'u') || (z[0] == 'j' && z[1] == 'p') {
        3
    } else {
        0
    }
}

/// A region is given a zone in its own area: never a European zone for an American
/// region, nor an American one for an Asian region.
pub proof fn aws_region_zone_same_area(region: Seq<char>)
    ensures
        spec_aws_region_zone(region) matches Some(z) ==> aws_region_area(region) != 0 && aws_region_area(region) == upcloud_zone_area(z),
{
    aws_region_zone_table(region);
    reveal_strlit("us-east-1");
    assert("us-east-1"@[0] == 'u');
    assert("us-east-1"@[1] == 's');
    assert("us-east-1"@[2] == '-');
    assert("us-east-1"@[3] == 'e');
    assert("us-east-1"@[4] == 'a');
    assert("us-east-1"@[5] == 's');
    assert("us-east-1"@[6] == 't');
    assert("us-east-1"@[7] == '-');
    assert("us-east-1"@[8] == '1');
    reveal_strlit("us-east-2");
    assert("us-east-2"@[0] == 'u');
    assert("us-east-2"@[1] == 's');
    assert("us-east-2"@[2] == '-');
    assert("us-east-2"@[3] == 'e');
    assert("us-east-2"@[4] == 'a');
    assert("us-east-2"@[5] == 's');
    assert("us-east-2"@[6] == 't');
    assert("us-east-2"@[7] == '-');
    assert("us-east-2"@[8] == '2');
    reveal_strlit("us-west-1");
    assert("us-west-1"@[0] == 'u');
    assert("us-west-1"@[1] == 's');
    assert("us-west-1"@[2] == '-');
    assert("us-west-1"@[3] == 'w');
    assert("us-west-1"@[4] == 'e');
    assert("us-west-1"@[5] == 's');
    assert("us-west-1"@[6] == 't');
    assert("us-west-1"@[7] == '-');
    assert("us-west-1"@[8] == '1');
    reveal_strlit("us-west-2");
    assert("us-west-2"@[0] == 'u');
    assert("us-west-2"@[1] == 's');
    assert("us-west-2"@[2] == '-');
    assert("us-west-2"@[3] == 'w');
    assert("us-west-2"@[4] == 'e');
    assert("us-west-2"@[5] == 's');
    assert("us-west-2"@[6] == 't');
    assert("us-west-2"@[7] == '-');
    assert("us-west-2"@[8] == '2');
    reveal_strlit("ca-central-1");
    assert("ca-central-1"@[0] == 'c');
    assert("ca-central-1"@[1] == 'a');
    assert("ca-central-1"@[2] == '-');
    assert("ca-central-1"@[3] == 'c');
    assert("ca-central-1"@[4] == 'e');
    assert("ca-central-1"@[5] == 'n');
    assert("ca-central-1"@[6] == 't');
    assert("ca-central-1"@[7] == 'r');
    assert("ca-central-1"@[8] == 'a');
    assert("ca-central-1"@[9] == 'l');
    assert("ca-central-1"@[10] == '-');
    assert("ca-central-1"@[11] == '1');
    reveal_strlit("ca-west-1");
    assert("ca-west-1"@[0] == 'c');
    assert("ca-west-1"@[1] == 'a');
    assert("ca-west-1"@[2] == '-');
    assert("ca-west-1"@[3] == 'w');
    assert("ca-west-1"@[4] == 'e');
    assert("ca-west-1"@[5] == 's');
    assert("ca-west-1"@[6] == 't');
    assert("ca-west-1"@[7] == '-');
    assert("ca-west-1"@[8] == '1');
    reveal_strlit("eu-west-1");
    assert("eu-west-1"@[0] == 'e');
    assert("eu-west-1"@[1] == 'u');
    assert("eu-west-1"@[2] == '-');
    assert("eu-west-1"@[3] == 'w');
    assert("eu-west-1"@[4] == 'e');
    assert("eu-west-1"@[5] == 's');
    assert("eu-west-1"@[6] == 't');
    assert("eu-west-1"@[7] == '-');
    assert("eu-west-1"@[8] == '1');
    reveal_strlit("eu-west-2");
    assert("eu-west-2"@[0] == 'e');
    assert("eu-west-2"@[1] == 'u');
    assert("eu-west-2"@[2] == '-');
    assert("eu-west-2"@[3] == 'w');
    assert("eu-west-2"@[4] == 'e');
    assert("eu-west-2"@[5] == 's');
    assert("eu-west-2"@[6] == 't');
    assert("eu-west-2"@[7] == '-');
    assert("eu-west-2"@[8] == '2');
    reveal_strlit("eu-west-3");
    assert("eu-west-3"@[0] == 'e');
    assert("eu-west-3"@[1] == 'u');
    assert("eu-west-3"@[2] == '-');
    assert("eu-west-3"@[3] == 'w');
    assert("eu-west-3"@[4] == 'e');
    assert("eu-west-3"@[5] == 's');
    assert("eu-west-3"@[6] == 't');
    assert("eu-west-3"@[7] == '-');
    assert("eu-west-3"@[8] == '3');
    reveal_strlit("eu-central-1");
    assert("eu-central-1"@[0] == 'e');
    assert("eu-central-1"@[1] == 'u');
    assert("eu-central-1"@[2] == '-');
    assert("eu-central-1"@[3] == 'c');
    assert("eu-central-1"@[4] == 'e');
    assert("eu-central-1"@[5] == 'n');
    assert("eu-central-1"@[6] == 't');
    assert("eu-central-1"@[7] == 'r');
    assert("eu-central-1"@[8] == 'a');
    assert("eu-central-1"@[9] == 'l');
    assert("eu-central-1"@[10] == '-');
    assert("eu-central-1"@[11] == '1');
    reveal_strlit("eu-central-2");
    assert("eu-central-2"@[0] == 'e');
    assert("eu-central-2"@[1] == 'u');
    assert("eu-central-2"@[2] == '-');
    assert("eu-central-2"@[3] == 'c');
    assert("eu-central-2"@[4] == 'e');
    assert("eu-central-2"@[5] == 'n');
    assert("eu-central-2"@[6] == 't');
    assert("eu-central-2"@[7] == 'r');
    assert("eu-central-2"@[8] == 'a');
    assert("eu-central-2"@[9] == 'l');
    assert("eu-central-2"@[10] == '-');
    assert("eu-central-2"@[11] == '2');
    reveal_strlit("eu-north-1");
    assert("eu-north-1"@[0] == 'e');
    assert("eu-north-1"@[1] == 'u');
    assert("eu-north-1"@[2] == '-');
    assert("eu-north-1"@[3] == 'n');
    assert("eu-north-1"@[4] == 'o');
    assert("eu-north-1"@[5] == 'r');
    assert("eu-north-1"@[6] == 't');
    assert("eu-north-1"@[7] == 'h');
    assert("eu-north-1"@[8] == '-');
    assert("eu-north-1"@[9] == '1');
    reveal_strlit("eu-south-1");
    assert("eu-south-1"@[0] == 'e');
    assert("eu-south-1"@[1] == 'u');
    assert("eu-south-1"@[2] == '-');
    assert("eu-south-1"@[3] == 's');
    assert("eu-south-1"@[4] == 'o');
    assert("eu-south-1"@[5] == 'u');
    assert("eu-south-1"@[6] == 't');
    assert("eu-south-1"@[7] == 'h');
    assert("eu-south-1"@[8] == '-');
    assert("eu-south-1"@[9] == '1');
    reveal_strlit("eu-south-2");
    assert("eu-south-2"@[0] == 'e');
    assert("eu-south-2"@[1] == 'u');
    assert("eu-south-2"@[2] == '-');
    assert("eu-south-2"@[3] == 's');
    assert("eu-south-2"@[4] == 'o');
    assert("eu-south-2"@[5] == 'u');
    assert("eu-south-2"@[6] == 't');
    assert("eu-south-2"@[7] == 'h');
    assert("eu-south-2"@[8] == '-');
    assert("eu-south-2"@[9] == '2');
    reveal_strlit("ap-east-1");
    assert("ap-east-1"@[0] == 'a');
    assert("ap-east-1"@[1] == 'p');
    assert("ap-east-1"@[2] == '-');
    assert("ap-east-1"@[3] == 'e');
    assert("ap-east-1"@[4] == 'a');
    assert("ap-east-1"@[5] == 's');
    assert("ap-east-1"@[6] == 't');
    assert("ap-east-1"@[7] == '-');
    assert("ap-east-1"@[8] == '1');
    reveal_strlit("ap-southeast-1");
    assert("ap-southeast-1"@[0] == 'a');
    assert("ap-southeast-1"@[1] == 'p');
    assert("ap-southeast-1"@[2] == '-');
    assert("ap-southeast-1"@[3] == 's');
    assert("ap-southeast-1"@[4] == 'o');
    assert("ap-southeast-1"@[5] == 'u');
    assert("ap-southeast-1"@[6] == 't');
    assert("ap-southeast-1"@[7] == 'h');
    assert("ap-southeast-1"@[8] == 'e');
    assert("ap-southeast-1"@[9] == 'a');
    assert("ap-southeast-1"@[10] == 's');
    assert("ap-southeast-1"@[11] == 't');
    assert("ap-southeast-1"@[12] == '-');
    assert("ap-southeast-1"@[13] == '1');
    reveal_strlit("ap-southeast-2");
    assert("ap-southeast-2"@[0] == 'a');
    assert("ap-southeast-2"@[1] == 'p');
    assert("ap-southeast-2"@[2] == '-');
    assert("ap-southeast-2"@[3] == 's');
    assert("ap-southeast-2"@[4] == 'o');
    assert("ap-southeast-2"@[5] == 'u');
    assert("ap-southeast-2"@[6] == 't');
    assert("ap-southeast-2"@[7] == 'h');
    assert("ap-southeast-2"@[8] == 'e');
    assert("ap-southeast-2"@[9] == 'a');
    assert("ap-southeast-2"@[10] == 's');
    assert("ap-southeast-2"@[11] == 't');
    assert("ap-southeast-2"@[12] == '-');
    assert("ap-southeast-2"@[13] == '2');
    reveal_strlit("ap-southeast-3");
    assert("ap-southeast-3"@[0] == 'a');
    assert("ap-southeast-3"@[1] == 'p');
    assert("ap-southeast-3"@[2] == '-');
    assert("ap-southeast-3"@[3] == 's');
    assert("ap-southeast-3"@[4] == 'o');
    assert("ap-southeast-3"@[5] == 'u');
    assert("ap-southeast-3"@[6] == 't');
    assert("ap-southeast-3"@[7] == 'h');
    assert("ap-southeast-3"@[8] == 'e');
    assert("ap-southeast-3"@[9] == 'a');
    assert("ap-southeast-3"@[10] == 's');
    assert("ap-southeast-3"@[11] == 't');
    assert("ap-southeast-3"@[12] == '-');
    assert("ap-southeast-3"@[13] == '3');
    reveal_strlit("ap-southeast-4");
    assert("ap-southeast-4"@[0] == 'a');
    assert("ap-southeast-4"@[1] == 'p');
    assert("ap-southeast-4"@[2] == '-');
    assert("ap-southeast-4"@[3] == 's');
    assert("ap-southeast-4"@[4] == 'o');
    assert("ap-southeast-4"@[5] == 'u');
    assert("ap-southeast-4"@[6] == 't');
    assert("ap-southeast-4"@[7] == 'h');
    assert("ap-southeast-4"@[8] == 'e');
    assert("ap-southeast-4"@[9] == 'a');
    assert("ap-southeast-4"@[10] == 's');
    assert("ap-southeast-4"@[11] == 't');
    assert("ap-southeast-4"@[12] == '-');
    assert("ap-southeast-4"@[13] == '4');
    reveal_strlit("ap-northeast-1");
    assert("ap-northeast-1"@[0] == 'a');
    assert("ap-northeast-1"@[1] == 'p');
    assert("ap-northeast-1"@[2] == '-');
    assert("ap-northeast-1"@[3] == 'n');
    assert("ap-northeast-1"@[4] == 'o');
    assert("ap-northeast-1"@[5] == 'r');
    assert("ap-northeast-1"@[6] == 't');
    assert("ap-northeast-1"@[7] == 'h');
    assert("ap-northeast-1"@[8] == 'e');
    assert("ap-northeast-1"@[9] == 'a');
    assert("ap-northeast-1"@[10] == 's');
    assert("ap-northeast-1"@[11] == 't');
    assert("ap-northeast-1"@[12] == '-');
    assert("ap-northeast-1"@[13] == '1');
    reveal_strlit("ap-northeast-2");
    assert("ap-northeast-2"@[0] == 'a');
    assert("ap-northeast-2"@[1] == 'p');
    assert("ap-northeast-2"@[2] == '-');
    assert("ap-northeast-2"@[3] == 'n');
    assert("ap-northeast-2"@[4] == 'o');
    assert("ap-northeast-2"@[5] == 'r');
    assert("ap-northeast-2"@[6] == 't');
    assert("ap-northeast-2"@[7] == 'h');
    assert("ap-northeast-2"@[8] == 'e');
    assert("ap-northeast-2"@[9] == 'a');
    assert("ap-northeast-2"@[10] == 's');
    assert("ap-northeast-2"@[11] == 't');
    assert("ap-northeast-2"@[12] == '-');
    assert("ap-northeast-2"@[13] == '2');
    reveal_strlit("ap-northeast-3");
    assert("ap-northeast-3"@[0] == 'a');
    assert("ap-northeast-3"@[1] == 'p');
    assert("ap-northeast-3"@[2] == '-');
    assert("ap-northeast-3"@[3] == 'n');
    assert("ap-northeast-3"@[4] == 'o');
    assert("ap-northeast-3"@[5] == 'r');
    assert("ap-northeast-3"@[6] == 't');
    assert("ap-northeast-3"@[7] == 'h');
    assert("ap-northeast-3"@[8] == 'e');
    assert("ap-northeast-3"@[9] == 'a');
    assert("ap-northeast-3"@[10] == 's');
    assert("ap-northeast-3"@[11] == 't');
    assert("ap-northeast-3"@[12] == '-');
    assert("ap-northeast-3"@[13] == '3');
    reveal_strlit("ap-south-1");
    assert("ap-south-1"@[0] == 'a');
    assert("ap-south-1"@[1] == 'p');
    assert("ap-south-1"@[2] == '-');
    assert("ap-south-1"@[3] == 's');
    assert("ap-south-1"@[4] == 'o');
    assert("ap-south-1"@[5] == 'u');
    assert("ap-south-1"@[6] == 't');
    assert("ap-south-1"@[7] == 'h');
    assert("ap-south-1"@[8] == '-');
    assert("ap-south-1"@[9] == '1');
    reveal_strlit("ap-south-2");
    assert("ap-south-2"@[0] == 'a');
    assert("ap-south-2"@[1] == 'p');
    assert("ap-south-2"@[2] == '-');
    assert("ap-south-2"@[3] == 's');
    assert("ap-south-2"@[4] == 'o');
    assert("ap-south-2"@[5] == 'u');
    assert("ap-south-2"@[6] == 't');
    assert("ap-south-2"@[7] == 'h');
    assert("ap-south-2"@[8] == '-');
    assert("ap-south-2"@[9] == '2');
    reveal_strlit("sa-east-1");
    assert("sa-east-1"@[0] == 's');
    assert("sa-east-1"@[1] == 'a');
    assert("sa-east-1"@[2] == '-');
    assert("sa-east-1"@[3] == 'e');
    assert("sa-east-1"@[4] == 'a');
    assert("sa-east-1"@[5] == 's');
    assert("sa-east-1"@[6] == 't');
    assert("sa-east-1"@[7] == '-');
    assert("sa-east-1"@[8] == '1');
    reveal_strlit("me-south-1");
    assert("me-south-1"@[0] == 'm');
    assert("me-south-1"@[1] == 'e');
    assert("me-south-1"@[2] == '-');
    assert("me-south-1"@[3] == 's');
    assert("me-south-1"@[4] == 'o');
    assert("me-south-1"@[5] == 'u');
    assert("me-south-1"@[6] == 't');
    assert("me-south-1"@[7] == 'h');
    assert("me-south-1"@[8] == '-');
    assert("me-south-1"@[9] == '1');
    reveal_strlit("me-central-1");
    assert("me-central-1"@[0] == 'm');
    assert("me-central-1"@[1] == 'e');
    assert("me-central-1"@[2] == '-');
    assert("me-central-1"@[3] == 'c');
    assert("me-central-1"@[4] == 'e');
    assert("me-central-1"@[5] == 'n');
    assert("me-central-1"@[6] == 't');
    assert("me-central-1"@[7] == 'r');
    assert("me-central-1"@[8] == 'a');
    assert("me-central-1"@[9] == 'l');
    assert("me-central-1"@[10] == '-');
    assert("me-central-1"@[11] == '1');
    reveal_strlit("af-south-1");
    assert("af-south-1"@[0] == 'a');
    assert("af-south-1"@[1] == 'f');
    assert("af-south-1"@[2] == '-');
    assert("af-south-1"@[3] == 's');
    assert("af-south-1"@[4] == 'o');
    assert("af-south-1"@[5] == 'u');
    assert("af-south-1"@[6] == 't');
    assert("af-south-1"@[7] == 'h');
    assert("af-south-1"@[8] == '-');
    assert("af-south-1"@[9] == '1');
    reveal_strlit("il-central-1");
    assert("il-central-1"@[0] == 'i');
    assert("il-central-1"@[1] == 'l');
    assert("il-central-1"@[2] == '-');
    assert("il-central-1"@[3] == 'c');
    assert("il-central-1"@[4] == 'e');
    assert("il-central-1"@[5] == 'n');
    assert("il-central-1"@[6] == 't');
    assert("il-central-1"@[7] == 'r');
    assert("il-central-1"@[8] == 'a');
    assert("il-central-1"@[9] == 'l');
    assert("il-central-1"@[10] == '-');
    assert("il-central-1"@[11] == '1');
    reveal_strlit("de-fra1");
    assert("de-fra1"@[0] == 'd');
    assert("de-fra1"@[1] == 'e');
    assert("de-fra1"@[2] == '-');
    assert("de-fra1"@[3] == 'f');
    assert("de-fra1"@[4] == 'r');
    assert("de-fra1"@[5] == 'a');
    assert("de-fra1"@[6] == '1');
    reveal_strlit("fi-hel1");
    assert("fi-hel1"@[0] == 'f');
    assert("fi-hel1"@[1] == 'i');
    assert("fi-hel1"@[2] == '-');
    assert("fi-hel1"@[3] == 'h');
    assert("fi-hel1"@[4] == 'e');
    assert("fi-hel1"@[5] == 'l');
    assert("fi-hel1"@[6] == '1');
    reveal_strlit("pl-waw1");
    assert("pl-waw1"@[0] == 'p');
    assert("pl-waw1"@[1] == 'l');
    assert("pl-waw1"@[2] == '-');
    assert("pl-waw1"@[3] == 'w');
    assert("pl-waw1"@[4] == 'a');
    assert("pl-waw1"@[5] == 'w');
    assert("pl-waw1"@[6] == '1');
    reveal_strlit("sg-sin1");
    assert("sg-sin1"@[0] == 's');
    assert("sg-sin1"@[1] == 'g');
    assert("sg-sin1"@[2] == '-');
    assert("sg-sin1"@[3] == 's');
    assert("sg-sin1"@[4] == 'i');
    assert("sg-sin1"@[5] == 'n');
    assert("sg-sin1"@[6] == '1');
    reveal_strlit("us-chi1");
    assert("us-chi1"@[0] == 'u');
    assert("us-chi1"@[1] == 's');
    assert("us-chi1"@[2] == '-');
    assert("us-chi1"@[3] == 'c');
    assert("us-chi1"@[4] == 'h');
    assert("us-chi1"@[5] == 'i');
    assert("us-chi1"@[6] == '1');
    reveal_strlit("us-nyc1");
    assert("us-nyc1"@[0] == 'u');
    assert("us-nyc1"@[1] == 's');
    assert("us-nyc1"@[2] == '-');
    assert("us-nyc1"@[3] == 'n');
    assert("us-nyc1"@[4] == 'y');
    assert("us-nyc1"@[5] == 'c');
    assert("us-nyc1"@[6] == '1');
}

/// The zone written for a AWS provider region is the zone its region variable converts
/// to, whenever the region is one the provider block knows.
pub proof fn aws_zone_default_agrees_with_region_conversion(region: Seq<char>)
    ensures
        spec_aws_zone_default(region) != "__ZONE__"@ ==> spec_aws_region_zone(region) == Some(spec_aws_zone_default(region)),
{
    aws_zone_default_table(region);
    aws_region_zone_table(region);
    reveal_strlit("__ZONE__");
    assert("__ZONE__"@[0] == '_');
    assert("__ZONE__"@[1] == '_');
    assert("__ZONE__"@[2] == 'Z');
    assert("__ZONE__"@[3] == 'O');
    assert("__ZONE__"@[4] == 'N');
    assert("__ZONE__"@[5] == 'E');
    assert("__ZONE__"@[6] == '_');
    assert("__ZONE__"@[7] == '_');
    reveal_strlit("us-nyc1");
    assert("us-nyc1"@[0] == 'u');
    assert("us-nyc1"@[1] == 's');
    assert("us-nyc1"@[2] == '-');
    assert("us-nyc1"@[3] == 'n');
    assert("us-nyc1"@[4] == 'y');
    assert("us-nyc1"@[5] == 'c');
    assert("us-nyc1"@[6] == '1');
    reveal_strlit("us-chi1");
    assert("us-chi1"@[0] == 'u');
    assert("us-chi1"@[1] == 's');
    assert("us-chi1"@[2] == '-');
    assert("us-chi1"@[3] == 'c');
    assert("us-chi1"@[4] == 'h');
    assert("us-chi1"@[5] == 'i');
    assert("us-chi1"@[6] == '1');
    reveal_strlit("de-fra1");
    assert("de-fra1"@[0] == 'd');
    assert("de-fra1"@[1] == 'e');
    assert("de-fra1"@[2] == '-');
    assert("de-fra1"@[3] == 'f');
    assert("de-fra1"@[4] == 'r');
    assert("de-fra1"@[5] == 'a');
    assert("de-fra1"@[6] == '1');
    reveal_strlit("fi-hel1");
    assert("fi-hel1"@[0] == 'f');
    assert("fi-hel1"@[1] == 'i');
    assert("fi-hel1"@[2] == '-');
    assert("fi-hel1"@[3] == 'h');
    assert("fi-hel1"@[4] == 'e');
    assert("fi-hel1"@[5] == 'l');
    assert("fi-hel1"@[6] == '1');
    reveal_strlit("sg-sin1");
    assert("sg-sin1"@[0] == 's');
    assert("sg-sin1"@[1] == 'g');
    assert("sg-sin1"@[2] == '-');
    assert("sg-sin1"@[3] == 's');
    assert("sg-sin1"@[4] == 'i');
    assert("sg-sin1"@[5] == 'n');
    assert("sg-sin1"@[6] == '1');
    reveal_strlit("au-syd1");
    assert("au-syd1"@[0] == 'a');
    assert("au-syd1"@[1] == 'u');
    assert("au-syd1"@[2] == '-');
    assert("au-syd1"@[3] == 's');
    assert("au-syd1"@[4] == 'y');
    assert("au-syd1"@[5] == 'd');
    assert("au-syd1"@[6] == '1');
    reveal_strlit("pl-waw1");
    assert("pl-waw1"@[0] == 'p');
    assert("pl-waw1"@[1] == 'l');
    assert("pl-waw1"@[2] == '-');
    assert("pl-waw1"@[3] == 'w');
    assert("pl-waw1"@[4] == 'a');
    assert("pl-waw1"@[5] == 'w');
    assert("pl-waw1"@[6] == '1');
}

/// The size word of a `db.` or `cache.` class: what follows its last `.` after the prefix.
pub open spec fn class_size_word(class: Seq<char>) -> Seq<char> {
    after_last_dot(if starts_with(class, "db."@) { class.skip(3) } else { class.skip(6) })
}

/// The plan a detected RDS (`db.`) or ElastiCache (`cache.`) class converts to, by its
/// size word: `nano`/`micro`/`small` to the smallest plan, then `medium`, `large`,
/// `xlarge` and any larger `Nxlarge` to successively larger plans, RDS plans carrying
/// their storage; other size words and other prefixes convert to nothing.
pub proof fn rds_or_cache_plan_by_size(class: Seq<char>)
    ensures
        ({
            let w = class_size_word(class);
            let db = starts_with(class, "db."@);
            let cache = starts_with(class, "cache."@);
            &&& !db && !cache ==> spec_rds_or_cache_plan(class) is None
            &&& db && (w == "nano"@ || w == "micro"@ || w == "small"@) ==> spec_rds_or_cache_plan(class) == Some("1x1xCPU-2GB-25GB"@)
            &&& cache && (w == "nano"@ || w == "micro"@ || w == "small"@) ==> spec_rds_or_cache_plan(class) == Some("1x1xCPU-2GB"@)
            &&& db && w == "medium"@ ==> spec_rds_or_cache_plan(class) == Some("1x2xCPU-4GB-50GB"@)
            &&& cache && w == "medium"@ ==> spec_rds_or_cache_plan(class) == Some("1x2xCPU-4GB"@)
            &&& db && w == "large"@ ==> spec_rds_or_cache_plan(class) == Some("2x4xCPU-8GB-100GB"@)
            &&& cache && w == "large"@ ==> spec_rds_or_cache_plan(class) == Some("1x2xCPU-8GB"@)
            &&& db && w == "xlarge"@ ==> spec_rds_or_cache_plan(class) == Some("2x6xCPU-16GB-100GB"@)
            &&& cache && w == "xlarge"@ ==> spec_rds_or_cache_plan(class) == Some("1x4xCPU-28GB"@)
            &&& db && ends_with(w, "xlarge"@) && w != "xlarge"@ ==> spec_rds_or_cache_plan(class) == Some("2x8xCPU-32GB-100GB"@)
            &&& cache && ends_with(w, "xlarge"@) && w != "xlarge"@ ==> spec_rds_or_cache_plan(class) == Some("1x8xCPU-56GB"@)
            &&& (db || cache) && !(w == "nano"@ || w == "micro"@ || w == "small"@ || w == "medium"@ || w == "large"@ || ends_with(w, "xlarge"@)) ==> spec_rds_or_cache_plan(class) is None
        }),
{
    reveal_strlit("db.");
    assert("db."@[0] == 'd');
    assert("db."@[1] == 'b');
    assert("db."@[2] == '.');
    reveal_strlit("cache.");
    assert("cache."@[0] == 'c');
    assert("cache."@[1] == 'a');
    assert("cache."@[2] == 'c');
    assert("cache."@[3] == 'h');
    assert("cache."@[4] == 'e');
    assert("cache."@[5] == '.');
    reveal_strlit("nano");
    assert("nano"@[0] == 'n');
    assert("nano"@[1] == 'a');
    assert("nano"@[2] == 'n');
    assert("nano"@[3] == 'o');
    reveal_strlit("micro");
    assert("micro"@[0] == 'm');
    assert("micro"@[1] == 'i');
    assert("micro"@[2] == 'c');
    assert("micro"@[3] == 'r');
    assert("micro"@[4] == 'o');
    reveal_strlit("small");
    assert("small"@[0] == 's');
    assert("small"@[1] == 'm');
    assert("small"@[2] == 'a');
    assert("small"@[3] == 'l');
    assert("small"@[4] == 'l');
    reveal_strlit("medium");
    assert("medium"@[0] == 'm');
    assert("medium"@[1] == 'e');
    assert("medium"@[2] == 'd');
    assert("medium"@[3] == 'i');
    assert("medium"@[4] == 'u');
    assert("medium"@[5] == 'm');
    reveal_strlit("large");
    assert("large"@[0] == 'l');
    assert("large"@[1] == 'a');
    assert("large"@[2] == 'r');
    assert("large"@[3] == 'g');
    assert("large"@[4] == 'e');
    reveal_strlit("xlarge");
    assert("xlarge"@[0] == 'x');
    assert("xlarge"@[1] == 'l');
    assert("xlarge"@[2] == 'a');
    assert("xlarge"@[3] == 'r');
    assert("xlarge"@[4] == 'g');
    assert("xlarge"@[5] == 'e');
    if starts_with(class, "db."@) && starts_with(class, "cache."@) {
        assert(class.subrange(0, 3)[0] == class[0]);
        assert(class.subrange(0, 6)[0] == class[0]);
    }
    assert("xlarge"@.subrange(0, 6) =~= "xlarge"@);
    assert(ends_with("xlarge"@, "xlarge"@));
}

/// A value is recognised as an AWS region exactly when it converts to an UpCloud zone.
pub proof fn aws_regions_recognised_are_those_with_a_zone(region: Seq<char>)
    ensures
        spec_is_aws_region(region) <==> spec_aws_region_zone(region) is Some,
{
}

} // verus!
