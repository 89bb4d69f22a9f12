//! AWS storage resources: EBS volumes and attachments, S3, EFS.
use vstd::prelude::*;

use crate::migration::providers::aws::generator_support::{attr_key, attr_key_exec};
use crate::migration::providers::shared::{
    spec_storage_devices_snippet, spec_upcloud_object_storage_hcl, spec_upcloud_storage_hcl,
    storage_devices_snippet, upcloud_object_storage_hcl, upcloud_storage_hcl,
};
use crate::migration::types::{
    cat3, cat5, new_result, note, opt_view, push_note, result_model, MigrationResult,
    MigrationStatus, ResultModel,
};
use crate::terraform::types::TerraformResource;
use crate::text::{
    chars_of, dec, eq_str, opt_vec_view, parse_u32, parse_u32_v, push_str, push_u64,
    replace_char, replace_char_v, slice_of, starts_with, starts_with_exec, string_of, trim_char,
    trim_char_v,
};

verus! {

/// The resource name in a reference `PREFIX NAME[...]...` (quotes trimmed), if non-empty.
pub open spec fn ref_base(v: Seq<char>, prefix: Seq<char>) -> Option<Seq<char>> {
    let t = trim_char(v, '"');
    if !starts_with(t, prefix) {
        None
    } else {
        let b = attr_key(t.skip(prefix.len() as int));
        if b.len() == 0 {
            None
        } else {
            Some(b)
        }
    }
}

pub fn ref_base_exec(v: &Vec<char>, prefix: &str) -> (r: Option<String>)
    ensures
        opt_view(r) == ref_base(v@, prefix@),
{
    let t = trim_char_v(v, '"');
    if !starts_with_exec(&t, prefix) {
        return None;
    }
    let pl = chars_of(prefix).len();
    let n = t.len();
    let rest = slice_of(&t, pl, n);
    assert(rest@ =~= t@.skip(prefix@.len() as int));
    let b = attr_key_exec(&rest);
    if b.len() == 0 {
        None
    } else {
        Some(string_of(&b))
    }
}

pub open spec fn opt_ref_base(a: Option<Seq<char>>, prefix: Seq<char>) -> Option<Seq<char>> {
    match a {
        Some(v) => ref_base(v, prefix),
        None => None,
    }
}

pub open spec fn or_default(o: Option<Seq<char>>, d: Seq<char>) -> Seq<char> {
    match o {
        Some(x) => x,
        None => d,
    }
}

pub open spec fn spec_map_volume_attachment(res: TerraformResource) -> ResultModel {
    let volume = opt_ref_base(res.attr("volume_id"@), "aws_ebs_volume."@);
    let instance = opt_ref_base(res.attr("instance_id"@), "aws_instance."@);
    let storage_ref = or_default(volume, "<TODO: storage>"@);
    let server_ref = or_default(instance, "<TODO: server>"@);
    result_model(
        res,
        MigrationStatus::Partial,
        "storage_devices block in upcloud_server"@,
        None,
        Some(spec_storage_devices_snippet(server_ref, storage_ref)),
        instance,
        seq![
            "EBS volume attachments → add a storage_devices block inside the upcloud_server resource."@,
            "Add the snippet to upcloud_server."@ + server_ref + " to attach upcloud_storage."@ + storage_ref + "."@,
        ],
    )
}

fn opt_ref_base_exec(res: &TerraformResource, key: &str, prefix: &str) -> (r: Option<String>)
    ensures
        opt_view(r) == opt_ref_base(res.attr(key@), prefix@),
{
    match res.get_attr(key) {
        Some(v) => ref_base_exec(&v, prefix),
        None => None,
    }
}

fn or_default_exec(o: &Option<String>, d: &str) -> (r: String)
    ensures
        r@ == or_default(opt_view(*o), d@),
{
    match o {
        Some(x) => x.clone(),
        None => String::from_str(d),
    }
}

/// `aws_volume_attachment` → a `storage_devices` block inside the `upcloud_server`.
/// There is no standalone UpCloud resource for a volume attachment; index expressions
/// (e.g. `web_data[count.index]` → `web_data`) are stripped from the references.
pub fn map_volume_attachment(res: &TerraformResource) -> (r: MigrationResult)
    ensures
        r@ == spec_map_volume_attachment(*res),
{
    let volume = opt_ref_base_exec(res, "volume_id", "aws_ebs_volume.");
    let instance = opt_ref_base_exec(res, "instance_id", "aws_instance.");
    let storage_ref = or_default_exec(&volume, "<TODO: storage>");
    let server_ref = or_default_exec(&instance, "<TODO: server>");
    let snippet = storage_devices_snippet(server_ref.as_str(), storage_ref.as_str());
    let mut notes = note("EBS volume attachments → add a storage_devices block inside the upcloud_server resource.");
    push_note(&mut notes, cat5("Add the snippet to upcloud_server.", server_ref.as_str(), " to attach upcloud_storage.", storage_ref.as_str(), "."));
    new_result(res, MigrationStatus::Partial, "storage_devices block in upcloud_server", None, Some(snippet), instance, notes)
}

/// The EBS size: the `size` attribute when it parses as a `u32`, else 20.
pub open spec fn ebs_size(res: TerraformResource) -> u32 {
    match res.attr_trim("size"@) {
        Some(s) => match parse_u32(s) {
            Some(n) => n,
            None => 20,
        },
        None => 20,
    }
}

/// The UpCloud storage tier of an EBS volume type: `hdd` for `st1`/`sc1`, else `maxiops`.
pub open spec fn ebs_tier(t: Seq<char>) -> Seq<char> {
    if t == "st1"@ || t == "sc1"@ {
        "hdd"@
    } else {
        "maxiops"@
    }
}

pub open spec fn spec_map_ebs_volume(res: TerraformResource) -> ResultModel {
    let tier = res.attr_trim_or("type"@, "gp2"@);
    let up = ebs_tier(tier);
    let count = res.attr_trim("count"@);
    let count_line = match count {
        Some(n) => "  count = "@ + n + "\n"@,
        None => seq![],
    };
    let title = match count {
        Some(_) => res.name@ + "-${count.index + 1}"@,
        None => res.name@,
    };
    let hcl = spec_upcloud_storage_hcl(res.name@, title, ebs_size(res), up, count_line);
    let note0 = "EBS type '"@ + tier + "' → UpCloud tier '"@ + up + "'"@;
    let notes = match count {
        Some(n) => seq![note0, "count = "@ + n + " propagated."@],
        None => seq![note0],
    };
    result_model(res, MigrationStatus::Native, "upcloud_storage"@, Some(hcl), None, None, notes)
}

/// `aws_ebs_volume` → `upcloud_storage`; a `count` on the volume is carried over and
/// makes the title unique per instance.
pub fn map_ebs_volume(res: &TerraformResource) -> (r: MigrationResult)
    ensures
        r@ == spec_map_ebs_volume(*res),
{
    let size = match res.get_trimmed("size") {
        Some(s) => match parse_u32_v(&s) {
            Some(n) => n,
            None => 20,
        },
        None => 20,
    };
    let tier = res.trimmed_or("type", "gp2");
    let up: &str = if eq_str(&tier, "st1") || eq_str(&tier, "sc1") {
        "hdd"
    } else {
        "maxiops"
    };
    let count = res.get_trimmed("count");
    let count_line = match &count {
        Some(n) => cat3("  count = ", string_of(n).as_str(), "\n"),
        None => String::new(),
    };
    let title = match &count {
        Some(_) => {
            let mut t = res.name.clone();
            push_str(&mut t, "-${count.index + 1}");
            t
        },
        None => res.name.clone(),
    };
    let hcl = upcloud_storage_hcl(res.name.as_str(), title.as_str(), size, up, count_line.as_str());
    let ts = string_of(&tier);
    let mut notes = note(cat5("EBS type '", ts.as_str(), "' → UpCloud tier '", up, "'").as_str());
    match &count {
        Some(n) => push_note(&mut notes, cat3("count = ", string_of(n).as_str(), " propagated.")),
        None => {},
    }
    new_result(res, MigrationStatus::Native, "upcloud_storage", Some(hcl), None, None, notes)
}

pub open spec fn spec_map_s3_bucket(res: TerraformResource) -> ResultModel {
    let bucket = match res.attr_trim("bucket"@) {
        Some(b) => b,
        None => replace_char(res.name@, '_', "-"@),
    };
    result_model(
        res,
        MigrationStatus::Native,
        "upcloud_managed_object_storage + _bucket"@,
        Some(spec_upcloud_object_storage_hcl(res.name@, bucket)),
        None,
        None,
        seq!["S3 → UpCloud Managed Object Storage (S3-compatible)"@],
    )
}

/// `aws_s3_bucket` → a managed object storage service with one bucket; without a
/// `bucket` attribute the bucket is named after the resource with `_` as `-`.
pub fn map_s3_bucket(res: &TerraformResource) -> (r: MigrationResult)
    ensures
        r@ == spec_map_s3_bucket(*res),
{
    let bucket = match res.get_trimmed("bucket") {
        Some(b) => string_of(&b),
        None => string_of(&replace_char_v(&chars_of(res.name.as_str()), '_', "-")),
    };
    let hcl = upcloud_object_storage_hcl(res.name.as_str(), bucket.as_str());
    new_result(
        res,
        MigrationStatus::Native,
        "upcloud_managed_object_storage + _bucket",
        Some(hcl),
        None,
        None,
        note("S3 → UpCloud Managed Object Storage (S3-compatible)"),
    )
}

pub open spec fn spec_map_s3_bucket_policy(res: TerraformResource) -> ResultModel {
    result_model(
        res,
        MigrationStatus::Partial,
        "upcloud_managed_object_storage_user_access_key"@,
        None,
        None,
        None,
        seq!["S3 bucket policies → UpCloud uses access keys and policies via the UI/API"@],
    )
}

/// `aws_s3_bucket_policy`: access keys and policies are managed outside Terraform.
pub fn map_s3_bucket_policy(res: &TerraformResource) -> (r: MigrationResult)
    ensures
        r@ == spec_map_s3_bucket_policy(*res),
{
    new_result(
        res,
        MigrationStatus::Partial,
        "upcloud_managed_object_storage_user_access_key",
        None,
        None,
        None,
        note("S3 bucket policies → UpCloud uses access keys and policies via the UI/API"),
    )
}

pub open spec fn efs_hcl(name: Seq<char>) -> Seq<char> {
    "resource \"upcloud_file_storage\" \""@ + name + "\" {\n  name              = \""@ + name
        + "\"\n  size              = 250  # minimum 250 GiB; set appropriate size\n  zone              = \"__ZONE__\"  # NOTE: File Storage is not available in all zones (e.g. fi-hel1); use fi-hel2 if your zone is unsupported\n  configured_status = \"started\"\n}\n"@
}

pub open spec fn spec_map_efs_file_system(res: TerraformResource) -> ResultModel {
    result_model(
        res,
        MigrationStatus::Compatible,
        "upcloud_file_storage"@,
        Some(efs_hcl(res.name@)),
        None,
        None,
        seq!["EFS → UpCloud File Storage (NFS-based). Manual mount target config needed."@],
    )
}

/// `aws_efs_file_system` → `upcloud_file_storage`.
pub fn map_efs_file_system(res: &TerraformResource) -> (r: MigrationResult)
    ensures
        r@ == spec_map_efs_file_system(*res),
{
    let hcl = cat5(
        "resource \"upcloud_file_storage\" \"",
        res.name.as_str(),
        "\" {\n  name              = \"",
        res.name.as_str(),
        "\"\n  size              = 250  # minimum 250 GiB; set appropriate size\n  zone              = \"__ZONE__\"  # NOTE: File Storage is not available in all zones (e.g. fi-hel1); use fi-hel2 if your zone is unsupported\n  configured_status = \"started\"\n}\n",
    );
    new_result(
        res,
        MigrationStatus::Compatible,
        "upcloud_file_storage",
        Some(hcl),
        None,
        None,
        note("EFS → UpCloud File Storage (NFS-based). Manual mount target config needed."),
    )
}

} // verus!
