//! Azure storage: managed disks and attachments, storage accounts, containers, shares.
use vstd::prelude::*;

use crate::migration::providers::aws::network::{attr_seg, seg_after};
use crate::migration::providers::aws::storage::{or_default, ref_base, ref_base_exec};
use crate::migration::providers::shared::{
    spec_storage_devices_snippet, spec_upcloud_object_storage_hcl, spec_upcloud_storage_hcl,
    storage_devices_snippet, upcloud_object_storage_hcl, upcloud_storage_hcl,
};
use crate::migration::types::{
    cat3, cat5, new_result, note, opt_view, push_note, result_model, MigrationResult,
    MigrationStatus, ResultModel,
};
use crate::terraform::types::{attr_u32_or, attr_u32_or_exec, num_string, TerraformResource};
use crate::text::{
    before_char_v, chars_of, dec, eq_str, push_str, replace_char, replace_char_v, slice_of,
    starts_with_exec, string_of, trim_char_v,
};

verus! {

/// The UpCloud tier of an Azure disk storage type: `hdd` for `Standard_LRS`, else `maxiops`.
pub open spec fn disk_tier(t: Seq<char>) -> Seq<char> {
    if t == "Standard_LRS"@ {
        "hdd"@
    } else {
        "maxiops"@
    }
}

/// The VM a data disk attachment names, trying the Linux, Windows and legacy VM types.
pub open spec fn attached_vm(v: Seq<char>) -> Option<Seq<char>> {
    match ref_base(v, "azurerm_linux_virtual_machine."@) {
        Some(n) => Some(n),
        None => match ref_base(v, "azurerm_windows_virtual_machine."@) {
            Some(n) => Some(n),
            None => ref_base(v, "azurerm_virtual_machine."@),
        },
    }
}

fn attached_vm_exec(v: &Vec<char>) -> (r: Option<String>)
    ensures
        opt_view(r) == attached_vm(v@),
{
    match ref_base_exec(v, "azurerm_linux_virtual_machine.") {
        Some(n) => Some(n),
        None => match ref_base_exec(v, "azurerm_windows_virtual_machine.") {
            Some(n) => Some(n),
            None => ref_base_exec(v, "azurerm_virtual_machine."),
        },
    }
}

fn seg_after_exec(v: &Vec<char>, prefix: &str) -> (r: Option<String>)
    ensures
        opt_view(r) == seg_after(v@, prefix@),
{
    let t = trim_char_v(v, '"');
    if starts_with_exec(&t, prefix) {
        let pl = chars_of(prefix).len();
        let n = t.len();
        let rest = slice_of(&t, pl, n);
        assert(rest@ =~= t@.skip(prefix@.len() as int));
        Some(string_of(&before_char_v(&rest, '.')))
    } else {
        None
    }
}

fn or_default_str(o: &Option<String>, d: &str) -> (r: String)
    ensures
        r@ == or_default(opt_view(*o), d@),
{
    match o {
        Some(x) => x.clone(),
        None => String::from_str(d),
    }
}

pub open spec fn spec_map_managed_disk(res: TerraformResource) -> ResultModel {
    let size = attr_u32_or(res, "disk_size_gb"@, 20);
    let stype = res.attr_trim_or("storage_account_type"@, "Premium_LRS"@);
    let tier = disk_tier(stype);
    let body = spec_upcloud_storage_hcl(res.name@, res.name@, size, tier, ""@);
    let notes0 = Seq::<Seq<char>>::empty();
    let notes1 = notes0.push("Managed Disk ("@ + stype + ") → UpCloud tier '"@ + tier + "'"@);
    result_model(res, MigrationStatus::Native, "upcloud_storage"@, Some(body), None, None, notes1)
}

/// `azurerm_managed_disk` → `upcloud_storage`.
pub fn map_managed_disk(res: &TerraformResource) -> (r: MigrationResult)
    ensures
        r@ == spec_map_managed_disk(*res),
{
    let size: u32 = attr_u32_or_exec(res, "disk_size_gb", 20);
    let stype: String = string_of(&res.trimmed_or("storage_account_type", "Premium_LRS"));
    let tier: String = if eq_str(&chars_of(stype.as_str()), "Standard_LRS") { String::from_str("hdd") } else { String::from_str("maxiops") };
    let body: String = upcloud_storage_hcl(res.name.as_str(), res.name.as_str(), size, tier.as_str(), "");
    let mut hcl = String::new();
    push_str(&mut hcl, body.as_str());
    let mut notes: Vec<String> = Vec::new();
    let mut n0 = String::new();
    push_str(&mut n0, "Managed Disk (");
    push_str(&mut n0, stype.as_str());
    push_str(&mut n0, ") → UpCloud tier '");
    push_str(&mut n0, tier.as_str());
    push_str(&mut n0, "'");
    push_note(&mut notes, n0);
    new_result(res, MigrationStatus::Native, "upcloud_storage", Some(hcl), None, None, notes)
}

pub open spec fn spec_map_data_disk_attachment(res: TerraformResource) -> ResultModel {
    let disk = match res.attr("managed_disk_id"@) { Some(v) => ref_base(v, "azurerm_managed_disk."@), None => None };
    let vm = match res.attr("virtual_machine_id"@) { Some(v) => attached_vm(v), None => None };
    let storage_ref = or_default(disk, "<TODO: storage>"@);
    let server_ref = or_default(vm, "<TODO: server>"@);
    let snip = spec_storage_devices_snippet(server_ref, storage_ref);
    let notes0 = Seq::<Seq<char>>::empty();
    let notes1 = notes0.push("Disk attachment → add a storage_devices block inside the upcloud_server resource."@);
    let notes2 = notes1.push("Add the snippet to upcloud_server."@ + server_ref + " to attach upcloud_storage."@ + storage_ref + "."@);
    result_model(res, MigrationStatus::Partial, "storage_devices block in upcloud_server"@, None, Some(snip), vm, notes2)
}

/// A data disk attachment → a `storage_devices` block inside the server.
pub fn map_data_disk_attachment(res: &TerraformResource) -> (r: MigrationResult)
    ensures
        r@ == spec_map_data_disk_attachment(*res),
{
    let disk: Option<String> = match res.get_attr("managed_disk_id") { Some(v) => ref_base_exec(&v, "azurerm_managed_disk."), None => None };
    let vm: Option<String> = match res.get_attr("virtual_machine_id") { Some(v) => attached_vm_exec(&v), None => None };
    let storage_ref: String = or_default_str(&disk, "<TODO: storage>");
    let server_ref: String = or_default_str(&vm, "<TODO: server>");
    let snip: String = storage_devices_snippet(server_ref.as_str(), storage_ref.as_str());
    let mut snippet = String::new();
    push_str(&mut snippet, snip.as_str());
    let mut notes: Vec<String> = Vec::new();
    let mut n0 = String::new();
    push_str(&mut n0, "Disk attachment → add a storage_devices block inside the upcloud_server resource.");
    push_note(&mut notes, n0);
    let mut n1 = String::new();
    push_str(&mut n1, "Add the snippet to upcloud_server.");
    push_str(&mut n1, server_ref.as_str());
    push_str(&mut n1, " to attach upcloud_storage.");
    push_str(&mut n1, storage_ref.as_str());
    push_str(&mut n1, ".");
    push_note(&mut notes, n1);
    new_result(res, MigrationStatus::Partial, "storage_devices block in upcloud_server", None, Some(snippet), vm, notes)
}

pub open spec fn spec_map_storage_account(res: TerraformResource) -> ResultModel {
    let account = match res.attr_trim("name"@) { Some(b) => b, None => replace_char(res.name@, '_', "-"@) };
    let body = spec_upcloud_object_storage_hcl(res.name@, account);
    let notes0 = Seq::<Seq<char>>::empty();
    let notes1 = notes0.push("Azure Storage Account → UpCloud Managed Object Storage (S3-compatible)."@);
    let notes2 = notes1.push("Blob containers should be migrated to separate bucket resources."@);
    result_model(res, MigrationStatus::Compatible, "upcloud_managed_object_storage + _bucket"@, Some(body), None, None, notes2)
}

/// `azurerm_storage_account` → managed object storage with a bucket.
pub fn map_storage_account(res: &TerraformResource) -> (r: MigrationResult)
    ensures
        r@ == spec_map_storage_account(*res),
{
    let account: String = match res.get_trimmed("name") { Some(b) => string_of(&b), None => string_of(&replace_char_v(&chars_of(res.name.as_str()), '_', "-")) };
    let body: String = upcloud_object_storage_hcl(res.name.as_str(), account.as_str());
    let mut hcl = String::new();
    push_str(&mut hcl, body.as_str());
    let mut notes: Vec<String> = Vec::new();
    let mut n0 = String::new();
    push_str(&mut n0, "Azure Storage Account → UpCloud Managed Object Storage (S3-compatible).");
    push_note(&mut notes, n0);
    let mut n1 = String::new();
    push_str(&mut n1, "Blob containers should be migrated to separate bucket resources.");
    push_note(&mut notes, n1);
    new_result(res, MigrationStatus::Compatible, "upcloud_managed_object_storage + _bucket", Some(hcl), None, None, notes)
}

pub open spec fn spec_map_storage_container(res: TerraformResource) -> ResultModel {
    let container = match res.attr_trim("name"@) { Some(b) => b, None => replace_char(res.name@, '_', "-"@) };
    let account = match (match res.attr("storage_account_name"@) { Some(v) => Some(v), None => res.attr("storage_account_id"@) }) { Some(v) => seg_after(v, "azurerm_storage_account."@), None => None };
    let service_ref = match account { Some(n) => "upcloud_managed_object_storage."@ + n + ".id"@, None => "upcloud_managed_object_storage.<TODO>.id"@ };
    let notes0 = Seq::<Seq<char>>::empty();
    let notes1 = notes0.push("Azure Blob Container → UpCloud Object Storage Bucket."@);
    result_model(res, MigrationStatus::Compatible, "upcloud_managed_object_storage_bucket"@, Some("resource \"upcloud_managed_object_storage_bucket\" \""@ + res.name@ + "\" {\n  service_uuid = "@ + service_ref + "\n  name         = \""@ + container + "\"\n}\n"@), None, account, notes1)
}

/// `azurerm_storage_container` → an object storage bucket.
pub fn map_storage_container(res: &TerraformResource) -> (r: MigrationResult)
    ensures
        r@ == spec_map_storage_container(*res),
{
    let container: String = match res.get_trimmed("name") { Some(b) => string_of(&b), None => string_of(&replace_char_v(&chars_of(res.name.as_str()), '_', "-")) };
    let account: Option<String> = match (match res.get_attr("storage_account_name") { Some(v) => Some(v), None => res.get_attr("storage_account_id") }) { Some(v) => seg_after_exec(&v, "azurerm_storage_account."), None => None };
    let service_ref: String = match &account { Some(n) => cat3("upcloud_managed_object_storage.", n.as_str(), ".id"), None => String::from_str("upcloud_managed_object_storage.<TODO>.id") };
    let mut hcl = String::new();
    push_str(&mut hcl, "resource \"upcloud_managed_object_storage_bucket\" \"");
    push_str(&mut hcl, res.name.as_str());
    push_str(&mut hcl, "\" {\n  service_uuid = ");
    push_str(&mut hcl, service_ref.as_str());
    push_str(&mut hcl, "\n  name         = \"");
    push_str(&mut hcl, container.as_str());
    push_str(&mut hcl, "\"\n}\n");
    let mut notes: Vec<String> = Vec::new();
    let mut n0 = String::new();
    push_str(&mut n0, "Azure Blob Container → UpCloud Object Storage Bucket.");
    push_note(&mut notes, n0);
    new_result(res, MigrationStatus::Compatible, "upcloud_managed_object_storage_bucket", Some(hcl), None, account, notes)
}

pub open spec fn spec_map_storage_share(res: TerraformResource) -> ResultModel {
    let quota = attr_u32_or(res, "quota"@, 250);
    let size = dec((if quota > 250 { quota } else { 250u32 }) as nat);
    let notes0 = Seq::<Seq<char>>::empty();
    let notes1 = notes0.push("Azure File Share → UpCloud File Storage (NFS-based). Manual mount config needed."@);
    result_model(res, MigrationStatus::Compatible, "upcloud_file_storage"@, Some("resource \"upcloud_file_storage\" \""@ + res.name@ + "\" {\n  name              = \""@ + res.name@ + "\"\n  size              = "@ + size + "\n  zone              = \"__ZONE__\"\n  configured_status = \"started\"\n}\n"@), None, None, notes1)
}

/// `azurerm_storage_share` → `upcloud_file_storage` of at least 250 GiB.
pub fn map_storage_share(res: &TerraformResource) -> (r: MigrationResult)
    ensures
        r@ == spec_map_storage_share(*res),
{
    let quota: u32 = attr_u32_or_exec(res, "quota", 250);
    let size: String = num_string(if quota > 250 { quota } else { 250u32 });
    let mut hcl = String::new();
    push_str(&mut hcl, "resource \"upcloud_file_storage\" \"");
    push_str(&mut hcl, res.name.as_str());
    push_str(&mut hcl, "\" {\n  name              = \"");
    push_str(&mut hcl, res.name.as_str());
    push_str(&mut hcl, "\"\n  size              = ");
    push_str(&mut hcl, size.as_str());
    push_str(&mut hcl, "\n  zone              = \"__ZONE__\"\n  configured_status = \"started\"\n}\n");
    let mut notes: Vec<String> = Vec::new();
    let mut n0 = String::new();
    push_str(&mut n0, "Azure File Share → UpCloud File Storage (NFS-based). Manual mount config needed.");
    push_note(&mut notes, n0);
    new_result(res, MigrationStatus::Compatible, "upcloud_file_storage", Some(hcl), None, None, notes)
}

/// A file share gets at least 250 GiB: the size written is the larger of its quota
/// (250 when the quota is absent or not a number) and 250.
pub proof fn file_share_size_at_least_250(res: TerraformResource)
    ensures
        ({
            let q = attr_u32_or(res, "quota"@, 250);
            let size: nat = if q > 250 { q as nat } else { 250 };
            &&& size >= 250
            &&& size >= q
            &&& (size == q || size == 250)
            &&& spec_map_storage_share(res).upcloud_hcl is Some
            &&& crate::text::contains(spec_map_storage_share(res).upcloud_hcl->0, "\"\n  size              = "@ + dec(size) + "\n  zone              = \"__ZONE__\"\n  configured_status = \"started\"\n}\n"@)
        }),
{
    let q = attr_u32_or(res, "quota"@, 250);
    let size: nat = if q > 250 { q as nat } else { 250 };
    let h = spec_map_storage_share(res).upcloud_hcl->0;
    let pre = "resource \"upcloud_file_storage\" \""@ + res.name@ + "\" {\n  name              = \""@ + res.name@;
    let tail = "\"\n  size              = "@ + dec(size) + "\n  zone              = \"__ZONE__\"\n  configured_status = \"started\"\n}\n"@;
    assert(dec((if q > 250 { q } else { 250u32 }) as nat) == dec(size));
    assert(h =~= pre + tail);
    assert(h.subrange(pre.len() as int, (pre.len() + tail.len()) as int) =~= tail);
    assert(crate::text::matches_at(h, tail, pre.len() as int));
    crate::text::lemma_find_from_bounds(h, tail, 0);
}

} // verus!
