//! Azure compute resources: virtual machines, scale sets, SSH keys, availability sets.
use vstd::prelude::*;

use crate::migration::providers::aws::compute::{unquote, unquote_exec};
use crate::migration::providers::shared::{is_tf_expr, spec_is_tf_expr};
use crate::migration::types::{
    cat3, cat5, new_result, note, push_note, result_model, MigrationResult, MigrationStatus,
    ResultModel,
};
use crate::terraform::types::{attr_u32_or, attr_u32_or_exec, num_string, TerraformResource};
use crate::text::{dec, push_str, replace_char, replace_char_v, string_of};

use crate::text::{chars_of, contains, eq_str, lemma_find_from_bounds, matches_at};

verus! {

pub open spec fn spec_azure_vm_plan(vm_size: Seq<char>) -> Option<Seq<char>> {
    if vm_size == "Standard_B1s"@ || vm_size == "Standard_B1ls"@ {
        Some("1xCPU-1GB"@)
    } else if vm_size == "Standard_B1ms"@ {
        Some("1xCPU-2GB"@)
    } else if vm_size == "Standard_B2s"@ || vm_size == "Standard_B2ms"@ {
        Some("2xCPU-4GB"@)
    } else if vm_size == "Standard_B2ts_v2"@ || vm_size == "Standard_B2s_v2"@ {
        Some("2xCPU-4GB"@)
    } else if vm_size == "Standard_B4ms"@ {
        Some("4xCPU-8GB"@)
    } else if vm_size == "Standard_D2s_v3"@ || vm_size == "Standard_D2s_v4"@ || vm_size == "Standard_D2s_v5"@ || vm_size == "Standard_D2as_v4"@ || vm_size == "Standard_D2as_v5"@ {
        Some("2xCPU-4GB"@)
    } else if vm_size == "Standard_D4s_v3"@ || vm_size == "Standard_D4s_v4"@ || vm_size == "Standard_D4s_v5"@ || vm_size == "Standard_D4as_v4"@ || vm_size == "Standard_D4as_v5"@ {
        Some("4xCPU-8GB"@)
    } else if vm_size == "Standard_D8s_v3"@ || vm_size == "Standard_D8s_v4"@ || vm_size == "Standard_D8s_v5"@ || vm_size == "Standard_D8as_v4"@ || vm_size == "Standard_D8as_v5"@ {
        Some("8xCPU-32GB"@)
    } else if vm_size == "Standard_D16s_v3"@ || vm_size == "Standard_D16s_v4"@ || vm_size == "Standard_D16s_v5"@ {
        Some("16xCPU-64GB"@)
    } else if vm_size == "Standard_F2s_v2"@ {
        Some("2xCPU-4GB"@)
    } else if vm_size == "Standard_F4s_v2"@ {
        Some("4xCPU-8GB"@)
    } else if vm_size == "Standard_F8s_v2"@ {
        Some("6xCPU-16GB"@)
    } else if vm_size == "Standard_E2s_v3"@ || vm_size == "Standard_E2s_v4"@ || vm_size == "Standard_E2s_v5"@ {
        Some("2xCPU-8GB"@)
    } else if vm_size == "Standard_E4s_v3"@ || vm_size == "Standard_E4s_v4"@ || vm_size == "Standard_E4s_v5"@ {
        Some("4xCPU-16GB"@)
    } else if vm_size == "Standard_E8s_v3"@ || vm_size == "Standard_E8s_v4"@ || vm_size == "Standard_E8s_v5"@ {
        Some("8xCPU-32GB"@)
    } else if vm_size == "Standard_A1_v2"@ {
        Some("1xCPU-2GB"@)
    } else if vm_size == "Standard_A2_v2"@ {
        Some("2xCPU-4GB"@)
    } else if vm_size == "Standard_A4_v2"@ {
        Some("4xCPU-8GB"@)
    } else {
        None
    }
}

/// Map Azure VM size (e.g. Standard_B2s) → UpCloud plan slug.
pub fn azure_vm_size_to_upcloud_plan(vm_size: &str) -> (r: Option<&'static str>)
    ensures
        r matches Some(x) ==> spec_azure_vm_plan(vm_size@) == Some(x@),
        r is None ==> spec_azure_vm_plan(vm_size@) is None,
{
    let v = chars_of(vm_size);
    if eq_str(&v, "Standard_B1s") || eq_str(&v, "Standard_B1ls") {
        Some("1xCPU-1GB")
    } else if eq_str(&v, "Standard_B1ms") {
        Some("1xCPU-2GB")
    } else if eq_str(&v, "Standard_B2s") || eq_str(&v, "Standard_B2ms") {
        Some("2xCPU-4GB")
    } else if eq_str(&v, "Standard_B2ts_v2") || eq_str(&v, "Standard_B2s_v2") {
        Some("2xCPU-4GB")
    } else if eq_str(&v, "Standard_B4ms") {
        Some("4xCPU-8GB")
    } else if eq_str(&v, "Standard_D2s_v3") || eq_str(&v, "Standard_D2s_v4") || eq_str(&v, "Standard_D2s_v5") || eq_str(&v, "Standard_D2as_v4") || eq_str(&v, "Standard_D2as_v5") {
        Some("2xCPU-4GB")
    } else if eq_str(&v, "Standard_D4s_v3") || eq_str(&v, "Standard_D4s_v4") || eq_str(&v, "Standard_D4s_v5") || eq_str(&v, "Standard_D4as_v4") || eq_str(&v, "Standard_D4as_v5") {
        Some("4xCPU-8GB")
    } else if eq_str(&v, "Standard_D8s_v3") || eq_str(&v, "Standard_D8s_v4") || eq_str(&v, "Standard_D8s_v5") || eq_str(&v, "Standard_D8as_v4") || eq_str(&v, "Standard_D8as_v5") {
        Some("8xCPU-32GB")
    } else if eq_str(&v, "Standard_D16s_v3") || eq_str(&v, "Standard_D16s_v4") || eq_str(&v, "Standard_D16s_v5") {
        Some("16xCPU-64GB")
    } else if eq_str(&v, "Standard_F2s_v2") {
        Some("2xCPU-4GB")
    } else if eq_str(&v, "Standard_F4s_v2") {
        Some("4xCPU-8GB")
    } else if eq_str(&v, "Standard_F8s_v2") {
        Some("6xCPU-16GB")
    } else if eq_str(&v, "Standard_E2s_v3") || eq_str(&v, "Standard_E2s_v4") || eq_str(&v, "Standard_E2s_v5") {
        Some("2xCPU-8GB")
    } else if eq_str(&v, "Standard_E4s_v3") || eq_str(&v, "Standard_E4s_v4") || eq_str(&v, "Standard_E4s_v5") {
        Some("4xCPU-16GB")
    } else if eq_str(&v, "Standard_E8s_v3") || eq_str(&v, "Standard_E8s_v4") || eq_str(&v, "Standard_E8s_v5") {
        Some("8xCPU-32GB")
    } else if eq_str(&v, "Standard_A1_v2") {
        Some("1xCPU-2GB")
    } else if eq_str(&v, "Standard_A2_v2") {
        Some("2xCPU-4GB")
    } else if eq_str(&v, "Standard_A4_v2") {
        Some("4xCPU-8GB")
    } else {
        None
    }
}

pub open spec fn spec_azure_zone_default(region: Seq<char>) -> Seq<char> {
    if region == "eastus"@ || region == "eastus2"@ || region == "centralus"@ || region == "northcentralus"@ || region == "southcentralus"@ {
        "us-nyc1"@
    } else if region == "westus"@ || region == "westus2"@ || region == "westus3"@ {
        "us-chi1"@
    } else if region == "canadacentral"@ || region == "canadaeast"@ {
        "us-nyc1"@
    } else if region == "northeurope"@ || region == "uksouth"@ || region == "ukwest"@ {
        "de-fra1"@
    } else if region == "westeurope"@ || region == "germanywestcentral"@ || region == "francecentral"@ || region == "francesouth"@ {
        "de-fra1"@
    } else if region == "swedencentral"@ || region == "norwayeast"@ {
        "fi-hel1"@
    } else if region == "southeastasia"@ || region == "eastasia"@ {
        "sg-sin1"@
    } else if region == "japaneast"@ || region == "japanwest"@ || region == "koreacentral"@ {
        "sg-sin1"@
    } else if region == "australiaeast"@ || region == "australiasoutheast"@ {
        "au-syd1"@
    } else {
        "__ZONE__"@
    }
}

/// Map an Azure region to an UpCloud zone, `__ZONE__` when unknown.
fn map_region(region: &str) -> (r: &'static str)
    ensures
        r@ == spec_azure_zone_default(region@),
{
    let v = chars_of(region);
    if eq_str(&v, "eastus") || eq_str(&v, "eastus2") || eq_str(&v, "centralus") || eq_str(&v, "northcentralus") || eq_str(&v, "southcentralus") {
        "us-nyc1"
    } else if eq_str(&v, "westus") || eq_str(&v, "westus2") || eq_str(&v, "westus3") {
        "us-chi1"
    } else if eq_str(&v, "canadacentral") || eq_str(&v, "canadaeast") {
        "us-nyc1"
    } else if eq_str(&v, "northeurope") || eq_str(&v, "uksouth") || eq_str(&v, "ukwest") {
        "de-fra1"
    } else if eq_str(&v, "westeurope") || eq_str(&v, "germanywestcentral") || eq_str(&v, "francecentral") || eq_str(&v, "francesouth") {
        "de-fra1"
    } else if eq_str(&v, "swedencentral") || eq_str(&v, "norwayeast") {
        "fi-hel1"
    } else if eq_str(&v, "southeastasia") || eq_str(&v, "eastasia") {
        "sg-sin1"
    } else if eq_str(&v, "japaneast") || eq_str(&v, "japanwest") || eq_str(&v, "koreacentral") {
        "sg-sin1"
    } else if eq_str(&v, "australiaeast") || eq_str(&v, "australiasoutheast") {
        "au-syd1"
    } else {
        "__ZONE__"
    }
}
pub open spec fn spec_map_vm_size(vm_size: Seq<char>) -> Seq<char> {
    match spec_azure_vm_plan(vm_size) {
        Some(p) => p,
        None => "2xCPU-4GB"@,
    }
}

/// Map an Azure VM size to an UpCloud plan, `2xCPU-4GB` when unknown.
fn map_vm_size(vm_size: &str) -> (r: &'static str)
    ensures
        r@ == spec_map_vm_size(vm_size@),
{
    match azure_vm_size_to_upcloud_plan(vm_size) {
        Some(p) => p,
        None => "2xCPU-4GB",
    }
}


pub open spec fn spec_map_linux_virtual_machine(res: TerraformResource) -> ResultModel {
    let vm_size = res.attr_trim_or("size"@, "Standard_B2s"@);
    let is_expr = spec_is_tf_expr(vm_size);
    let plan = if is_expr { seq![] } else { spec_map_vm_size(vm_size) };
    let zone = match res.attr_trim("location"@) { Some(l) => spec_azure_zone_default(l), None => "__ZONE__"@ };
    let hostname = replace_char(res.name@, '_', "-"@);
    let admin = res.attr_trim_or("admin_username"@, "root"@);
    let plan_line = if is_expr { "  plan     = "@ + vm_size + "\n"@ } else { "  plan     = \""@ + plan + "\"\n"@ };
    let disk = dec(attr_u32_or(res, "os_disk.disk_size_gb"@, 50) as nat);
    let custom_data = if res.attr("custom_data"@) is Some { "\n  # custom_data was set — review and migrate to user_data (cloud-init)\n  metadata  = true"@ } else { "\n  metadata  = true"@ };
    let notes0 = Seq::<Seq<char>>::empty();
    let notes1 = if is_expr { notes0.push("VM size '"@ + vm_size + "' is a variable — update its default in variables.tf to an UpCloud plan."@) } else { notes0 };
    let notes2 = if !is_expr { notes1.push("VM size '"@ + vm_size + "' → plan '"@ + plan + "'"@) } else { notes1 };
    let notes3 = notes2.push("OS image → Ubuntu 24.04 LTS (update if needed: upctl storage list --public --template)"@);
    let notes4 = if res.attr("custom_data"@) is Some { notes3.push("custom_data set — migrate to user_data for cloud-init."@) } else { notes3 };
    result_model(res, MigrationStatus::Native, "upcloud_server"@, Some("resource \"upcloud_server\" \""@ + res.name@ + "\" {\n  hostname = \""@ + hostname + "\"\n  zone     = \""@ + zone + "\"\n"@ + plan_line + "  firewall = true"@ + custom_data + "\n\n  template {\n    storage = \"Ubuntu Server 24.04 LTS (Noble Numbat)\"\n    size    = "@ + disk + "\n  }\n\n  network_interface {\n    type = \"public\"\n  }\n\n  network_interface {\n    type    = \"private\"\n    network = \"<TODO: upcloud_network reference>\"\n  }\n  login {\n    user = \""@ + admin + "\"\n    keys = [\"<TODO: paste SSH public key>\"]\n  }\n\n  # __STORAGE_END_"@ + res.name@ + "__\n}\n"@), None, None, notes4)
}

/// `azurerm_linux_virtual_machine` → `upcloud_server`: plan from the size (kept as an
/// expression when it is one), zone from the location, disk size, login user, and a
/// marker where storage devices are to be inserted.
pub fn map_linux_virtual_machine(res: &TerraformResource) -> (r: MigrationResult)
    ensures
        r@ == spec_map_linux_virtual_machine(*res),
{
    let vm_size: String = string_of(&res.trimmed_or("size", "Standard_B2s"));
    let is_expr: bool = is_tf_expr(vm_size.as_str());
    let plan: String = if is_expr { String::new() } else { String::from_str(map_vm_size(vm_size.as_str())) };
    let zone: String = match res.get_trimmed("location") { Some(l) => String::from_str(map_region(string_of(&l).as_str())), None => String::from_str("__ZONE__") };
    let hostname: String = string_of(&replace_char_v(&chars_of(res.name.as_str()), '_', "-"));
    let admin: String = string_of(&res.trimmed_or("admin_username", "root"));
    let plan_line: String = if is_expr { cat3("  plan     = ", vm_size.as_str(), "\n") } else { cat3("  plan     = \"", plan.as_str(), "\"\n") };
    let disk: String = num_string(attr_u32_or_exec(res, "os_disk.disk_size_gb", 50));
    let custom_data: String = if res.has_attr("custom_data") { String::from_str("\n  # custom_data was set — review and migrate to user_data (cloud-init)\n  metadata  = true") } else { String::from_str("\n  metadata  = true") };
    let mut hcl = String::new();
    push_str(&mut hcl, "resource \"upcloud_server\" \"");
    push_str(&mut hcl, res.name.as_str());
    push_str(&mut hcl, "\" {\n  hostname = \"");
    push_str(&mut hcl, hostname.as_str());
    push_str(&mut hcl, "\"\n  zone     = \"");
    push_str(&mut hcl, zone.as_str());
    push_str(&mut hcl, "\"\n");
    push_str(&mut hcl, plan_line.as_str());
    push_str(&mut hcl, "  firewall = true");
    push_str(&mut hcl, custom_data.as_str());
    push_str(&mut hcl, "\n\n  template {\n    storage = \"Ubuntu Server 24.04 LTS (Noble Numbat)\"\n    size    = ");
    push_str(&mut hcl, disk.as_str());
    push_str(&mut hcl, "\n  }\n\n  network_interface {\n    type = \"public\"\n  }\n\n  network_interface {\n    type    = \"private\"\n    network = \"<TODO: upcloud_network reference>\"\n  }\n  login {\n    user = \"");
    push_str(&mut hcl, admin.as_str());
    push_str(&mut hcl, "\"\n    keys = [\"<TODO: paste SSH public key>\"]\n  }\n\n  # __STORAGE_END_");
    push_str(&mut hcl, res.name.as_str());
    push_str(&mut hcl, "__\n}\n");
    let mut notes: Vec<String> = Vec::new();
    if is_expr {
        let mut n0 = String::new();
        push_str(&mut n0, "VM size '");
        push_str(&mut n0, vm_size.as_str());
        push_str(&mut n0, "' is a variable — update its default in variables.tf to an UpCloud plan.");
        push_note(&mut notes, n0);
    }
    if !is_expr {
        let mut n1 = String::new();
        push_str(&mut n1, "VM size '");
        push_str(&mut n1, vm_size.as_str());
        push_str(&mut n1, "' → plan '");
        push_str(&mut n1, plan.as_str());
        push_str(&mut n1, "'");
        push_note(&mut notes, n1);
    }
    let mut n2 = String::new();
    push_str(&mut n2, "OS image → Ubuntu 24.04 LTS (update if needed: upctl storage list --public --template)");
    push_note(&mut notes, n2);
    if res.has_attr("custom_data") {
        let mut n3 = String::new();
        push_str(&mut n3, "custom_data set — migrate to user_data for cloud-init.");
        push_note(&mut notes, n3);
    }
    new_result(res, MigrationStatus::Native, "upcloud_server", Some(hcl), None, None, notes)
}

pub open spec fn spec_map_windows_virtual_machine(res: TerraformResource) -> ResultModel {
    let vm_size = res.attr_trim_or("size"@, "Standard_B2s"@);
    let plan = spec_map_vm_size(vm_size);
    let zone = match res.attr_trim("location"@) { Some(l) => spec_azure_zone_default(l), None => "__ZONE__"@ };
    let hostname = replace_char(res.name@, '_', "-"@);
    let disk = dec(attr_u32_or(res, "os_disk.disk_size_gb"@, 50) as nat);
    let notes0 = Seq::<Seq<char>>::empty();
    let notes1 = notes0.push("VM size '"@ + vm_size + "' → plan '"@ + plan + "'"@);
    let notes2 = notes1.push("Windows VM → UpCloud Windows Server 2022 template."@);
    let notes3 = notes2.push("RDP access requires firewall rule for port 3389."@);
    result_model(res, MigrationStatus::Compatible, "upcloud_server"@, Some("resource \"upcloud_server\" \""@ + res.name@ + "\" {\n  hostname = \""@ + hostname + "\"\n  zone     = \""@ + zone + "\"\n  plan     = \""@ + plan + "\"\n  firewall = true\n\n  template {\n    storage = \"Windows Server 2022 Standard\"\n    size    = "@ + disk + "\n  }\n\n  network_interface {\n    type = \"public\"\n  }\n\n  network_interface {\n    type    = \"private\"\n    network = \"<TODO: upcloud_network reference>\"\n  }\n\n  login {\n    user            = \"Administrator\"\n    create_password = true\n  }\n}\n"@), None, None, notes3)
}

/// `azurerm_windows_virtual_machine` → a Windows Server `upcloud_server`.
pub fn map_windows_virtual_machine(res: &TerraformResource) -> (r: MigrationResult)
    ensures
        r@ == spec_map_windows_virtual_machine(*res),
{
    let vm_size: String = string_of(&res.trimmed_or("size", "Standard_B2s"));
    let plan: String = String::from_str(map_vm_size(vm_size.as_str()));
    let zone: String = match res.get_trimmed("location") { Some(l) => String::from_str(map_region(string_of(&l).as_str())), None => String::from_str("__ZONE__") };
    let hostname: String = string_of(&replace_char_v(&chars_of(res.name.as_str()), '_', "-"));
    let disk: String = num_string(attr_u32_or_exec(res, "os_disk.disk_size_gb", 50));
    let mut hcl = String::new();
    push_str(&mut hcl, "resource \"upcloud_server\" \"");
    push_str(&mut hcl, res.name.as_str());
    push_str(&mut hcl, "\" {\n  hostname = \"");
    push_str(&mut hcl, hostname.as_str());
    push_str(&mut hcl, "\"\n  zone     = \"");
    push_str(&mut hcl, zone.as_str());
    push_str(&mut hcl, "\"\n  plan     = \"");
    push_str(&mut hcl, plan.as_str());
    push_str(&mut hcl, "\"\n  firewall = true\n\n  template {\n    storage = \"Windows Server 2022 Standard\"\n    size    = ");
    push_str(&mut hcl, disk.as_str());
    push_str(&mut hcl, "\n  }\n\n  network_interface {\n    type = \"public\"\n  }\n\n  network_interface {\n    type    = \"private\"\n    network = \"<TODO: upcloud_network reference>\"\n  }\n\n  login {\n    user            = \"Administrator\"\n    create_password = true\n  }\n}\n");
    let mut notes: Vec<String> = Vec::new();
    let mut n0 = String::new();
    push_str(&mut n0, "VM size '");
    push_str(&mut n0, vm_size.as_str());
    push_str(&mut n0, "' → plan '");
    push_str(&mut n0, plan.as_str());
    push_str(&mut n0, "'");
    push_note(&mut notes, n0);
    let mut n1 = String::new();
    push_str(&mut n1, "Windows VM → UpCloud Windows Server 2022 template.");
    push_note(&mut notes, n1);
    let mut n2 = String::new();
    push_str(&mut n2, "RDP access requires firewall rule for port 3389.");
    push_note(&mut notes, n2);
    new_result(res, MigrationStatus::Compatible, "upcloud_server", Some(hcl), None, None, notes)
}

pub open spec fn spec_map_virtual_machine(res: TerraformResource) -> ResultModel {
    let vm_size = res.attr_trim_or("vm_size"@, "Standard_B2s"@);
    let plan = spec_map_vm_size(vm_size);
    let zone = match res.attr_trim("location"@) { Some(l) => spec_azure_zone_default(l), None => "__ZONE__"@ };
    let hostname = replace_char(res.name@, '_', "-"@);
    let notes0 = Seq::<Seq<char>>::empty();
    let notes1 = notes0.push("VM size '"@ + vm_size + "' → plan '"@ + plan + "'"@);
    let notes2 = notes1.push("Legacy azurerm_virtual_machine — consider using azurerm_linux_virtual_machine."@);
    result_model(res, MigrationStatus::Compatible, "upcloud_server"@, Some("resource \"upcloud_server\" \""@ + res.name@ + "\" {\n  hostname = \""@ + hostname + "\"\n  zone     = \""@ + zone + "\"\n  plan     = \""@ + plan + "\"\n  firewall = true\n  metadata = true\n\n  template {\n    storage = \"Ubuntu Server 24.04 LTS (Noble Numbat)\"\n    size    = 50\n  }\n\n  network_interface {\n    type = \"public\"\n  }\n\n  network_interface {\n    type    = \"private\"\n    network = \"<TODO: upcloud_network reference>\"\n  }\n\n  login {\n    user = \"root\"\n    keys = [\"<TODO: paste SSH public key>\"]\n  }\n}\n"@), None, None, notes2)
}

/// Legacy `azurerm_virtual_machine` → `upcloud_server`.
pub fn map_virtual_machine(res: &TerraformResource) -> (r: MigrationResult)
    ensures
        r@ == spec_map_virtual_machine(*res),
{
    let vm_size: String = string_of(&res.trimmed_or("vm_size", "Standard_B2s"));
    let plan: String = String::from_str(map_vm_size(vm_size.as_str()));
    let zone: String = match res.get_trimmed("location") { Some(l) => String::from_str(map_region(string_of(&l).as_str())), None => String::from_str("__ZONE__") };
    let hostname: String = string_of(&replace_char_v(&chars_of(res.name.as_str()), '_', "-"));
    let mut hcl = String::new();
    push_str(&mut hcl, "resource \"upcloud_server\" \"");
    push_str(&mut hcl, res.name.as_str());
    push_str(&mut hcl, "\" {\n  hostname = \"");
    push_str(&mut hcl, hostname.as_str());
    push_str(&mut hcl, "\"\n  zone     = \"");
    push_str(&mut hcl, zone.as_str());
    push_str(&mut hcl, "\"\n  plan     = \"");
    push_str(&mut hcl, plan.as_str());
    push_str(&mut hcl, "\"\n  firewall = true\n  metadata = true\n\n  template {\n    storage = \"Ubuntu Server 24.04 LTS (Noble Numbat)\"\n    size    = 50\n  }\n\n  network_interface {\n    type = \"public\"\n  }\n\n  network_interface {\n    type    = \"private\"\n    network = \"<TODO: upcloud_network reference>\"\n  }\n\n  login {\n    user = \"root\"\n    keys = [\"<TODO: paste SSH public key>\"]\n  }\n}\n");
    let mut notes: Vec<String> = Vec::new();
    let mut n0 = String::new();
    push_str(&mut n0, "VM size '");
    push_str(&mut n0, vm_size.as_str());
    push_str(&mut n0, "' → plan '");
    push_str(&mut n0, plan.as_str());
    push_str(&mut n0, "'");
    push_note(&mut notes, n0);
    let mut n1 = String::new();
    push_str(&mut n1, "Legacy azurerm_virtual_machine — consider using azurerm_linux_virtual_machine.");
    push_note(&mut notes, n1);
    new_result(res, MigrationStatus::Compatible, "upcloud_server", Some(hcl), None, None, notes)
}

pub open spec fn spec_map_ssh_public_key(res: TerraformResource) -> ResultModel {
    let key = match res.attr("public_key"@) { Some(v) => unquote(v), None => "<TODO: paste SSH public key>"@ };
    let notes0 = Seq::<Seq<char>>::empty();
    let notes1 = notes0.push("Azure SSH key → UpCloud login block inside upcloud_server — not a standalone resource."@);
    result_model(res, MigrationStatus::Partial, "login block (server resource)"@, None, Some("login {\n  user = \"root\"\n  keys = [\""@ + key + "\"]  # was azurerm_ssh_public_key."@ + res.name@ + "\n}"@), None, notes1)
}

/// `azurerm_ssh_public_key` → a `login` block for the servers.
pub fn map_ssh_public_key(res: &TerraformResource) -> (r: MigrationResult)
    ensures
        r@ == spec_map_ssh_public_key(*res),
{
    let key: String = match res.get_attr("public_key") { Some(v) => string_of(&unquote_exec(&v)), None => String::from_str("<TODO: paste SSH public key>") };
    let mut snippet = String::new();
    push_str(&mut snippet, "login {\n  user = \"root\"\n  keys = [\"");
    push_str(&mut snippet, key.as_str());
    push_str(&mut snippet, "\"]  # was azurerm_ssh_public_key.");
    push_str(&mut snippet, res.name.as_str());
    push_str(&mut snippet, "\n}");
    let mut notes: Vec<String> = Vec::new();
    let mut n0 = String::new();
    push_str(&mut n0, "Azure SSH key → UpCloud login block inside upcloud_server — not a standalone resource.");
    push_note(&mut notes, n0);
    new_result(res, MigrationStatus::Partial, "login block (server resource)", None, Some(snippet), None, notes)
}

pub open spec fn spec_map_availability_set(res: TerraformResource) -> ResultModel {
    let notes0 = Seq::<Seq<char>>::empty();
    let notes1 = notes0.push("Azure Availability Sets have no direct UpCloud equivalent."@);
    let notes2 = notes1.push("UpCloud provides high availability through zone placement."@);
    result_model(res, MigrationStatus::Unsupported, "(no availability set equivalent)"@, None, None, None, notes2)
}

/// `azurerm_availability_set`: no equivalent; zones give availability.
pub fn map_availability_set(res: &TerraformResource) -> (r: MigrationResult)
    ensures
        r@ == spec_map_availability_set(*res),
{
    let mut notes: Vec<String> = Vec::new();
    let mut n0 = String::new();
    push_str(&mut n0, "Azure Availability Sets have no direct UpCloud equivalent.");
    push_note(&mut notes, n0);
    let mut n1 = String::new();
    push_str(&mut n1, "UpCloud provides high availability through zone placement.");
    push_note(&mut notes, n1);
    new_result(res, MigrationStatus::Unsupported, "(no availability set equivalent)", None, None, None, notes)
}

pub open spec fn spec_map_virtual_machine_scale_set(res: TerraformResource) -> ResultModel {
    let vm_size = res.attr_trim_or("sku"@, "Standard_B2s"@);
    let is_expr = spec_is_tf_expr(vm_size);
    let plan = if is_expr { seq![] } else { spec_map_vm_size(vm_size) };
    let zone = match res.attr_trim("location"@) { Some(l) => spec_azure_zone_default(l), None => "__ZONE__"@ };
    let hostname = replace_char(res.name@, '_', "-"@);
    let admin = res.attr_trim_or("admin_username"@, "root"@);
    let disk = dec(attr_u32_or(res, "os_disk.disk_size_gb"@, 50) as nat);
    let instances = res.attr_trim_or("instances"@, "2"@);
    let plan_line = if is_expr { "  plan     = "@ + vm_size + "\n"@ } else { "  plan     = \""@ + plan + "\"\n"@ };
    let notes0 = Seq::<Seq<char>>::empty();
    let notes1 = if is_expr { notes0.push("VM SKU '"@ + vm_size + "' is a variable — update its default in variables.tf to an UpCloud plan."@) } else { notes0 };
    let notes2 = if !is_expr { notes1.push("VM SKU '"@ + vm_size + "' → plan '"@ + plan + "'"@) } else { notes1 };
    let notes3 = notes2.push("Azure VMSS → UpCloud servers with count. No auto-scaling equivalent — manage instance count manually."@);
    result_model(res, MigrationStatus::Native, "upcloud_server"@, Some("resource \"upcloud_server\" \""@ + res.name@ + "\" {\n  count    = "@ + instances + "\n  hostname = \""@ + hostname + "-${count.index}\"\n  zone     = \""@ + zone + "\"\n"@ + plan_line + "  firewall = true\n\n  template {\n    storage = \"Ubuntu Server 24.04 LTS (Noble Numbat)\"\n    size    = "@ + disk + "\n  }\n\n  network_interface {\n    type = \"public\"\n  }\n\n  network_interface {\n    type    = \"private\"\n    network = \"<TODO: upcloud_network reference>\"\n  }\n\n  login {\n    user = \""@ + admin + "\"\n    keys = [\"<TODO: paste SSH public key>\"]\n  }\n\n  # __STORAGE_END_"@ + res.name@ + "__\n}\n"@), None, None, notes3)
}

/// A VM scale set → `upcloud_server` with a `count` of its instances.
pub fn map_virtual_machine_scale_set(res: &TerraformResource) -> (r: MigrationResult)
    ensures
        r@ == spec_map_virtual_machine_scale_set(*res),
{
    let vm_size: String = string_of(&res.trimmed_or("sku", "Standard_B2s"));
    let is_expr: bool = is_tf_expr(vm_size.as_str());
    let plan: String = if is_expr { String::new() } else { String::from_str(map_vm_size(vm_size.as_str())) };
    let zone: String = match res.get_trimmed("location") { Some(l) => String::from_str(map_region(string_of(&l).as_str())), None => String::from_str("__ZONE__") };
    let hostname: String = string_of(&replace_char_v(&chars_of(res.name.as_str()), '_', "-"));
    let admin: String = string_of(&res.trimmed_or("admin_username", "root"));
    let disk: String = num_string(attr_u32_or_exec(res, "os_disk.disk_size_gb", 50));
    let instances: String = string_of(&res.trimmed_or("instances", "2"));
    let plan_line: String = if is_expr { cat3("  plan     = ", vm_size.as_str(), "\n") } else { cat3("  plan     = \"", plan.as_str(), "\"\n") };
    let mut hcl = String::new();
    push_str(&mut hcl, "resource \"upcloud_server\" \"");
    push_str(&mut hcl, res.name.as_str());
    push_str(&mut hcl, "\" {\n  count    = ");
    push_str(&mut hcl, instances.as_str());
    push_str(&mut hcl, "\n  hostname = \"");
    push_str(&mut hcl, hostname.as_str());
    push_str(&mut hcl, "-${count.index}\"\n  zone     = \"");
    push_str(&mut hcl, zone.as_str());
    push_str(&mut hcl, "\"\n");
    push_str(&mut hcl, plan_line.as_str());
    push_str(&mut hcl, "  firewall = true\n\n  template {\n    storage = \"Ubuntu Server 24.04 LTS (Noble Numbat)\"\n    size    = ");
    push_str(&mut hcl, disk.as_str());
    push_str(&mut hcl, "\n  }\n\n  network_interface {\n    type = \"public\"\n  }\n\n  network_interface {\n    type    = \"private\"\n    network = \"<TODO: upcloud_network reference>\"\n  }\n\n  login {\n    user = \"");
    push_str(&mut hcl, admin.as_str());
    push_str(&mut hcl, "\"\n    keys = [\"<TODO: paste SSH public key>\"]\n  }\n\n  # __STORAGE_END_");
    push_str(&mut hcl, res.name.as_str());
    push_str(&mut hcl, "__\n}\n");
    let mut notes: Vec<String> = Vec::new();
    if is_expr {
        let mut n0 = String::new();
        push_str(&mut n0, "VM SKU '");
        push_str(&mut n0, vm_size.as_str());
        push_str(&mut n0, "' is a variable — update its default in variables.tf to an UpCloud plan.");
        push_note(&mut notes, n0);
    }
    if !is_expr {
        let mut n1 = String::new();
        push_str(&mut n1, "VM SKU '");
        push_str(&mut n1, vm_size.as_str());
        push_str(&mut n1, "' → plan '");
        push_str(&mut n1, plan.as_str());
        push_str(&mut n1, "'");
        push_note(&mut notes, n1);
    }
    let mut n2 = String::new();
    push_str(&mut n2, "Azure VMSS → UpCloud servers with count. No auto-scaling equivalent — manage instance count manually.");
    push_note(&mut notes, n2);
    new_result(res, MigrationStatus::Native, "upcloud_server", Some(hcl), None, None, notes)
}

/// The Azure VM sizes with an UpCloud plan, and their plans, by the size's vCPU and
/// memory class (the E2s sizes, 2 vCPU, to `2xCPU-8GB`); no other size has one.
pub proof fn azure_vm_plan_table(vm_size: Seq<char>)
    ensures
        spec_azure_vm_plan("Standard_B1s"@) == Some("1xCPU-1GB"@),
        spec_azure_vm_plan("Standard_B1ls"@) == Some("1xCPU-1GB"@),
        spec_azure_vm_plan("Standard_B1ms"@) == Some("1xCPU-2GB"@),
        spec_azure_vm_plan("Standard_B2s"@) == Some("2xCPU-4GB"@),
        spec_azure_vm_plan("Standard_B2ms"@) == Some("2xCPU-4GB"@),
        spec_azure_vm_plan("Standard_B2ts_v2"@) == Some("2xCPU-4GB"@),
        spec_azure_vm_plan("Standard_B2s_v2"@) == Some("2xCPU-4GB"@),
        spec_azure_vm_plan("Standard_B4ms"@) == Some("4xCPU-8GB"@),
        spec_azure_vm_plan("Standard_D2s_v3"@) == Some("2xCPU-4GB"@),
        spec_azure_vm_plan("Standard_D2s_v4"@) == Some("2xCPU-4GB"@),
        spec_azure_vm_plan("Standard_D2s_v5"@) == Some("2xCPU-4GB"@),
        spec_azure_vm_plan("Standard_D2as_v4"@) == Some("2xCPU-4GB"@),
        spec_azure_vm_plan("Standard_D2as_v5"@) == Some("2xCPU-4GB"@),
        spec_azure_vm_plan("Standard_D4s_v3"@) == Some("4xCPU-8GB"@),
        spec_azure_vm_plan("Standard_D4s_v4"@) == Some("4xCPU-8GB"@),
        spec_azure_vm_plan("Standard_D4s_v5"@) == Some("4xCPU-8GB"@),
        spec_azure_vm_plan("Standard_D4as_v4"@) == Some("4xCPU-8GB"@),
        spec_azure_vm_plan("Standard_D4as_v5"@) == Some("4xCPU-8GB"@),
        spec_azure_vm_plan("Standard_D8s_v3"@) == Some("8xCPU-32GB"@),
        spec_azure_vm_plan("Standard_D8s_v4"@) == Some("8xCPU-32GB"@),
        spec_azure_vm_plan("Standard_D8s_v5"@) == Some("8xCPU-32GB"@),
        spec_azure_vm_plan("Standard_D8as_v4"@) == Some("8xCPU-32GB"@),
        spec_azure_vm_plan("Standard_D8as_v5"@) == Some("8xCPU-32GB"@),
        spec_azure_vm_plan("Standard_D16s_v3"@) == Some("16xCPU-64GB"@),
        spec_azure_vm_plan("Standard_D16s_v4"@) == Some("16xCPU-64GB"@),
        spec_azure_vm_plan("Standard_D16s_v5"@) == Some("16xCPU-64GB"@),
        spec_azure_vm_plan("Standard_F2s_v2"@) == Some("2xCPU-4GB"@),
        spec_azure_vm_plan("Standard_F4s_v2"@) == Some("4xCPU-8GB"@),
        spec_azure_vm_plan("Standard_F8s_v2"@) == Some("6xCPU-16GB"@),
        spec_azure_vm_plan("Standard_E2s_v3"@) == Some("2xCPU-8GB"@),
        spec_azure_vm_plan("Standard_E2s_v4"@) == Some("2xCPU-8GB"@),
        spec_azure_vm_plan("Standard_E2s_v5"@) == Some("2xCPU-8GB"@),
        spec_azure_vm_plan("Standard_E4s_v3"@) == Some("4xCPU-16GB"@),
        spec_azure_vm_plan("Standard_E4s_v4"@) == Some("4xCPU-16GB"@),
        spec_azure_vm_plan("Standard_E4s_v5"@) == Some("4xCPU-16GB"@),
        spec_azure_vm_plan("Standard_E8s_v3"@) == Some("8xCPU-32GB"@),
        spec_azure_vm_plan("Standard_E8s_v4"@) == Some("8xCPU-32GB"@),
        spec_azure_vm_plan("Standard_E8s_v5"@) == Some("8xCPU-32GB"@),
        spec_azure_vm_plan("Standard_A1_v2"@) == Some("1xCPU-2GB"@),
        spec_azure_vm_plan("Standard_A2_v2"@) == Some("2xCPU-4GB"@),
        spec_azure_vm_plan("Standard_A4_v2"@) == Some("4xCPU-8GB"@),
        spec_azure_vm_plan(vm_size) is Some ==> (vm_size == "Standard_B1s"@ || vm_size == "Standard_B1ls"@ || vm_size == "Standard_B1ms"@ || vm_size == "Standard_B2s"@ || vm_size == "Standard_B2ms"@ || vm_size == "Standard_B2ts_v2"@ || vm_size == "Standard_B2s_v2"@ || vm_size == "Standard_B4ms"@ || vm_size == "Standard_D2s_v3"@ || vm_size == "Standard_D2s_v4"@ || vm_size == "Standard_D2s_v5"@ || vm_size == "Standard_D2as_v4"@ || vm_size == "Standard_D2as_v5"@ || vm_size == "Standard_D4s_v3"@ || vm_size == "Standard_D4s_v4"@ || vm_size == "Standard_D4s_v5"@ || vm_size == "Standard_D4as_v4"@ || vm_size == "Standard_D4as_v5"@ || vm_size == "Standard_D8s_v3"@ || vm_size == "Standard_D8s_v4"@ || vm_size == "Standard_D8s_v5"@ || vm_size == "Standard_D8as_v4"@ || vm_size == "Standard_D8as_v5"@ || vm_size == "Standard_D16s_v3"@ || vm_size == "Standard_D16s_v4"@ || vm_size == "Standard_D16s_v5"@ || vm_size == "Standard_F2s_v2"@ || vm_size == "Standard_F4s_v2"@ || vm_size == "Standard_F8s_v2"@ || vm_size == "Standard_E2s_v3"@ || vm_size == "Standard_E2s_v4"@ || vm_size == "Standard_E2s_v5"@ || vm_size == "Standard_E4s_v3"@ || vm_size == "Standard_E4s_v4"@ || vm_size == "Standard_E4s_v5"@ || vm_size == "Standard_E8s_v3"@ || vm_size == "Standard_E8s_v4"@ || vm_size == "Standard_E8s_v5"@ || vm_size == "Standard_A1_v2"@ || vm_size == "Standard_A2_v2"@ || vm_size == "Standard_A4_v2"@),
{
    reveal_strlit("Standard_B1s");
    assert("Standard_B1s"@[0] == 'S');
    assert("Standard_B1s"@[1] == 't');
    assert("Standard_B1s"@[2] == 'a');
    assert("Standard_B1s"@[3] == 'n');
    assert("Standard_B1s"@[4] == 'd');
    assert("Standard_B1s"@[5] == 'a');
    assert("Standard_B1s"@[6] == 'r');
    assert("Standard_B1s"@[7] == 'd');
    assert("Standard_B1s"@[8] == '_');
    assert("Standard_B1s"@[9] == 'B');
    assert("Standard_B1s"@[10] == '1');
    assert("Standard_B1s"@[11] == 's');
    reveal_strlit("Standard_B1ls");
    assert("Standard_B1ls"@[0] == 'S');
    assert("Standard_B1ls"@[1] == 't');
    assert("Standard_B1ls"@[2] == 'a');
    assert("Standard_B1ls"@[3] == 'n');
    assert("Standard_B1ls"@[4] == 'd');
    assert("Standard_B1ls"@[5] == 'a');
    assert("Standard_B1ls"@[6] == 'r');
    assert("Standard_B1ls"@[7] == 'd');
    assert("Standard_B1ls"@[8] == '_');
    assert("Standard_B1ls"@[9] == 'B');
    assert("Standard_B1ls"@[10] == '1');
    assert("Standard_B1ls"@[11] == 'l');
    assert("Standard_B1ls"@[12] == 's');
    reveal_strlit("Standard_B1ms");
    assert("Standard_B1ms"@[0] == 'S');
    assert("Standard_B1ms"@[1] == 't');
    assert("Standard_B1ms"@[2] == 'a');
    assert("Standard_B1ms"@[3] == 'n');
    assert("Standard_B1ms"@[4] == 'd');
    assert("Standard_B1ms"@[5] == 'a');
    assert("Standard_B1ms"@[6] == 'r');
    assert("Standard_B1ms"@[7] == 'd');
    assert("Standard_B1ms"@[8] == '_');
    assert("Standard_B1ms"@[9] == 'B');
    assert("Standard_B1ms"@[10] == '1');
    assert("Standard_B1ms"@[11] == 'm');
    assert("Standard_B1ms"@[12] == 's');
    reveal_strlit("Standard_B2s");
    assert("Standard_B2s"@[0] == 'S');
    assert("Standard_B2s"@[1] == 't');
    assert("Standard_B2s"@[2] == 'a');
    assert("Standard_B2s"@[3] == 'n');
    assert("Standard_B2s"@[4] == 'd');
    assert("Standard_B2s"@[5] == 'a');
    assert("Standard_B2s"@[6] == 'r');
    assert("Standard_B2s"@[7] == 'd');
    assert("Standard_B2s"@[8] == '_');
    assert("Standard_B2s"@[9] == 'B');
    assert("Standard_B2s"@[10] == '2');
    assert("Standard_B2s"@[11] == 's');
    reveal_strlit("Standard_B2ms");
    assert("Standard_B2ms"@[0] == 'S');
    assert("Standard_B2ms"@[1] == 't');
    assert("Standard_B2ms"@[2] == 'a');
    assert("Standard_B2ms"@[3] == 'n');
    assert("Standard_B2ms"@[4] == 'd');
    assert("Standard_B2ms"@[5] == 'a');
    assert("Standard_B2ms"@[6] == 'r');
    assert("Standard_B2ms"@[7] == 'd');
    assert("Standard_B2ms"@[8] == '_');
    assert("Standard_B2ms"@[9] == 'B');
    assert("Standard_B2ms"@[10] == '2');
    assert("Standard_B2ms"@[11] == 'm');
    assert("Standard_B2ms"@[12] == 's');
    reveal_strlit("Standard_B2ts_v2");
    assert("Standard_B2ts_v2"@[0] == 'S');
    assert("Standard_B2ts_v2"@[1] == 't');
    assert("Standard_B2ts_v2"@[2] == 'a');
    assert("Standard_B2ts_v2"@[3] == 'n');
    assert("Standard_B2ts_v2"@[4] == 'd');
    assert("Standard_B2ts_v2"@[5] == 'a');
    assert("Standard_B2ts_v2"@[6] == 'r');
    assert("Standard_B2ts_v2"@[7] == 'd');
    assert("Standard_B2ts_v2"@[8] == '_');
    assert("Standard_B2ts_v2"@[9] == 'B');
    assert("Standard_B2ts_v2"@[10] == '2');
    assert("Standard_B2ts_v2"@[11] == 't');
    assert("Standard_B2ts_v2"@[12] == 's');
    assert("Standard_B2ts_v2"@[13] == '_');
    assert("Standard_B2ts_v2"@[14] == 'v');
    assert("Standard_B2ts_v2"@[15] == '2');
    reveal_strlit("Standard_B2s_v2");
    assert("Standard_B2s_v2"@[0] == 'S');
    assert("Standard_B2s_v2"@[1] == 't');
    assert("Standard_B2s_v2"@[2] == 'a');
    assert("Standard_B2s_v2"@[3] == 'n');
    assert("Standard_B2s_v2"@[4] == 'd');
    assert("Standard_B2s_v2"@[5] == 'a');
    assert("Standard_B2s_v2"@[6] == 'r');
    assert("Standard_B2s_v2"@[7] == 'd');
    assert("Standard_B2s_v2"@[8] == '_');
    assert("Standard_B2s_v2"@[9] == 'B');
    assert("Standard_B2s_v2"@[10] == '2');
    assert("Standard_B2s_v2"@[11] == 's');
    assert("Standard_B2s_v2"@[12] == '_');
    assert("Standard_B2s_v2"@[13] == 'v');
    assert("Standard_B2s_v2"@[14] == '2');
    reveal_strlit("Standard_B4ms");
    assert("Standard_B4ms"@[0] == 'S');
    assert("Standard_B4ms"@[1] == 't');
    assert("Standard_B4ms"@[2] == 'a');
    assert("Standard_B4ms"@[3] == 'n');
    assert("Standard_B4ms"@[4] == 'd');
    assert("Standard_B4ms"@[5] == 'a');
    assert("Standard_B4ms"@[6] == 'r');
    assert("Standard_B4ms"@[7] == 'd');
    assert("Standard_B4ms"@[8] == '_');
    assert("Standard_B4ms"@[9] == 'B');
    assert("Standard_B4ms"@[10] == '4');
    assert("Standard_B4ms"@[11] == 'm');
    assert("Standard_B4ms"@[12] == 's');
    reveal_strlit("Standard_D2s_v3");
    assert("Standard_D2s_v3"@[0] == 'S');
    assert("Standard_D2s_v3"@[1] == 't');
    assert("Standard_D2s_v3"@[2] == 'a');
    assert("Standard_D2s_v3"@[3] == 'n');
    assert("Standard_D2s_v3"@[4] == 'd');
    assert("Standard_D2s_v3"@[5] == 'a');
    assert("Standard_D2s_v3"@[6] == 'r');
    assert("Standard_D2s_v3"@[7] == 'd');
    assert("Standard_D2s_v3"@[8] == '_');
    assert("Standard_D2s_v3"@[9] == 'D');
    assert("Standard_D2s_v3"@[10] == '2');
    assert("Standard_D2s_v3"@[11] == 's');
    assert("Standard_D2s_v3"@[12] == '_');
    assert("Standard_D2s_v3"@[13] == 'v');
    assert("Standard_D2s_v3"@[14] == '3');
    reveal_strlit("Standard_D2s_v4");
    assert("Standard_D2s_v4"@[0] == 'S');
    assert("Standard_D2s_v4"@[1] == 't');
    assert("Standard_D2s_v4"@[2] == 'a');
    assert("Standard_D2s_v4"@[3] == 'n');
    assert("Standard_D2s_v4"@[4] == 'd');
    assert("Standard_D2s_v4"@[5] == 'a');
    assert("Standard_D2s_v4"@[6] == 'r');
    assert("Standard_D2s_v4"@[7] == 'd');
    assert("Standard_D2s_v4"@[8] == '_');
    assert("Standard_D2s_v4"@[9] == 'D');
    assert("Standard_D2s_v4"@[10] == '2');
    assert("Standard_D2s_v4"@[11] == 's');
    assert("Standard_D2s_v4"@[12] == '_');
    assert("Standard_D2s_v4"@[13] == 'v');
    assert("Standard_D2s_v4"@[14] == '4');
    reveal_strlit("Standard_D2s_v5");
    assert("Standard_D2s_v5"@[0] == 'S');
    assert("Standard_D2s_v5"@[1] == 't');
    assert("Standard_D2s_v5"@[2] == 'a');
    assert("Standard_D2s_v5"@[3] == 'n');
    assert("Standard_D2s_v5"@[4] == 'd');
    assert("Standard_D2s_v5"@[5] == 'a');
    assert("Standard_D2s_v5"@[6] == 'r');
    assert("Standard_D2s_v5"@[7] == 'd');
    assert("Standard_D2s_v5"@[8] == '_');
    assert("Standard_D2s_v5"@[9] == 'D');
    assert("Standard_D2s_v5"@[10] == '2');
    assert("Standard_D2s_v5"@[11] == 's');
    assert("Standard_D2s_v5"@[12] == '_');
    assert("Standard_D2s_v5"@[13] == 'v');
    assert("Standard_D2s_v5"@[14] == '5');
    reveal_strlit("Standard_D2as_v4");
    assert("Standard_D2as_v4"@[0] == 'S');
    assert("Standard_D2as_v4"@[1] == 't');
    assert("Standard_D2as_v4"@[2] == 'a');
    assert("Standard_D2as_v4"@[3] == 'n');
    assert("Standard_D2as_v4"@[4] == 'd');
    assert("Standard_D2as_v4"@[5] == 'a');
    assert("Standard_D2as_v4"@[6] == 'r');
    assert("Standard_D2as_v4"@[7] == 'd');
    assert("Standard_D2as_v4"@[8] == '_');
    assert("Standard_D2as_v4"@[9] == 'D');
    assert("Standard_D2as_v4"@[10] == '2');
    assert("Standard_D2as_v4"@[11] == 'a');
    assert("Standard_D2as_v4"@[12] == 's');
    assert("Standard_D2as_v4"@[13] == '_');
    assert("Standard_D2as_v4"@[14] == 'v');
    assert("Standard_D2as_v4"@[15] == '4');
    reveal_strlit("Standard_D2as_v5");
    assert("Standard_D2as_v5"@[0] == 'S');
    assert("Standard_D2as_v5"@[1] == 't');
    assert("Standard_D2as_v5"@[2] == 'a');
    assert("Standard_D2as_v5"@[3] == 'n');
    assert("Standard_D2as_v5"@[4] == 'd');
    assert("Standard_D2as_v5"@[5] == 'a');
    assert("Standard_D2as_v5"@[6] == 'r');
    assert("Standard_D2as_v5"@[7] == 'd');
    assert("Standard_D2as_v5"@[8] == '_');
    assert("Standard_D2as_v5"@[9] == 'D');
    assert("Standard_D2as_v5"@[10] == '2');
    assert("Standard_D2as_v5"@[11] == 'a');
    assert("Standard_D2as_v5"@[12] == 's');
    assert("Standard_D2as_v5"@[13] == '_');
    assert("Standard_D2as_v5"@[14] == 'v');
    assert("Standard_D2as_v5"@[15] == '5');
    reveal_strlit("Standard_D4s_v3");
    assert("Standard_D4s_v3"@[0] == 'S');
    assert("Standard_D4s_v3"@[1] == 't');
    assert("Standard_D4s_v3"@[2] == 'a');
    assert("Standard_D4s_v3"@[3] == 'n');
    assert("Standard_D4s_v3"@[4] == 'd');
    assert("Standard_D4s_v3"@[5] == 'a');
    assert("Standard_D4s_v3"@[6] == 'r');
    assert("Standard_D4s_v3"@[7] == 'd');
    assert("Standard_D4s_v3"@[8] == '_');
    assert("Standard_D4s_v3"@[9] == 'D');
    assert("Standard_D4s_v3"@[10] == '4');
    assert("Standard_D4s_v3"@[11] == 's');
    assert("Standard_D4s_v3"@[12] == '_');
    assert("Standard_D4s_v3"@[13] == 'v');
    assert("Standard_D4s_v3"@[14] == '3');
    reveal_strlit("Standard_D4s_v4");
    assert("Standard_D4s_v4"@[0] == 'S');
    assert("Standard_D4s_v4"@[1] == 't');
    assert("Standard_D4s_v4"@[2] == 'a');
    assert("Standard_D4s_v4"@[3] == 'n');
    assert("Standard_D4s_v4"@[4] == 'd');
    assert("Standard_D4s_v4"@[5] == 'a');
    assert("Standard_D4s_v4"@[6] == 'r');
    assert("Standard_D4s_v4"@[7] == 'd');
    assert("Standard_D4s_v4"@[8] == '_');
    assert("Standard_D4s_v4"@[9] == 'D');
    assert("Standard_D4s_v4"@[10] == '4');
    assert("Standard_D4s_v4"@[11] == 's');
    assert("Standard_D4s_v4"@[12] == '_');
    assert("Standard_D4s_v4"@[13] == 'v');
    assert("Standard_D4s_v4"@[14] == '4');
    reveal_strlit("Standard_D4s_v5");
    assert("Standard_D4s_v5"@[0] == 'S');
    assert("Standard_D4s_v5"@[1] == 't');
    assert("Standard_D4s_v5"@[2] == 'a');
    assert("Standard_D4s_v5"@[3] == 'n');
    assert("Standard_D4s_v5"@[4] == 'd');
    assert("Standard_D4s_v5"@[5] == 'a');
    assert("Standard_D4s_v5"@[6] == 'r');
    assert("Standard_D4s_v5"@[7] == 'd');
    assert("Standard_D4s_v5"@[8] == '_');
    assert("Standard_D4s_v5"@[9] == 'D');
    assert("Standard_D4s_v5"@[10] == '4');
    assert("Standard_D4s_v5"@[11] == 's');
    assert("Standard_D4s_v5"@[12] == '_');
    assert("Standard_D4s_v5"@[13] == 'v');
    assert("Standard_D4s_v5"@[14] == '5');
    reveal_strlit("Standard_D4as_v4");
    assert("Standard_D4as_v4"@[0] == 'S');
    assert("Standard_D4as_v4"@[1] == 't');
    assert("Standard_D4as_v4"@[2] == 'a');
    assert("Standard_D4as_v4"@[3] == 'n');
    assert("Standard_D4as_v4"@[4] == 'd');
    assert("Standard_D4as_v4"@[5] == 'a');
    assert("Standard_D4as_v4"@[6] == 'r');
    assert("Standard_D4as_v4"@[7] == 'd');
    assert("Standard_D4as_v4"@[8] == '_');
    assert("Standard_D4as_v4"@[9] == 'D');
    assert("Standard_D4as_v4"@[10] == '4');
    assert("Standard_D4as_v4"@[11] == 'a');
    assert("Standard_D4as_v4"@[12] == 's');
    assert("Standard_D4as_v4"@[13] == '_');
    assert("Standard_D4as_v4"@[14] == 'v');
    assert("Standard_D4as_v4"@[15] == '4');
    reveal_strlit("Standard_D4as_v5");
    assert("Standard_D4as_v5"@[0] == 'S');
    assert("Standard_D4as_v5"@[1] == 't');
    assert("Standard_D4as_v5"@[2] == 'a');
    assert("Standard_D4as_v5"@[3] == 'n');
    assert("Standard_D4as_v5"@[4] == 'd');
    assert("Standard_D4as_v5"@[5] == 'a');
    assert("Standard_D4as_v5"@[6] == 'r');
    assert("Standard_D4as_v5"@[7] == 'd');
    assert("Standard_D4as_v5"@[8] == '_');
    assert("Standard_D4as_v5"@[9] == 'D');
    assert("Standard_D4as_v5"@[10] == '4');
    assert("Standard_D4as_v5"@[11] == 'a');
    assert("Standard_D4as_v5"@[12] == 's');
    assert("Standard_D4as_v5"@[13] == '_');
    assert("Standard_D4as_v5"@[14] == 'v');
    assert("Standard_D4as_v5"@[15] == '5');
    reveal_strlit("Standard_D8s_v3");
    assert("Standard_D8s_v3"@[0] == 'S');
    assert("Standard_D8s_v3"@[1] == 't');
    assert("Standard_D8s_v3"@[2] == 'a');
    assert("Standard_D8s_v3"@[3] == 'n');
    assert("Standard_D8s_v3"@[4] == 'd');
    assert("Standard_D8s_v3"@[5] == 'a');
    assert("Standard_D8s_v3"@[6] == 'r');
    assert("Standard_D8s_v3"@[7] == 'd');
    assert("Standard_D8s_v3"@[8] == '_');
    assert("Standard_D8s_v3"@[9] == 'D');
    assert("Standard_D8s_v3"@[10] == '8');
    assert("Standard_D8s_v3"@[11] == 's');
    assert("Standard_D8s_v3"@[12] == '_');
    assert("Standard_D8s_v3"@[13] == 'v');
    assert("Standard_D8s_v3"@[14] == '3');
    reveal_strlit("Standard_D8s_v4");
    assert("Standard_D8s_v4"@[0] == 'S');
    assert("Standard_D8s_v4"@[1] == 't');
    assert("Standard_D8s_v4"@[2] == 'a');
    assert("Standard_D8s_v4"@[3] == 'n');
    assert("Standard_D8s_v4"@[4] == 'd');
    assert("Standard_D8s_v4"@[5] == 'a');
    assert("Standard_D8s_v4"@[6] == 'r');
    assert("Standard_D8s_v4"@[7] == 'd');
    assert("Standard_D8s_v4"@[8] == '_');
    assert("Standard_D8s_v4"@[9] == 'D');
    assert("Standard_D8s_v4"@[10] == '8');
    assert("Standard_D8s_v4"@[11] == 's');
    assert("Standard_D8s_v4"@[12] == '_');
    assert("Standard_D8s_v4"@[13] == 'v');
    assert("Standard_D8s_v4"@[14] == '4');
    reveal_strlit("Standard_D8s_v5");
    assert("Standard_D8s_v5"@[0] == 'S');
    assert("Standard_D8s_v5"@[1] == 't');
    assert("Standard_D8s_v5"@[2] == 'a');
    assert("Standard_D8s_v5"@[3] == 'n');
    assert("Standard_D8s_v5"@[4] == 'd');
    assert("Standard_D8s_v5"@[5] == 'a');
    assert("Standard_D8s_v5"@[6] == 'r');
    assert("Standard_D8s_v5"@[7] == 'd');
    assert("Standard_D8s_v5"@[8] == '_');
    assert("Standard_D8s_v5"@[9] == 'D');
    assert("Standard_D8s_v5"@[10] == '8');
    assert("Standard_D8s_v5"@[11] == 's');
    assert("Standard_D8s_v5"@[12] == '_');
    assert("Standard_D8s_v5"@[13] == 'v');
    assert("Standard_D8s_v5"@[14] == '5');
    reveal_strlit("Standard_D8as_v4");
    assert("Standard_D8as_v4"@[0] == 'S');
    assert("Standard_D8as_v4"@[1] == 't');
    assert("Standard_D8as_v4"@[2] == 'a');
    assert("Standard_D8as_v4"@[3] == 'n');
    assert("Standard_D8as_v4"@[4] == 'd');
    assert("Standard_D8as_v4"@[5] == 'a');
    assert("Standard_D8as_v4"@[6] == 'r');
    assert("Standard_D8as_v4"@[7] == 'd');
    assert("Standard_D8as_v4"@[8] == '_');
    assert("Standard_D8as_v4"@[9] == 'D');
    assert("Standard_D8as_v4"@[10] == '8');
    assert("Standard_D8as_v4"@[11] == 'a');
    assert("Standard_D8as_v4"@[12] == 's');
    assert("Standard_D8as_v4"@[13] == '_');
    assert("Standard_D8as_v4"@[14] == 'v');
    assert("Standard_D8as_v4"@[15] == '4');
    reveal_strlit("Standard_D8as_v5");
    assert("Standard_D8as_v5"@[0] == 'S');
    assert("Standard_D8as_v5"@[1] == 't');
    assert("Standard_D8as_v5"@[2] == 'a');
    assert("Standard_D8as_v5"@[3] == 'n');
    assert("Standard_D8as_v5"@[4] == 'd');
    assert("Standard_D8as_v5"@[5] == 'a');
    assert("Standard_D8as_v5"@[6] == 'r');
    assert("Standard_D8as_v5"@[7] == 'd');
    assert("Standard_D8as_v5"@[8] == '_');
    assert("Standard_D8as_v5"@[9] == 'D');
    assert("Standard_D8as_v5"@[10] == '8');
    assert("Standard_D8as_v5"@[11] == 'a');
    assert("Standard_D8as_v5"@[12] == 's');
    assert("Standard_D8as_v5"@[13] == '_');
    assert("Standard_D8as_v5"@[14] == 'v');
    assert("Standard_D8as_v5"@[15] == '5');
    reveal_strlit("Standard_D16s_v3");
    assert("Standard_D16s_v3"@[0] == 'S');
    assert("Standard_D16s_v3"@[1] == 't');
    assert("Standard_D16s_v3"@[2] == 'a');
    assert("Standard_D16s_v3"@[3] == 'n');
    assert("Standard_D16s_v3"@[4] == 'd');
    assert("Standard_D16s_v3"@[5] == 'a');
    assert("Standard_D16s_v3"@[6] == 'r');
    assert("Standard_D16s_v3"@[7] == 'd');
    assert("Standard_D16s_v3"@[8] == '_');
    assert("Standard_D16s_v3"@[9] == 'D');
    assert("Standard_D16s_v3"@[10] == '1');
    assert("Standard_D16s_v3"@[11] == '6');
    assert("Standard_D16s_v3"@[12] == 's');
    assert("Standard_D16s_v3"@[13] == '_');
    assert("Standard_D16s_v3"@[14] == 'v');
    assert("Standard_D16s_v3"@[15] == '3');
    reveal_strlit("Standard_D16s_v4");
    assert("Standard_D16s_v4"@[0] == 'S');
    assert("Standard_D16s_v4"@[1] == 't');
    assert("Standard_D16s_v4"@[2] == 'a');
    assert("Standard_D16s_v4"@[3] == 'n');
    assert("Standard_D16s_v4"@[4] == 'd');
    assert("Standard_D16s_v4"@[5] == 'a');
    assert("Standard_D16s_v4"@[6] == 'r');
    assert("Standard_D16s_v4"@[7] == 'd');
    assert("Standard_D16s_v4"@[8] == '_');
    assert("Standard_D16s_v4"@[9] == 'D');
    assert("Standard_D16s_v4"@[10] == '1');
    assert("Standard_D16s_v4"@[11] == '6');
    assert("Standard_D16s_v4"@[12] == 's');
    assert("Standard_D16s_v4"@[13] == '_');
    assert("Standard_D16s_v4"@[14] == 'v');
    assert("Standard_D16s_v4"@[15] == '4');
    reveal_strlit("Standard_D16s_v5");
    assert("Standard_D16s_v5"@[0] == 'S');
    assert("Standard_D16s_v5"@[1] == 't');
    assert("Standard_D16s_v5"@[2] == 'a');
    assert("Standard_D16s_v5"@[3] == 'n');
    assert("Standard_D16s_v5"@[4] == 'd');
    assert("Standard_D16s_v5"@[5] == 'a');
    assert("Standard_D16s_v5"@[6] == 'r');
    assert("Standard_D16s_v5"@[7] == 'd');
    assert("Standard_D16s_v5"@[8] == '_');
    assert("Standard_D16s_v5"@[9] == 'D');
    assert("Standard_D16s_v5"@[10] == '1');
    assert("Standard_D16s_v5"@[11] == '6');
    assert("Standard_D16s_v5"@[12] == 's');
    assert("Standard_D16s_v5"@[13] == '_');
    assert("Standard_D16s_v5"@[14] == 'v');
    assert("Standard_D16s_v5"@[15] == '5');
    reveal_strlit("Standard_F2s_v2");
    assert("Standard_F2s_v2"@[0] == 'S');
    assert("Standard_F2s_v2"@[1] == 't');
    assert("Standard_F2s_v2"@[2] == 'a');
    assert("Standard_F2s_v2"@[3] == 'n');
    assert("Standard_F2s_v2"@[4] == 'd');
    assert("Standard_F2s_v2"@[5] == 'a');
    assert("Standard_F2s_v2"@[6] == 'r');
    assert("Standard_F2s_v2"@[7] == 'd');
    assert("Standard_F2s_v2"@[8] == '_');
    assert("Standard_F2s_v2"@[9] == 'F');
    assert("Standard_F2s_v2"@[10] == '2');
    assert("Standard_F2s_v2"@[11] == 's');
    assert("Standard_F2s_v2"@[12] == '_');
    assert("Standard_F2s_v2"@[13] == 'v');
    assert("Standard_F2s_v2"@[14] == '2');
    reveal_strlit("Standard_F4s_v2");
    assert("Standard_F4s_v2"@[0] == 'S');
    assert("Standard_F4s_v2"@[1] == 't');
    assert("Standard_F4s_v2"@[2] == 'a');
    assert("Standard_F4s_v2"@[3] == 'n');
    assert("Standard_F4s_v2"@[4] == 'd');
    assert("Standard_F4s_v2"@[5] == 'a');
    assert("Standard_F4s_v2"@[6] == 'r');
    assert("Standard_F4s_v2"@[7] == 'd');
    assert("Standard_F4s_v2"@[8] == '_');
    assert("Standard_F4s_v2"@[9] == 'F');
    assert("Standard_F4s_v2"@[10] == '4');
    assert("Standard_F4s_v2"@[11] == 's');
    assert("Standard_F4s_v2"@[12] == '_');
    assert("Standard_F4s_v2"@[13] == 'v');
    assert("Standard_F4s_v2"@[14] == '2');
    reveal_strlit("Standard_F8s_v2");
    assert("Standard_F8s_v2"@[0] == 'S');
    assert("Standard_F8s_v2"@[1] == 't');
    assert("Standard_F8s_v2"@[2] == 'a');
    assert("Standard_F8s_v2"@[3] == 'n');
    assert("Standard_F8s_v2"@[4] == 'd');
    assert("Standard_F8s_v2"@[5] == 'a');
    assert("Standard_F8s_v2"@[6] == 'r');
    assert("Standard_F8s_v2"@[7] == 'd');
    assert("Standard_F8s_v2"@[8] == '_');
    assert("Standard_F8s_v2"@[9] == 'F');
    assert("Standard_F8s_v2"@[10] == '8');
    assert("Standard_F8s_v2"@[11] == 's');
    assert("Standard_F8s_v2"@[12] == '_');
    assert("Standard_F8s_v2"@[13] == 'v');
    assert("Standard_F8s_v2"@[14] == '2');
    reveal_strlit("Standard_E2s_v3");
    assert("Standard_E2s_v3"@[0] == 'S');
    assert("Standard_E2s_v3"@[1] == 't');
    assert("Standard_E2s_v3"@[2] == 'a');
    assert("Standard_E2s_v3"@[3] == 'n');
    assert("Standard_E2s_v3"@[4] == 'd');
    assert("Standard_E2s_v3"@[5] == 'a');
    assert("Standard_E2s_v3"@[6] == 'r');
    assert("Standard_E2s_v3"@[7] == 'd');
    assert("Standard_E2s_v3"@[8] == '_');
    assert("Standard_E2s_v3"@[9] == 'E');
    assert("Standard_E2s_v3"@[10] == '2');
    assert("Standard_E2s_v3"@[11] == 's');
    assert("Standard_E2s_v3"@[12] == '_');
    assert("Standard_E2s_v3"@[13] == 'v');
    assert("Standard_E2s_v3"@[14] == '3');
    reveal_strlit("Standard_E2s_v4");
    assert("Standard_E2s_v4"@[0] == 'S');
    assert("Standard_E2s_v4"@[1] == 't');
    assert("Standard_E2s_v4"@[2] == 'a');
    assert("Standard_E2s_v4"@[3] == 'n');
    assert("Standard_E2s_v4"@[4] == 'd');
    assert("Standard_E2s_v4"@[5] == 'a');
    assert("Standard_E2s_v4"@[6] == 'r');
    assert("Standard_E2s_v4"@[7] == 'd');
    assert("Standard_E2s_v4"@[8] == '_');
    assert("Standard_E2s_v4"@[9] == 'E');
    assert("Standard_E2s_v4"@[10] == '2');
    assert("Standard_E2s_v4"@[11] == 's');
    assert("Standard_E2s_v4"@[12] == '_');
    assert("Standard_E2s_v4"@[13] == 'v');
    assert("Standard_E2s_v4"@[14] == '4');
    reveal_strlit("Standard_E2s_v5");
    assert("Standard_E2s_v5"@[0] == 'S');
    assert("Standard_E2s_v5"@[1] == 't');
    assert("Standard_E2s_v5"@[2] == 'a');
    assert("Standard_E2s_v5"@[3] == 'n');
    assert("Standard_E2s_v5"@[4] == 'd');
    assert("Standard_E2s_v5"@[5] == 'a');
    assert("Standard_E2s_v5"@[6] == 'r');
    assert("Standard_E2s_v5"@[7] == 'd');
    assert("Standard_E2s_v5"@[8] == '_');
    assert("Standard_E2s_v5"@[9] == 'E');
    assert("Standard_E2s_v5"@[10] == '2');
    assert("Standard_E2s_v5"@[11] == 's');
    assert("Standard_E2s_v5"@[12] == '_');
    assert("Standard_E2s_v5"@[13] == 'v');
    assert("Standard_E2s_v5"@[14] == '5');
    reveal_strlit("Standard_E4s_v3");
    assert("Standard_E4s_v3"@[0] == 'S');
    assert("Standard_E4s_v3"@[1] == 't');
    assert("Standard_E4s_v3"@[2] == 'a');
    assert("Standard_E4s_v3"@[3] == 'n');
    assert("Standard_E4s_v3"@[4] == 'd');
    assert("Standard_E4s_v3"@[5] == 'a');
    assert("Standard_E4s_v3"@[6] == 'r');
    assert("Standard_E4s_v3"@[7] == 'd');
    assert("Standard_E4s_v3"@[8] == '_');
    assert("Standard_E4s_v3"@[9] == 'E');
    assert("Standard_E4s_v3"@[10] == '4');
    assert("Standard_E4s_v3"@[11] == 's');
    assert("Standard_E4s_v3"@[12] == '_');
    assert("Standard_E4s_v3"@[13] == 'v');
    assert("Standard_E4s_v3"@[14] == '3');
    reveal_strlit("Standard_E4s_v4");
    assert("Standard_E4s_v4"@[0] == 'S');
    assert("Standard_E4s_v4"@[1] == 't');
    assert("Standard_E4s_v4"@[2] == 'a');
    assert("Standard_E4s_v4"@[3] == 'n');
    assert("Standard_E4s_v4"@[4] == 'd');
    assert("Standard_E4s_v4"@[5] == 'a');
    assert("Standard_E4s_v4"@[6] == 'r');
    assert("Standard_E4s_v4"@[7] == 'd');
    assert("Standard_E4s_v4"@[8] == '_');
    assert("Standard_E4s_v4"@[9] == 'E');
    assert("Standard_E4s_v4"@[10] == '4');
    assert("Standard_E4s_v4"@[11] == 's');
    assert("Standard_E4s_v4"@[12] == '_');
    assert("Standard_E4s_v4"@[13] == 'v');
    assert("Standard_E4s_v4"@[14] == '4');
    reveal_strlit("Standard_E4s_v5");
    assert("Standard_E4s_v5"@[0] == 'S');
    assert("Standard_E4s_v5"@[1] == 't');
    assert("Standard_E4s_v5"@[2] == 'a');
    assert("Standard_E4s_v5"@[3] == 'n');
    assert("Standard_E4s_v5"@[4] == 'd');
    assert("Standard_E4s_v5"@[5] == 'a');
    assert("Standard_E4s_v5"@[6] == 'r');
    assert("Standard_E4s_v5"@[7] == 'd');
    assert("Standard_E4s_v5"@[8] == '_');
    assert("Standard_E4s_v5"@[9] == 'E');
    assert("Standard_E4s_v5"@[10] == '4');
    assert("Standard_E4s_v5"@[11] == 's');
    assert("Standard_E4s_v5"@[12] == '_');
    assert("Standard_E4s_v5"@[13] == 'v');
    assert("Standard_E4s_v5"@[14] == '5');
    reveal_strlit("Standard_E8s_v3");
    assert("Standard_E8s_v3"@[0] == 'S');
    assert("Standard_E8s_v3"@[1] == 't');
    assert("Standard_E8s_v3"@[2] == 'a');
    assert("Standard_E8s_v3"@[3] == 'n');
    assert("Standard_E8s_v3"@[4] == 'd');
    assert("Standard_E8s_v3"@[5] == 'a');
    assert("Standard_E8s_v3"@[6] == 'r');
    assert("Standard_E8s_v3"@[7] == 'd');
    assert("Standard_E8s_v3"@[8] == '_');
    assert("Standard_E8s_v3"@[9] == 'E');
    assert("Standard_E8s_v3"@[10] == '8');
    assert("Standard_E8s_v3"@[11] == 's');
    assert("Standard_E8s_v3"@[12] == '_');
    assert("Standard_E8s_v3"@[13] == 'v');
    assert("Standard_E8s_v3"@[14] == '3');
    reveal_strlit("Standard_E8s_v4");
    assert("Standard_E8s_v4"@[0] == 'S');
    assert("Standard_E8s_v4"@[1] == 't');
    assert("Standard_E8s_v4"@[2] == 'a');
    assert("Standard_E8s_v4"@[3] == 'n');
    assert("Standard_E8s_v4"@[4] == 'd');
    assert("Standard_E8s_v4"@[5] == 'a');
    assert("Standard_E8s_v4"@[6] == 'r');
    assert("Standard_E8s_v4"@[7] == 'd');
    assert("Standard_E8s_v4"@[8] == '_');
    assert("Standard_E8s_v4"@[9] == 'E');
    assert("Standard_E8s_v4"@[10] == '8');
    assert("Standard_E8s_v4"@[11] == 's');
    assert("Standard_E8s_v4"@[12] == '_');
    assert("Standard_E8s_v4"@[13] == 'v');
    assert("Standard_E8s_v4"@[14] == '4');
    reveal_strlit("Standard_E8s_v5");
    assert("Standard_E8s_v5"@[0] == 'S');
    assert("Standard_E8s_v5"@[1] == 't');
    assert("Standard_E8s_v5"@[2] == 'a');
    assert("Standard_E8s_v5"@[3] == 'n');
    assert("Standard_E8s_v5"@[4] == 'd');
    assert("Standard_E8s_v5"@[5] == 'a');
    assert("Standard_E8s_v5"@[6] == 'r');
    assert("Standard_E8s_v5"@[7] == 'd');
    assert("Standard_E8s_v5"@[8] == '_');
    assert("Standard_E8s_v5"@[9] == 'E');
    assert("Standard_E8s_v5"@[10] == '8');
    assert("Standard_E8s_v5"@[11] == 's');
    assert("Standard_E8s_v5"@[12] == '_');
    assert("Standard_E8s_v5"@[13] == 'v');
    assert("Standard_E8s_v5"@[14] == '5');
    reveal_strlit("Standard_A1_v2");
    assert("Standard_A1_v2"@[0] == 'S');
    assert("Standard_A1_v2"@[1] == 't');
    assert("Standard_A1_v2"@[2] == 'a');
    assert("Standard_A1_v2"@[3] == 'n');
    assert("Standard_A1_v2"@[4] == 'd');
    assert("Standard_A1_v2"@[5] == 'a');
    assert("Standard_A1_v2"@[6] == 'r');
    assert("Standard_A1_v2"@[7] == 'd');
    assert("Standard_A1_v2"@[8] == '_');
    assert("Standard_A1_v2"@[9] == 'A');
    assert("Standard_A1_v2"@[10] == '1');
    assert("Standard_A1_v2"@[11] == '_');
    assert("Standard_A1_v2"@[12] == 'v');
    assert("Standard_A1_v2"@[13] == '2');
    reveal_strlit("Standard_A2_v2");
    assert("Standard_A2_v2"@[0] == 'S');
    assert("Standard_A2_v2"@[1] == 't');
    assert("Standard_A2_v2"@[2] == 'a');
    assert("Standard_A2_v2"@[3] == 'n');
    assert("Standard_A2_v2"@[4] == 'd');
    assert("Standard_A2_v2"@[5] == 'a');
    assert("Standard_A2_v2"@[6] == 'r');
    assert("Standard_A2_v2"@[7] == 'd');
    assert("Standard_A2_v2"@[8] == '_');
    assert("Standard_A2_v2"@[9] == 'A');
    assert("Standard_A2_v2"@[10] == '2');
    assert("Standard_A2_v2"@[11] == '_');
    assert("Standard_A2_v2"@[12] == 'v');
    assert("Standard_A2_v2"@[13] == '2');
    reveal_strlit("Standard_A4_v2");
    assert("Standard_A4_v2"@[0] == 'S');
    assert("Standard_A4_v2"@[1] == 't');
    assert("Standard_A4_v2"@[2] == 'a');
    assert("Standard_A4_v2"@[3] == 'n');
    assert("Standard_A4_v2"@[4] == 'd');
    assert("Standard_A4_v2"@[5] == 'a');
    assert("Standard_A4_v2"@[6] == 'r');
    assert("Standard_A4_v2"@[7] == 'd');
    assert("Standard_A4_v2"@[8] == '_');
    assert("Standard_A4_v2"@[9] == 'A');
    assert("Standard_A4_v2"@[10] == '4');
    assert("Standard_A4_v2"@[11] == '_');
    assert("Standard_A4_v2"@[12] == 'v');
    assert("Standard_A4_v2"@[13] == '2');
}

/// The zone written for an Azure location: the same zone as the region's variable
/// conversion for the regions listed, `__ZONE__` (left to fill in) for any other.
pub proof fn azure_zone_default_table(region: Seq<char>)
    ensures
        spec_azure_zone_default("eastus"@) == "us-nyc1"@,
        spec_azure_zone_default("eastus2"@) == "us-nyc1"@,
        spec_azure_zone_default("centralus"@) == "us-nyc1"@,
        spec_azure_zone_default("northcentralus"@) == "us-nyc1"@,
        spec_azure_zone_default("southcentralus"@) == "us-nyc1"@,
        spec_azure_zone_default("westus"@) == "us-chi1"@,
        spec_azure_zone_default("westus2"@) == "us-chi1"@,
        spec_azure_zone_default("westus3"@) == "us-chi1"@,
        spec_azure_zone_default("canadacentral"@) == "us-nyc1"@,
        spec_azure_zone_default("canadaeast"@) == "us-nyc1"@,
        spec_azure_zone_default("northeurope"@) == "de-fra1"@,
        spec_azure_zone_default("uksouth"@) == "de-fra1"@,
        spec_azure_zone_default("ukwest"@) == "de-fra1"@,
        spec_azure_zone_default("westeurope"@) == "de-fra1"@,
        spec_azure_zone_default("germanywestcentral"@) == "de-fra1"@,
        spec_azure_zone_default("francecentral"@) == "de-fra1"@,
        spec_azure_zone_default("francesouth"@) == "de-fra1"@,
        spec_azure_zone_default("swedencentral"@) == "fi-hel1"@,
        spec_azure_zone_default("norwayeast"@) == "fi-hel1"@,
        spec_azure_zone_default("southeastasia"@) == "sg-sin1"@,
        spec_azure_zone_default("eastasia"@) == "sg-sin1"@,
        spec_azure_zone_default("japaneast"@) == "sg-sin1"@,
        spec_azure_zone_default("japanwest"@) == "sg-sin1"@,
        spec_azure_zone_default("koreacentral"@) == "sg-sin1"@,
        spec_azure_zone_default("australiaeast"@) == "au-syd1"@,
        spec_azure_zone_default("australiasoutheast"@) == "au-syd1"@,
        !(region == "eastus"@ || region == "eastus2"@ || region == "centralus"@ || region == "northcentralus"@ || region == "southcentralus"@ || region == "westus"@ || region == "westus2"@ || region == "westus3"@ || region == "canadacentral"@ || region == "canadaeast"@ || region == "northeurope"@ || region == "uksouth"@ || region == "ukwest"@ || region == "westeurope"@ || region == "germanywestcentral"@ || region == "francecentral"@ || region == "francesouth"@ || region == "swedencentral"@ || region == "norwayeast"@ || region == "southeastasia"@ || region == "eastasia"@ || region == "japaneast"@ || region == "japanwest"@ || region == "koreacentral"@ || region == "australiaeast"@ || region == "australiasoutheast"@) ==> spec_azure_zone_default(region) == "__ZONE__"@,
{
    reveal_strlit("eastus");
    assert("eastus"@[0] == 'e');
    assert("eastus"@[1] == 'a');
    assert("eastus"@[2] == 's');
    assert("eastus"@[3] == 't');
    assert("eastus"@[4] == 'u');
    assert("eastus"@[5] == 's');
    reveal_strlit("eastus2");
    assert("eastus2"@[0] == 'e');
    assert("eastus2"@[1] == 'a');
    assert("eastus2"@[2] == 's');
    assert("eastus2"@[3] == 't');
    assert("eastus2"@[4] == 'u');
    assert("eastus2"@[5] == 's');
    assert("eastus2"@[6] == '2');
    reveal_strlit("centralus");
    assert("centralus"@[0] == 'c');
    assert("centralus"@[1] == 'e');
    assert("centralus"@[2] == 'n');
    assert("centralus"@[3] == 't');
    assert("centralus"@[4] == 'r');
    assert("centralus"@[5] == 'a');
    assert("centralus"@[6] == 'l');
    assert("centralus"@[7] == 'u');
    assert("centralus"@[8] == 's');
    reveal_strlit("northcentralus");
    assert("northcentralus"@[0] == 'n');
    assert("northcentralus"@[1] == 'o');
    assert("northcentralus"@[2] == 'r');
    assert("northcentralus"@[3] == 't');
    assert("northcentralus"@[4] == 'h');
    assert("northcentralus"@[5] == 'c');
    assert("northcentralus"@[6] == 'e');
    assert("northcentralus"@[7] == 'n');
    assert("northcentralus"@[8] == 't');
    assert("northcentralus"@[9] == 'r');
    assert("northcentralus"@[10] == 'a');
    assert("northcentralus"@[11] == 'l');
    assert("northcentralus"@[12] == 'u');
    assert("northcentralus"@[13] == 's');
    reveal_strlit("southcentralus");
    assert("southcentralus"@[0] == 's');
    assert("southcentralus"@[1] == 'o');
    assert("southcentralus"@[2] == 'u');
    assert("southcentralus"@[3] == 't');
    assert("southcentralus"@[4] == 'h');
    assert("southcentralus"@[5] == 'c');
    assert("southcentralus"@[6] == 'e');
    assert("southcentralus"@[7] == 'n');
    assert("southcentralus"@[8] == 't');
    assert("southcentralus"@[9] == 'r');
    assert("southcentralus"@[10] == 'a');
    assert("southcentralus"@[11] == 'l');
    assert("southcentralus"@[12] == 'u');
    assert("southcentralus"@[13] == 's');
    reveal_strlit("westus");
    assert("westus"@[0] == 'w');
    assert("westus"@[1] == 'e');
    assert("westus"@[2] == 's');
    assert("westus"@[3] == 't');
    assert("westus"@[4] == 'u');
    assert("westus"@[5] == 's');
    reveal_strlit("westus2");
    assert("westus2"@[0] == 'w');
    assert("westus2"@[1] == 'e');
    assert("westus2"@[2] == 's');
    assert("westus2"@[3] == 't');
    assert("westus2"@[4] == 'u');
    assert("westus2"@[5] == 's');
    assert("westus2"@[6] == '2');
    reveal_strlit("westus3");
    assert("westus3"@[0] == 'w');
    assert("westus3"@[1] == 'e');
    assert("westus3"@[2] == 's');
    assert("westus3"@[3] == 't');
    assert("westus3"@[4] == 'u');
    assert("westus3"@[5] == 's');
    assert("westus3"@[6] == '3');
    reveal_strlit("canadacentral");
    assert("canadacentral"@[0] == 'c');
    assert("canadacentral"@[1] == 'a');
    assert("canadacentral"@[2] == 'n');
    assert("canadacentral"@[3] == 'a');
    assert("canadacentral"@[4] == 'd');
    assert("canadacentral"@[5] == 'a');
    assert("canadacentral"@[6] == 'c');
    assert("canadacentral"@[7] == 'e');
    assert("canadacentral"@[8] == 'n');
    assert("canadacentral"@[9] == 't');
    assert("canadacentral"@[10] == 'r');
    assert("canadacentral"@[11] == 'a');
    assert("canadacentral"@[12] == 'l');
    reveal_strlit("canadaeast");
    assert("canadaeast"@[0] == 'c');
    assert("canadaeast"@[1] == 'a');
    assert("canadaeast"@[2] == 'n');
    assert("canadaeast"@[3] == 'a');
    assert("canadaeast"@[4] == 'd');
    assert("canadaeast"@[5] == 'a');
    assert("canadaeast"@[6] == 'e');
    assert("canadaeast"@[7] == 'a');
    assert("canadaeast"@[8] == 's');
    assert("canadaeast"@[9] == 't');
    reveal_strlit("northeurope");
    assert("northeurope"@[0] == 'n');
    assert("northeurope"@[1] == 'o');
    assert("northeurope"@[2] == 'r');
    assert("northeurope"@[3] == 't');
    assert("northeurope"@[4] == 'h');
    assert("northeurope"@[5] == 'e');
    assert("northeurope"@[6] == 'u');
    assert("northeurope"@[7] == 'r');
    assert("northeurope"@[8] == 'o');
    assert("northeurope"@[9] == 'p');
    assert("northeurope"@[10] == 'e');
    reveal_strlit("uksouth");
    assert("uksouth"@[0] == 'u');
    assert("uksouth"@[1] == 'k');
    assert("uksouth"@[2] == 's');
    assert("uksouth"@[3] == 'o');
    assert("uksouth"@[4] == 'u');
    assert("uksouth"@[5] == 't');
    assert("uksouth"@[6] == 'h');
    reveal_strlit("ukwest");
    assert("ukwest"@[0] == 'u');
    assert("ukwest"@[1] == 'k');
    assert("ukwest"@[2] == 'w');
    assert("ukwest"@[3] == 'e');
    assert("ukwest"@[4] == 's');
    assert("ukwest"@[5] == 't');
    reveal_strlit("westeurope");
    assert("westeurope"@[0] == 'w');
    assert("westeurope"@[1] == 'e');
    assert("westeurope"@[2] == 's');
    assert("westeurope"@[3] == 't');
    assert("westeurope"@[4] == 'e');
    assert("westeurope"@[5] == 'u');
    assert("westeurope"@[6] == 'r');
    assert("westeurope"@[7] == 'o');
    assert("westeurope"@[8] == 'p');
    assert("westeurope"@[9] == 'e');
    reveal_strlit("germanywestcentral");
    assert("germanywestcentral"@[0] == 'g');
    assert("germanywestcentral"@[1] == 'e');
    assert("germanywestcentral"@[2] == 'r');
    assert("germanywestcentral"@[3] == 'm');
    assert("germanywestcentral"@[4] == 'a');
    assert("germanywestcentral"@[5] == 'n');
    assert("germanywestcentral"@[6] == 'y');
    assert("germanywestcentral"@[7] == 'w');
    assert("germanywestcentral"@[8] == 'e');
    assert("germanywestcentral"@[9] == 's');
    assert("germanywestcentral"@[10] == 't');
    assert("germanywestcentral"@[11] == 'c');
    assert("germanywestcentral"@[12] == 'e');
    assert("germanywestcentral"@[13] == 'n');
    assert("germanywestcentral"@[14] == 't');
    assert("germanywestcentral"@[15] == 'r');
    assert("germanywestcentral"@[16] == 'a');
    assert("germanywestcentral"@[17] == 'l');
    reveal_strlit("francecentral");
    assert("francecentral"@[0] == 'f');
    assert("francecentral"@[1] == 'r');
    assert("francecentral"@[2] == 'a');
    assert("francecentral"@[3] == 'n');
    assert("francecentral"@[4] == 'c');
    assert("francecentral"@[5] == 'e');
    assert("francecentral"@[6] == 'c');
    assert("francecentral"@[7] == 'e');
    assert("francecentral"@[8] == 'n');
    assert("francecentral"@[9] == 't');
    assert("francecentral"@[10] == 'r');
    assert("francecentral"@[11] == 'a');
    assert("francecentral"@[12] == 'l');
    reveal_strlit("francesouth");
    assert("francesouth"@[0] == 'f');
    assert("francesouth"@[1] == 'r');
    assert("francesouth"@[2] == 'a');
    assert("francesouth"@[3] == 'n');
    assert("francesouth"@[4] == 'c');
    assert("francesouth"@[5] == 'e');
    assert("francesouth"@[6] == 's');
    assert("francesouth"@[7] == 'o');
    assert("francesouth"@[8] == 'u');
    assert("francesouth"@[9] == 't');
    assert("francesouth"@[10] == 'h');
    reveal_strlit("swedencentral");
    assert("swedencentral"@[0] == 's');
    assert("swedencentral"@[1] == 'w');
    assert("swedencentral"@[2] == 'e');
    assert("swedencentral"@[3] == 'd');
    assert("swedencentral"@[4] == 'e');
    assert("swedencentral"@[5] == 'n');
    assert("swedencentral"@[6] == 'c');
    assert("swedencentral"@[7] == 'e');
    assert("swedencentral"@[8] == 'n');
    assert("swedencentral"@[9] == 't');
    assert("swedencentral"@[10] == 'r');
    assert("swedencentral"@[11] == 'a');
    assert("swedencentral"@[12] == 'l');
    reveal_strlit("norwayeast");
    assert("norwayeast"@[0] == 'n');
    assert("norwayeast"@[1] == 'o');
    assert("norwayeast"@[2] == 'r');
    assert("norwayeast"@[3] == 'w');
    assert("norwayeast"@[4] == 'a');
    assert("norwayeast"@[5] == 'y');
    assert("norwayeast"@[6] == 'e');
    assert("norwayeast"@[7] == 'a');
    assert("norwayeast"@[8] == 's');
    assert("norwayeast"@[9] == 't');
    reveal_strlit("southeastasia");
    assert("southeastasia"@[0] == 's');
    assert("southeastasia"@[1] == 'o');
    assert("southeastasia"@[2] == 'u');
    assert("southeastasia"@[3] == 't');
    assert("southeastasia"@[4] == 'h');
    assert("southeastasia"@[5] == 'e');
    assert("southeastasia"@[6] == 'a');
    assert("southeastasia"@[7] == 's');
    assert("southeastasia"@[8] == 't');
    assert("southeastasia"@[9] == 'a');
    assert("southeastasia"@[10] == 's');
    assert("southeastasia"@[11] == 'i');
    assert("southeastasia"@[12] == 'a');
    reveal_strlit("eastasia");
    assert("eastasia"@[0] == 'e');
    assert("eastasia"@[1] == 'a');
    assert("eastasia"@[2] == 's');
    assert("eastasia"@[3] == 't');
    assert("eastasia"@[4] == 'a');
    assert("eastasia"@[5] == 's');
    assert("eastasia"@[6] == 'i');
    assert("eastasia"@[7] == 'a');
    reveal_strlit("japaneast");
    assert("japaneast"@[0] == 'j');
    assert("japaneast"@[1] == 'a');
    assert("japaneast"@[2] == 'p');
    assert("japaneast"@[3] == 'a');
    assert("japaneast"@[4] == 'n');
    assert("japaneast"@[5] == 'e');
    assert("japaneast"@[6] == 'a');
    assert("japaneast"@[7] == 's');
    assert("japaneast"@[8] == 't');
    reveal_strlit("japanwest");
    assert("japanwest"@[0] == 'j');
    assert("japanwest"@[1] == 'a');
    assert("japanwest"@[2] == 'p');
    assert("japanwest"@[3] == 'a');
    assert("japanwest"@[4] == 'n');
    assert("japanwest"@[5] == 'w');
    assert("japanwest"@[6] == 'e');
    assert("japanwest"@[7] == 's');
    assert("japanwest"@[8] == 't');
    reveal_strlit("koreacentral");
    assert("koreacentral"@[0] == 'k');
    assert("koreacentral"@[1] == 'o');
    assert("koreacentral"@[2] == 'r');
    assert("koreacentral"@[3] == 'e');
    assert("koreacentral"@[4] == 'a');
    assert("koreacentral"@[5] == 'c');
    assert("koreacentral"@[6] == 'e');
    assert("koreacentral"@[7] == 'n');
    assert("koreacentral"@[8] == 't');
    assert("koreacentral"@[9] == 'r');
    assert("koreacentral"@[10] == 'a');
    assert("koreacentral"@[11] == 'l');
    reveal_strlit("australiaeast");
    assert("australiaeast"@[0] == 'a');
    assert("australiaeast"@[1] == 'u');
    assert("australiaeast"@[2] == 's');
    assert("australiaeast"@[3] == 't');
    assert("australiaeast"@[4] == 'r');
    assert("australiaeast"@[5] == 'a');
    assert("australiaeast"@[6] == 'l');
    assert("australiaeast"@[7] == 'i');
    assert("australiaeast"@[8] == 'a');
    assert("australiaeast"@[9] == 'e');
    assert("australiaeast"@[10] == 'a');
    assert("australiaeast"@[11] == 's');
    assert("australiaeast"@[12] == 't');
    reveal_strlit("australiasoutheast");
    assert("australiasoutheast"@[0] == 'a');
    assert("australiasoutheast"@[1] == 'u');
    assert("australiasoutheast"@[2] == 's');
    assert("australiasoutheast"@[3] == 't');
    assert("australiasoutheast"@[4] == 'r');
    assert("australiasoutheast"@[5] == 'a');
    assert("australiasoutheast"@[6] == 'l');
    assert("australiasoutheast"@[7] == 'i');
    assert("australiasoutheast"@[8] == 'a');
    assert("australiasoutheast"@[9] == 's');
    assert("australiasoutheast"@[10] == 'o');
    assert("australiasoutheast"@[11] == 'u');
    assert("australiasoutheast"@[12] == 't');
    assert("australiasoutheast"@[13] == 'h');
    assert("australiasoutheast"@[14] == 'e');
    assert("australiasoutheast"@[15] == 'a');
    assert("australiasoutheast"@[16] == 's');
    assert("australiasoutheast"@[17] == 't');
}

/// The server written for an Azure Linux VM runs in the zone of its location
/// (`__ZONE__` when it has none) and, when its size is a literal, on the plan of that
/// size: the table's plan for a known size, `2xCPU-4GB` for any other.
pub proof fn azure_vm_server_carries_plan_and_zone(res: TerraformResource)
    ensures
        ({
            let size = res.attr_trim_or("size"@, "Standard_B2s"@);
            let zone = match res.attr_trim("location"@) { Some(l) => spec_azure_zone_default(l), None => "__ZONE__"@ };
            let plan = match spec_azure_vm_plan(size) { Some(p) => p, None => "2xCPU-4GB"@ };
            &&& spec_map_linux_virtual_machine(res).upcloud_hcl is Some
            &&& contains(spec_map_linux_virtual_machine(res).upcloud_hcl->Some_0, "  zone     = \""@ + zone + "\"\n"@)
            &&& !spec_is_tf_expr(size) ==> contains(spec_map_linux_virtual_machine(res).upcloud_hcl->Some_0, "  plan     = \""@ + plan + "\"\n"@)
        }),
{
    let size = res.attr_trim_or("size"@, "Standard_B2s"@);
    let zone = match res.attr_trim("location"@) { Some(l) => spec_azure_zone_default(l), None => "__ZONE__"@ };
    let hostname = replace_char(res.name@, '_', "-"@);
    let plan_line = if spec_is_tf_expr(size) { "  plan     = "@ + size + "\n"@ } else { "  plan     = \""@ + spec_map_vm_size(size) + "\"\n"@ };
    let h = spec_map_linux_virtual_machine(res).upcloud_hcl->Some_0;
    reveal_strlit("\"\n  zone     = \"");
    reveal_strlit("\"\n");
    reveal_strlit("  zone     = \"");
    assert("\"\n  zone     = \""@ =~= "\"\n"@ + "  zone     = \""@);
    let a = "resource \"upcloud_server\" \""@ + res.name@ + "\" {\n  hostname = \""@ + hostname + "\"\n"@;
    let zl = "  zone     = \""@ + zone + "\"\n"@;
    let b = a + zl;
    let c = b + plan_line;
    assert(h.subrange(0, c.len() as int) =~= c);
    assert(h.subrange(a.len() as int, b.len() as int) =~= zl) by {
        assert(c.subrange(a.len() as int, b.len() as int) =~= zl);
        assert(h.subrange(a.len() as int, b.len() as int) =~= c.subrange(a.len() as int, b.len() as int));
    }
    assert(h.subrange(b.len() as int, c.len() as int) =~= plan_line) by {
        assert(c.subrange(b.len() as int, c.len() as int) =~= plan_line);
        assert(h.subrange(b.len() as int, c.len() as int) =~= c.subrange(b.len() as int, c.len() as int));
    }
    assert(matches_at(h, zl, a.len() as int));
    assert(matches_at(h, plan_line, b.len() as int));
    lemma_find_from_bounds(h, zl, 0);
    lemma_find_from_bounds(h, plan_line, 0);
}

} // verus!
