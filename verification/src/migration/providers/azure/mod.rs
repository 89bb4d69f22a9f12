pub mod compute;
pub mod var_detector;
pub mod generator_support;
pub mod storage;
pub mod database;
pub mod kubernetes;
pub mod network;
pub mod loadbalancer;
pub mod mapper;

use vstd::prelude::*;

use crate::migration::providers::scan::{first_keyed_ref, spec_collect_refs, spec_keyed_pair, spec_line_ref};
use crate::migration::providers::shared::{is_valid_pg_property, spec_is_valid_pg_property, spec_sanitize_provider_refs};
use crate::migration::providers::{opt_pair_view, opt_str_view, ResourceRole, SourceProvider};
use crate::migration::providers::aws::database::params_view;
use crate::migration::types::{cat3, opt_view, strs_view};
use crate::text::{chars_of, eq_str, lines};

use crate::migration::providers::azure::generator_support::{
    az_rw_loop, extract_backend_pool_from_lb_rule_hcl, extract_backend_pool_server_from_association_hcl,
    extract_lb_name_from_rule_hcl, extract_nic_refs_from_instance_hcl, extract_nsg_refs_from_instance_hcl,
    extract_nsg_subnet_association_hcl, extract_probe_and_backend_from_lb_rule_hcl,
    extract_probe_health_check_props_hcl, extract_subnet_from_instance_hcl, rewrite_output_refs,
    sanitize_azure_refs, spec_extract_probe_and_backend, spec_probe_health_check_props,
};

verus! {

/// The cross-reference role of a Azure resource type.
pub open spec fn azure_role(t: Seq<char>) -> ResourceRole {
    if t == "azurerm_linux_virtual_machine"@ || t == "azurerm_windows_virtual_machine"@ || t == "azurerm_virtual_machine"@ || t == "azurerm_linux_virtual_machine_scale_set"@ {
        ResourceRole::ComputeInstance
    } else if t == "azurerm_ssh_public_key"@ {
        ResourceRole::KeyPair
    } else if t == "azurerm_virtual_machine_data_disk_attachment"@ {
        ResourceRole::VolumeAttachment
    } else if t == "azurerm_lb_rule"@ {
        ResourceRole::LbListener
    } else if t == "azurerm_lb_backend_address_pool_association"@ {
        ResourceRole::LbTargetGroupAttachment
    } else {
        ResourceRole::Other
    }
}

fn azure_role_exec(t: &str) -> (r: ResourceRole)
    ensures
        r == azure_role(t@),
{
    let v = chars_of(t);
    if eq_str(&v, "azurerm_linux_virtual_machine") || eq_str(&v, "azurerm_windows_virtual_machine") || eq_str(&v, "azurerm_virtual_machine") || eq_str(&v, "azurerm_linux_virtual_machine_scale_set") {
        ResourceRole::ComputeInstance
    } else if eq_str(&v, "azurerm_ssh_public_key") {
        ResourceRole::KeyPair
    } else if eq_str(&v, "azurerm_virtual_machine_data_disk_attachment") {
        ResourceRole::VolumeAttachment
    } else if eq_str(&v, "azurerm_lb_rule") {
        ResourceRole::LbListener
    } else if eq_str(&v, "azurerm_lb_backend_address_pool_association") {
        ResourceRole::LbTargetGroupAttachment
    } else {
        ResourceRole::Other
    }
}

/// The Azure source provider.
pub struct AzureSourceProvider;

impl SourceProvider for AzureSourceProvider {
    open spec fn spec_display_name(&self) -> Seq<char> { "Azure"@ }
    open spec fn spec_prefix(&self) -> Seq<char> { "azurerm_"@ }
    open spec fn spec_role(&self, resource_type: Seq<char>) -> ResourceRole { azure_role(resource_type) }
    open spec fn spec_volume_type(&self) -> Seq<char> { "azurerm_managed_disk"@ }
    open spec fn spec_security_refs(&self, hcl: Seq<char>) -> Seq<Seq<char>> { spec_collect_refs(hcl, "azurerm_network_security_group."@) }
    open spec fn spec_instance_subnet(&self, hcl: Seq<char>) -> Option<Seq<char>> { first_keyed_ref(lines(hcl), "subnet_id"@, "azurerm_subnet."@, true, false) }
    open spec fn spec_nic_type(&self) -> Option<Seq<char>> { Some("azurerm_network_interface"@) }
    open spec fn spec_nic_refs(&self, hcl: Seq<char>) -> Seq<Seq<char>> { spec_collect_refs(hcl, "azurerm_network_interface."@) }
    open spec fn spec_nic_subnet(&self, hcl: Seq<char>) -> Option<Seq<char>> { first_keyed_ref(lines(hcl), "subnet_id"@, "azurerm_subnet."@, true, false) }
    open spec fn spec_subnet_nsg_association_type(&self) -> Option<Seq<char>> { Some("azurerm_subnet_network_security_group_association"@) }
    open spec fn spec_subnet_nsg(&self, hcl: Seq<char>) -> Option<(Seq<char>, Seq<char>)> {
        spec_keyed_pair(hcl, "subnet_id"@, "azurerm_subnet."@, false, "network_security_group_id"@, "azurerm_network_security_group."@, false)
    }
    open spec fn spec_parameters(&self, hcl: Seq<char>) -> Seq<(Seq<char>, Seq<char>)> { seq![] }
    open spec fn spec_valid_db_property(&self, name: Seq<char>) -> bool { spec_is_valid_pg_property(name) }
    open spec fn spec_subnet_group_subnets(&self, hcl: Seq<char>) -> Seq<Seq<char>> { seq![] }
    open spec fn spec_tg_server(&self, hcl: Seq<char>) -> Option<(Seq<char>, Seq<char>)> {
        spec_keyed_pair(hcl, "backend_address_pool_id"@, "azurerm_lb_backend_address_pool."@, false, "network_interface_id"@, "azurerm_network_interface."@, true)
    }
    open spec fn spec_listener_tg(&self, hcl: Seq<char>) -> Option<Seq<char>> {
        first_keyed_ref(lines(hcl), "backend_address_pool_id"@, "azurerm_lb_backend_address_pool."@, false, false)
    }
    open spec fn spec_listener_lb(&self, hcl: Seq<char>) -> Option<Seq<char>> { spec_line_ref(hcl, "loadbalancer_id"@, ""@, "azurerm_lb."@, false) }
    open spec fn spec_probe_type(&self) -> Option<Seq<char>> { Some("azurerm_lb_probe"@) }
    open spec fn spec_rule_probe(&self, hcl: Seq<char>) -> Option<(Seq<char>, Seq<char>)> { spec_extract_probe_and_backend(hcl) }
    open spec fn spec_probe_props(&self, hcl: Seq<char>) -> Seq<char> { spec_probe_health_check_props(hcl) }
    open spec fn spec_ssh_key_placeholder(&self, key_name: Seq<char>) -> Seq<char> {
        "<TODO: SSH public key for azurerm_ssh_public_key."@ + key_name + ">"@
    }
    open spec fn spec_parameter_group_todo(&self, group_name: Seq<char>) -> Seq<char> {
        "    # <TODO: migrate parameters from Azure configuration "@ + group_name + ">\n"@
    }
    open spec fn spec_sanitize(&self, hcl: Seq<char>) -> Seq<char> { spec_sanitize_provider_refs(hcl, "azurerm_"@, "azurerm_"@, "Azure"@) }
    open spec fn spec_rewrite_ok(&self, hcl: Seq<char>) -> bool { true }
    open spec fn spec_rewrite(&self, hcl: Seq<char>) -> Seq<char> { az_rw_loop(hcl, 0) }

    fn display_name(&self) -> (r: &'static str) { "Azure" }
    fn resource_type_prefix(&self) -> (r: &'static str) { "azurerm_" }
    fn resource_role(&self, resource_type: &str) -> (r: ResourceRole) { azure_role_exec(resource_type) }
    fn volume_resource_type(&self) -> (r: &'static str) { "azurerm_managed_disk" }
    fn extract_security_refs_from_instance(&self, hcl: &str) -> (r: Vec<String>) { extract_nsg_refs_from_instance_hcl(hcl) }
    fn extract_subnet_from_instance(&self, hcl: &str) -> (r: Option<String>) { extract_subnet_from_instance_hcl(hcl) }
    fn nic_resource_type(&self) -> (r: Option<&'static str>) { Some("azurerm_network_interface") }
    fn extract_nic_refs_from_instance(&self, hcl: &str) -> (r: Vec<String>) { extract_nic_refs_from_instance_hcl(hcl) }
    fn extract_subnet_from_nic(&self, hcl: &str) -> (r: Option<String>) { extract_subnet_from_instance_hcl(hcl) }
    fn subnet_nsg_association_type(&self) -> (r: Option<&'static str>) { Some("azurerm_subnet_network_security_group_association") }
    fn extract_nsg_from_subnet_association(&self, hcl: &str) -> (r: Option<(String, String)>) { extract_nsg_subnet_association_hcl(hcl) }
    fn extract_parameter_blocks(&self, hcl: &str) -> (r: Vec<(String, String)>) {
        let v: Vec<(String, String)> = Vec::new();
        assert(params_view(v@) =~= seq![]);
        v
    }
    fn is_valid_db_property(&self, name: &str) -> (r: bool) { is_valid_pg_property(name) }
    fn extract_subnet_names_from_subnet_group(&self, hcl: &str) -> (r: Vec<String>) {
        let v: Vec<String> = Vec::new();
        assert(strs_view(v@) =~= seq![]);
        v
    }
    fn extract_tg_server_from_attachment(&self, hcl: &str) -> (r: Option<(String, String)>) { extract_backend_pool_server_from_association_hcl(hcl) }
    fn extract_tg_from_listener(&self, hcl: &str) -> (r: Option<String>) { extract_backend_pool_from_lb_rule_hcl(hcl) }
    fn extract_lb_name_from_listener(&self, hcl: &str) -> (r: Option<String>) { extract_lb_name_from_rule_hcl(hcl) }
    fn lb_probe_resource_type(&self) -> (r: Option<&'static str>) { Some("azurerm_lb_probe") }
    fn extract_probe_from_lb_rule(&self, hcl: &str) -> (r: Option<(String, String)>) { extract_probe_and_backend_from_lb_rule_hcl(hcl) }
    fn extract_probe_health_check_props(&self, hcl: &str) -> (r: String) { extract_probe_health_check_props_hcl(hcl) }
    fn ssh_key_placeholder(&self, key_name: &str) -> (r: String) {
        proof {
            reveal_strlit(">");
        }
        cat3("<TODO: SSH public key for azurerm_ssh_public_key.", key_name, ">")
    }
    fn parameter_group_todo_text(&self, group_name: &str) -> (r: String) {
        cat3("    # <TODO: migrate parameters from Azure configuration ", group_name, ">\n")
    }
    fn sanitize_source_refs(&self, hcl: String) -> (r: String) { sanitize_azure_refs(hcl) }
    fn rewrite_output_refs(&self, hcl: &str) -> (r: String) { rewrite_output_refs(hcl) }
}

} // verus!
