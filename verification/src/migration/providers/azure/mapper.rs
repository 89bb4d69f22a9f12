//! Azure resource mapper: routes Azure resource types to their UpCloud equivalents.
use vstd::prelude::*;

use crate::migration::mapper::ResourceMapper;
use crate::migration::types::{new_result, push_note, result_model, MigrationResult, MigrationStatus, ResultModel};
use crate::terraform::types::TerraformResource;
use crate::text::{chars_of, eq_str, push_str};
use crate::migration::providers::azure::compute::{map_availability_set, map_linux_virtual_machine, map_ssh_public_key, map_virtual_machine, map_virtual_machine_scale_set, map_windows_virtual_machine, spec_map_availability_set, spec_map_linux_virtual_machine, spec_map_ssh_public_key, spec_map_virtual_machine, spec_map_virtual_machine_scale_set, spec_map_windows_virtual_machine};
use crate::migration::providers::azure::database::{map_cosmosdb_account, map_mssql_database, map_mssql_server, map_mysql_flexible_server, map_mysql_server, map_postgresql_flexible_server, map_postgresql_server, map_redis_cache, spec_map_cosmosdb_account, spec_map_mssql_database, spec_map_mssql_server, spec_map_mysql_flexible_server, spec_map_mysql_server, spec_map_postgresql_flexible_server, spec_map_postgresql_server, spec_map_redis_cache};
use crate::migration::providers::azure::kubernetes::{map_kubernetes_cluster, map_kubernetes_cluster_node_pool, spec_map_kubernetes_cluster, spec_map_kubernetes_cluster_node_pool};
use crate::migration::providers::azure::loadbalancer::{map_application_gateway, map_lb, map_lb_backend_address_pool, map_lb_backend_address_pool_association, map_lb_probe, map_lb_rule, spec_map_application_gateway, spec_map_lb, spec_map_lb_backend_address_pool, spec_map_lb_backend_address_pool_association, spec_map_lb_probe, spec_map_lb_rule};
use crate::migration::providers::azure::network::{map_network_interface, map_network_security_group, map_network_security_rule, map_public_ip, map_subnet, map_virtual_network, spec_map_network_interface, spec_map_network_security_group, spec_map_network_security_rule, spec_map_public_ip, spec_map_subnet, spec_map_virtual_network};
use crate::migration::providers::azure::storage::{map_data_disk_attachment, map_managed_disk, map_storage_account, map_storage_container, map_storage_share, spec_map_data_disk_attachment, spec_map_managed_disk, spec_map_storage_account, spec_map_storage_container, spec_map_storage_share};
use crate::migration::providers::azure::generator_support::appgw_blocks_ok;

verus! {

/// A resource type with no mapping: unknown, with a note naming the type.
pub open spec fn spec_not_mapped(res: TerraformResource) -> ResultModel {
    result_model(res, MigrationStatus::Unknown, "(not mapped)"@, None, None, None, seq!["Azure resource '"@ + res.resource_type@ + "' has no defined mapping yet"@])
}

fn not_mapped(res: &TerraformResource) -> (r: MigrationResult)
    ensures
        r@ == spec_not_mapped(*res),
{
    let mut n = String::from_str("Azure resource '");
    push_str(&mut n, res.resource_type.as_str());
    push_str(&mut n, "' has no defined mapping yet");
    let mut notes: Vec<String> = Vec::new();
    push_note(&mut notes, n);
    new_result(res, MigrationStatus::Unknown, "(not mapped)", None, None, None, notes)
}

/// A resource type with no UpCloud equivalent: unsupported, with the reason as its type.
pub open spec fn spec_unsupported(res: TerraformResource, reason: Seq<char>) -> ResultModel {
    result_model(res, MigrationStatus::Unsupported, reason, None, None, None, seq!["'"@ + res.resource_type@ + "' has no UpCloud equivalent. Manual migration required."@])
}

fn unsupported(res: &TerraformResource, reason: &str) -> (r: MigrationResult)
    ensures
        r@ == spec_unsupported(*res, reason@),
{
    let mut n = String::from_str("'");
    push_str(&mut n, res.resource_type.as_str());
    push_str(&mut n, "' has no UpCloud equivalent. Manual migration required.");
    let mut notes: Vec<String> = Vec::new();
    push_note(&mut notes, n);
    new_result(res, MigrationStatus::Unsupported, reason, None, None, None, notes)
}

/// A DNS resource: partial, as DNS is managed outside the UpCloud provider.
pub open spec fn spec_partial_dns(res: TerraformResource) -> ResultModel {
    result_model(res, MigrationStatus::Partial, "(no DNS resource in UpCloud provider)"@, None, None, None, seq!["DNS must be managed outside Terraform or via a separate DNS provider."@])
}

fn partial_dns(res: &TerraformResource) -> (r: MigrationResult)
    ensures
        r@ == spec_partial_dns(*res),
{
    let mut notes: Vec<String> = Vec::new();
    push_note(&mut notes, String::from_str("DNS must be managed outside Terraform or via a separate DNS provider."));
    new_result(res, MigrationStatus::Partial, "(no DNS resource in UpCloud provider)", None, None, None, notes)
}

/// The UpCloud mapping of an Azure resource, by its type.
pub open spec fn spec_azure_map(res: TerraformResource) -> ResultModel {
    let t = res.resource_type@;
    if t == "azurerm_linux_virtual_machine"@ {
        spec_map_linux_virtual_machine(res)
    } else if t == "azurerm_windows_virtual_machine"@ {
        spec_map_windows_virtual_machine(res)
    } else if t == "azurerm_virtual_machine"@ {
        spec_map_virtual_machine(res)
    } else if t == "azurerm_ssh_public_key"@ {
        spec_map_ssh_public_key(res)
    } else if t == "azurerm_availability_set"@ {
        spec_map_availability_set(res)
    } else if t == "azurerm_virtual_machine_scale_set"@ || t == "azurerm_linux_virtual_machine_scale_set"@ || t == "azurerm_windows_virtual_machine_scale_set"@ {
        spec_map_virtual_machine_scale_set(res)
    } else if t == "azurerm_managed_disk"@ {
        spec_map_managed_disk(res)
    } else if t == "azurerm_virtual_machine_data_disk_attachment"@ {
        spec_map_data_disk_attachment(res)
    } else if t == "azurerm_storage_account"@ {
        spec_map_storage_account(res)
    } else if t == "azurerm_storage_container"@ {
        spec_map_storage_container(res)
    } else if t == "azurerm_storage_share"@ {
        spec_map_storage_share(res)
    } else if t == "azurerm_virtual_network"@ {
        spec_map_virtual_network(res)
    } else if t == "azurerm_subnet"@ {
        spec_map_subnet(res)
    } else if t == "azurerm_network_security_group"@ {
        spec_map_network_security_group(res)
    } else if t == "azurerm_network_security_rule"@ {
        spec_map_network_security_rule(res)
    } else if t == "azurerm_public_ip"@ {
        spec_map_public_ip(res)
    } else if t == "azurerm_network_interface"@ {
        spec_map_network_interface(res)
    } else if t == "azurerm_lb"@ {
        spec_map_lb(res)
    } else if t == "azurerm_lb_backend_address_pool"@ {
        spec_map_lb_backend_address_pool(res)
    } else if t == "azurerm_lb_rule"@ {
        spec_map_lb_rule(res)
    } else if t == "azurerm_lb_backend_address_pool_association"@ {
        spec_map_lb_backend_address_pool_association(res)
    } else if t == "azurerm_application_gateway"@ {
        spec_map_application_gateway(res)
    } else if t == "azurerm_lb_probe"@ {
        spec_map_lb_probe(res)
    } else if t == "azurerm_postgresql_server"@ {
        spec_map_postgresql_server(res)
    } else if t == "azurerm_postgresql_flexible_server"@ {
        spec_map_postgresql_flexible_server(res)
    } else if t == "azurerm_mysql_server"@ {
        spec_map_mysql_server(res)
    } else if t == "azurerm_mysql_flexible_server"@ {
        spec_map_mysql_flexible_server(res)
    } else if t == "azurerm_redis_cache"@ {
        spec_map_redis_cache(res)
    } else if t == "azurerm_cosmosdb_account"@ {
        spec_map_cosmosdb_account(res)
    } else if t == "azurerm_mssql_server"@ {
        spec_map_mssql_server(res)
    } else if t == "azurerm_mssql_database"@ {
        spec_map_mssql_database(res)
    } else if t == "azurerm_kubernetes_cluster"@ {
        spec_map_kubernetes_cluster(res)
    } else if t == "azurerm_kubernetes_cluster_node_pool"@ {
        spec_map_kubernetes_cluster_node_pool(res)
    } else if t == "azurerm_resource_group"@ {
        spec_unsupported(res, "(no resource group equivalent — UpCloud uses flat structure)"@)
    } else if t == "azurerm_dns_zone"@ || t == "azurerm_dns_a_record"@ || t == "azurerm_dns_cname_record"@ || t == "azurerm_private_dns_zone"@ {
        spec_partial_dns(res)
    } else if t == "azurerm_user_assigned_identity"@ || t == "azurerm_role_assignment"@ || t == "azurerm_role_definition"@ {
        spec_unsupported(res, "(no IAM equivalent)"@)
    } else if t == "azurerm_function_app"@ || t == "azurerm_linux_function_app"@ || t == "azurerm_windows_function_app"@ || t == "azurerm_service_plan"@ {
        spec_unsupported(res, "(no serverless/FaaS)"@)
    } else if t == "azurerm_cdn_profile"@ || t == "azurerm_cdn_endpoint"@ || t == "azurerm_frontdoor"@ {
        spec_unsupported(res, "(no CDN)"@)
    } else if t == "azurerm_servicebus_namespace"@ || t == "azurerm_servicebus_queue"@ || t == "azurerm_servicebus_topic"@ || t == "azurerm_eventgrid_topic"@ || t == "azurerm_eventhub_namespace"@ || t == "azurerm_eventhub"@ {
        spec_unsupported(res, "(no messaging service)"@)
    } else if t == "azurerm_monitor_metric_alert"@ || t == "azurerm_monitor_action_group"@ || t == "azurerm_log_analytics_workspace"@ || t == "azurerm_application_insights"@ {
        spec_unsupported(res, "(no equivalent monitoring resource)"@)
    } else if t == "azurerm_key_vault"@ || t == "azurerm_key_vault_secret"@ || t == "azurerm_key_vault_key"@ {
        spec_unsupported(res, "(no key vault equivalent)"@)
    } else {
        spec_not_mapped(res)
    }
}

/// Maps Azure resources.
pub struct AzureResourceMapper;

impl ResourceMapper for AzureResourceMapper {
    open spec fn accepts(&self, res: TerraformResource) -> bool {
        res.resource_type@ == "azurerm_application_gateway"@ ==> appgw_blocks_ok(res.raw_hcl@)
    }

    open spec fn mapped(&self, res: TerraformResource) -> ResultModel {
        spec_azure_map(res)
    }

    fn map(&self, res: &TerraformResource) -> (r: MigrationResult) {
        let t = chars_of(res.resource_type.as_str());
        if eq_str(&t, "azurerm_linux_virtual_machine") {
            map_linux_virtual_machine(res)
        } else if eq_str(&t, "azurerm_windows_virtual_machine") {
            map_windows_virtual_machine(res)
        } else if eq_str(&t, "azurerm_virtual_machine") {
            map_virtual_machine(res)
        } else if eq_str(&t, "azurerm_ssh_public_key") {
            map_ssh_public_key(res)
        } else if eq_str(&t, "azurerm_availability_set") {
            map_availability_set(res)
        } else if eq_str(&t, "azurerm_virtual_machine_scale_set") || eq_str(&t, "azurerm_linux_virtual_machine_scale_set") || eq_str(&t, "azurerm_windows_virtual_machine_scale_set") {
            map_virtual_machine_scale_set(res)
        } else if eq_str(&t, "azurerm_managed_disk") {
            map_managed_disk(res)
        } else if eq_str(&t, "azurerm_virtual_machine_data_disk_attachment") {
            map_data_disk_attachment(res)
        } else if eq_str(&t, "azurerm_storage_account") {
            map_storage_account(res)
        } else if eq_str(&t, "azurerm_storage_container") {
            map_storage_container(res)
        } else if eq_str(&t, "azurerm_storage_share") {
            map_storage_share(res)
        } else if eq_str(&t, "azurerm_virtual_network") {
            map_virtual_network(res)
        } else if eq_str(&t, "azurerm_subnet") {
            map_subnet(res)
        } else if eq_str(&t, "azurerm_network_security_group") {
            map_network_security_group(res)
        } else if eq_str(&t, "azurerm_network_security_rule") {
            map_network_security_rule(res)
        } else if eq_str(&t, "azurerm_public_ip") {
            map_public_ip(res)
        } else if eq_str(&t, "azurerm_network_interface") {
            map_network_interface(res)
        } else if eq_str(&t, "azurerm_lb") {
            map_lb(res)
        } else if eq_str(&t, "azurerm_lb_backend_address_pool") {
            map_lb_backend_address_pool(res)
        } else if eq_str(&t, "azurerm_lb_rule") {
            map_lb_rule(res)
        } else if eq_str(&t, "azurerm_lb_backend_address_pool_association") {
            map_lb_backend_address_pool_association(res)
        } else if eq_str(&t, "azurerm_application_gateway") {
            map_application_gateway(res)
        } else if eq_str(&t, "azurerm_lb_probe") {
            map_lb_probe(res)
        } else if eq_str(&t, "azurerm_postgresql_server") {
            map_postgresql_server(res)
        } else if eq_str(&t, "azurerm_postgresql_flexible_server") {
            map_postgresql_flexible_server(res)
        } else if eq_str(&t, "azurerm_mysql_server") {
            map_mysql_server(res)
        } else if eq_str(&t, "azurerm_mysql_flexible_server") {
            map_mysql_flexible_server(res)
        } else if eq_str(&t, "azurerm_redis_cache") {
            map_redis_cache(res)
        } else if eq_str(&t, "azurerm_cosmosdb_account") {
            map_cosmosdb_account(res)
        } else if eq_str(&t, "azurerm_mssql_server") {
            map_mssql_server(res)
        } else if eq_str(&t, "azurerm_mssql_database") {
            map_mssql_database(res)
        } else if eq_str(&t, "azurerm_kubernetes_cluster") {
            map_kubernetes_cluster(res)
        } else if eq_str(&t, "azurerm_kubernetes_cluster_node_pool") {
            map_kubernetes_cluster_node_pool(res)
        } else if eq_str(&t, "azurerm_resource_group") {
            unsupported(res, "(no resource group equivalent — UpCloud uses flat structure)")
        } else if eq_str(&t, "azurerm_dns_zone") || eq_str(&t, "azurerm_dns_a_record") || eq_str(&t, "azurerm_dns_cname_record") || eq_str(&t, "azurerm_private_dns_zone") {
            partial_dns(res)
        } else if eq_str(&t, "azurerm_user_assigned_identity") || eq_str(&t, "azurerm_role_assignment") || eq_str(&t, "azurerm_role_definition") {
            unsupported(res, "(no IAM equivalent)")
        } else if eq_str(&t, "azurerm_function_app") || eq_str(&t, "azurerm_linux_function_app") || eq_str(&t, "azurerm_windows_function_app") || eq_str(&t, "azurerm_service_plan") {
            unsupported(res, "(no serverless/FaaS)")
        } else if eq_str(&t, "azurerm_cdn_profile") || eq_str(&t, "azurerm_cdn_endpoint") || eq_str(&t, "azurerm_frontdoor") {
            unsupported(res, "(no CDN)")
        } else if eq_str(&t, "azurerm_servicebus_namespace") || eq_str(&t, "azurerm_servicebus_queue") || eq_str(&t, "azurerm_servicebus_topic") || eq_str(&t, "azurerm_eventgrid_topic") || eq_str(&t, "azurerm_eventhub_namespace") || eq_str(&t, "azurerm_eventhub") {
            unsupported(res, "(no messaging service)")
        } else if eq_str(&t, "azurerm_monitor_metric_alert") || eq_str(&t, "azurerm_monitor_action_group") || eq_str(&t, "azurerm_log_analytics_workspace") || eq_str(&t, "azurerm_application_insights") {
            unsupported(res, "(no equivalent monitoring resource)")
        } else if eq_str(&t, "azurerm_key_vault") || eq_str(&t, "azurerm_key_vault_secret") || eq_str(&t, "azurerm_key_vault_key") {
            unsupported(res, "(no key vault equivalent)")
        } else {
            not_mapped(res)
        }
    }
}

} // verus!
