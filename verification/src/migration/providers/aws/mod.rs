pub mod compute;
pub mod var_detector;
pub mod generator_support;
pub mod storage;
pub mod database;
pub mod kubernetes;
pub mod loadbalancer;
pub mod network;
pub mod mapper;

use vstd::prelude::*;

use crate::migration::providers::scan::{first_keyed_ref, spec_collect_refs, spec_keyed_pair, spec_line_ref};
use crate::migration::providers::shared::{is_valid_pg_property, spec_is_valid_pg_property, spec_sanitize_provider_refs};
use crate::migration::providers::{opt_pair_view, opt_str_view, ResourceRole, SourceProvider};
use crate::migration::providers::aws::database::params_view;
use crate::migration::types::{cat3, opt_view, strs_view};
use crate::text::{chars_of, eq_str, lines};

use crate::migration::providers::aws::database::{extract_parameter_blocks, spec_extract_parameter_blocks};
use crate::migration::providers::aws::generator_support::{
    aws_rw_terminates, extract_lb_name_from_listener_hcl, extract_sg_refs_from_instance_hcl,
    extract_subnet_id_from_instance_hcl, extract_subnet_names_from_subnet_group,
    extract_tg_from_listener_source_hcl, extract_tg_server_from_attachment_source_hcl,
    rewrite_output_refs, sanitize_aws_refs, spec_aws_rewrite,
    spec_extract_subnet_names_from_subnet_group,
};

verus! {

/// The cross-reference role of a AWS resource type.
pub open spec fn aws_role(t: Seq<char>) -> ResourceRole {
    if t == "aws_instance"@ {
        ResourceRole::ComputeInstance
    } else if t == "aws_key_pair"@ {
        ResourceRole::KeyPair
    } else if t == "aws_db_parameter_group"@ || t == "aws_elasticache_parameter_group"@ {
        ResourceRole::ParameterGroup
    } else if t == "aws_db_subnet_group"@ || t == "aws_elasticache_subnet_group"@ {
        ResourceRole::SubnetGroup
    } else if t == "aws_volume_attachment"@ {
        ResourceRole::VolumeAttachment
    } else if t == "aws_lb_target_group_attachment"@ || t == "aws_alb_target_group_attachment"@ {
        ResourceRole::LbTargetGroupAttachment
    } else if t == "aws_lb_listener"@ || t == "aws_alb_listener"@ {
        ResourceRole::LbListener
    } else {
        ResourceRole::Other
    }
}

fn aws_role_exec(t: &str) -> (r: ResourceRole)
    ensures
        r == aws_role(t@),
{
    let v = chars_of(t);
    if eq_str(&v, "aws_instance") {
        ResourceRole::ComputeInstance
    } else if eq_str(&v, "aws_key_pair") {
        ResourceRole::KeyPair
    } else if eq_str(&v, "aws_db_parameter_group") || eq_str(&v, "aws_elasticache_parameter_group") {
        ResourceRole::ParameterGroup
    } else if eq_str(&v, "aws_db_subnet_group") || eq_str(&v, "aws_elasticache_subnet_group") {
        ResourceRole::SubnetGroup
    } else if eq_str(&v, "aws_volume_attachment") {
        ResourceRole::VolumeAttachment
    } else if eq_str(&v, "aws_lb_target_group_attachment") || eq_str(&v, "aws_alb_target_group_attachment") {
        ResourceRole::LbTargetGroupAttachment
    } else if eq_str(&v, "aws_lb_listener") || eq_str(&v, "aws_alb_listener") {
        ResourceRole::LbListener
    } else {
        ResourceRole::Other
    }
}

/// The AWS source provider.
pub struct AwsSourceProvider;

impl SourceProvider for AwsSourceProvider {
    open spec fn spec_display_name(&self) -> Seq<char> { "AWS"@ }
    open spec fn spec_prefix(&self) -> Seq<char> { "aws_"@ }
    open spec fn spec_role(&self, resource_type: Seq<char>) -> ResourceRole { aws_role(resource_type) }
    open spec fn spec_volume_type(&self) -> Seq<char> { "aws_ebs_volume"@ }
    open spec fn spec_security_refs(&self, hcl: Seq<char>) -> Seq<Seq<char>> { spec_collect_refs(hcl, "aws_security_group."@) }
    open spec fn spec_instance_subnet(&self, hcl: Seq<char>) -> Option<Seq<char>> { first_keyed_ref(lines(hcl), "subnet_id"@, "aws_subnet."@, true, false) }
    open spec fn spec_nic_type(&self) -> Option<Seq<char>> { None }
    open spec fn spec_nic_refs(&self, hcl: Seq<char>) -> Seq<Seq<char>> { seq![] }
    open spec fn spec_nic_subnet(&self, hcl: Seq<char>) -> Option<Seq<char>> { None }
    open spec fn spec_subnet_nsg_association_type(&self) -> Option<Seq<char>> { None }
    open spec fn spec_subnet_nsg(&self, hcl: Seq<char>) -> Option<(Seq<char>, Seq<char>)> { None }
    open spec fn spec_parameters(&self, hcl: Seq<char>) -> Seq<(Seq<char>, Seq<char>)> { spec_extract_parameter_blocks(hcl) }
    open spec fn spec_valid_db_property(&self, name: Seq<char>) -> bool { spec_is_valid_pg_property(name) }
    open spec fn spec_subnet_group_subnets(&self, hcl: Seq<char>) -> Seq<Seq<char>> { spec_extract_subnet_names_from_subnet_group(hcl) }
    open spec fn spec_tg_server(&self, hcl: Seq<char>) -> Option<(Seq<char>, Seq<char>)> {
        spec_keyed_pair(hcl, "target_group_arn"@, "aws_lb_target_group."@, false, "target_id"@, "aws_instance."@, true)
    }
    open spec fn spec_listener_tg(&self, hcl: Seq<char>) -> Option<Seq<char>> {
        first_keyed_ref(lines(hcl), "target_group_arn"@, "aws_lb_target_group."@, false, false)
    }
    open spec fn spec_listener_lb(&self, hcl: Seq<char>) -> Option<Seq<char>> { spec_line_ref(hcl, "load_balancer_arn"@, ""@, "aws_lb."@, false) }
    open spec fn spec_probe_type(&self) -> Option<Seq<char>> { None }
    open spec fn spec_rule_probe(&self, hcl: Seq<char>) -> Option<(Seq<char>, Seq<char>)> { None }
    open spec fn spec_probe_props(&self, hcl: Seq<char>) -> Seq<char> { seq![] }
    open spec fn spec_ssh_key_placeholder(&self, key_name: Seq<char>) -> Seq<char> {
        "<TODO: SSH public key for aws_key_pair."@ + key_name + ">"@
    }
    open spec fn spec_parameter_group_todo(&self, group_name: Seq<char>) -> Seq<char> {
        "    # <TODO: migrate parameters from aws_db_parameter_group."@ + group_name + ">\n"@
    }
    open spec fn spec_sanitize(&self, hcl: Seq<char>) -> Seq<char> { spec_sanitize_provider_refs(hcl, "aws_"@, "aws_"@, "AWS"@) }
    open spec fn spec_rewrite_ok(&self, hcl: Seq<char>) -> bool { aws_rw_terminates(hcl) }
    open spec fn spec_rewrite(&self, hcl: Seq<char>) -> Seq<char> { spec_aws_rewrite(hcl) }

    fn display_name(&self) -> (r: &'static str) { "AWS" }
    fn resource_type_prefix(&self) -> (r: &'static str) { "aws_" }
    fn resource_role(&self, resource_type: &str) -> (r: ResourceRole) { aws_role_exec(resource_type) }
    fn volume_resource_type(&self) -> (r: &'static str) { "aws_ebs_volume" }
    fn extract_security_refs_from_instance(&self, hcl: &str) -> (r: Vec<String>) { extract_sg_refs_from_instance_hcl(hcl) }
    fn extract_subnet_from_instance(&self, hcl: &str) -> (r: Option<String>) { extract_subnet_id_from_instance_hcl(hcl) }
    fn nic_resource_type(&self) -> (r: Option<&'static str>) { None }
    fn extract_nic_refs_from_instance(&self, hcl: &str) -> (r: Vec<String>) {
        let v: Vec<String> = Vec::new();
        assert(strs_view(v@) =~= seq![]);
        v
    }
    fn extract_subnet_from_nic(&self, hcl: &str) -> (r: Option<String>) { None }
    fn subnet_nsg_association_type(&self) -> (r: Option<&'static str>) { None }
    fn extract_nsg_from_subnet_association(&self, hcl: &str) -> (r: Option<(String, String)>) { None }
    fn extract_parameter_blocks(&self, hcl: &str) -> (r: Vec<(String, String)>) { extract_parameter_blocks(hcl) }
    fn is_valid_db_property(&self, name: &str) -> (r: bool) { is_valid_pg_property(name) }
    fn extract_subnet_names_from_subnet_group(&self, hcl: &str) -> (r: Vec<String>) { extract_subnet_names_from_subnet_group(hcl) }
    fn extract_tg_server_from_attachment(&self, hcl: &str) -> (r: Option<(String, String)>) { extract_tg_server_from_attachment_source_hcl(hcl) }
    fn extract_tg_from_listener(&self, hcl: &str) -> (r: Option<String>) { extract_tg_from_listener_source_hcl(hcl) }
    fn extract_lb_name_from_listener(&self, hcl: &str) -> (r: Option<String>) { extract_lb_name_from_listener_hcl(hcl) }
    fn lb_probe_resource_type(&self) -> (r: Option<&'static str>) { None }
    fn extract_probe_from_lb_rule(&self, hcl: &str) -> (r: Option<(String, String)>) { None }
    fn extract_probe_health_check_props(&self, hcl: &str) -> (r: String) { String::new() }
    fn ssh_key_placeholder(&self, key_name: &str) -> (r: String) {
        proof {
            reveal_strlit(">");
        }
        cat3("<TODO: SSH public key for aws_key_pair.", key_name, ">")
    }
    fn parameter_group_todo_text(&self, group_name: &str) -> (r: String) {
        cat3("    # <TODO: migrate parameters from aws_db_parameter_group.", group_name, ">\n")
    }
    fn sanitize_source_refs(&self, hcl: String) -> (r: String) { sanitize_aws_refs(hcl) }
    fn rewrite_output_refs(&self, hcl: &str) -> (r: String) { rewrite_output_refs(hcl) }
}

} // verus!
