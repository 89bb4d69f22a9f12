//! AWS resource mapper: routes AWS resource types to their UpCloud equivalents.
use vstd::prelude::*;

use crate::migration::mapper::ResourceMapper;
use crate::migration::types::{new_result, push_note, result_model, MigrationResult, MigrationStatus, ResultModel};
use crate::terraform::types::TerraformResource;
use crate::text::{chars_of, eq_str, push_str};
use crate::migration::providers::aws::compute::{map_autoscaling_group, map_instance, map_key_pair, spec_map_autoscaling_group, spec_map_instance, spec_map_key_pair};
use crate::migration::providers::aws::database::{map_db_parameter_group, map_db_subnet_group, map_elasticache_cluster, map_elasticache_parameter_group, map_elasticache_subnet_group, map_rds_cluster, map_rds_instance, spec_map_db_parameter_group, spec_map_db_subnet_group, spec_map_elasticache_cluster, spec_map_elasticache_parameter_group, spec_map_elasticache_subnet_group, spec_map_rds_cluster, spec_map_rds_instance};
use crate::migration::providers::aws::kubernetes::{map_eks_cluster, map_eks_node_group, spec_map_eks_cluster, spec_map_eks_node_group};
use crate::migration::providers::aws::loadbalancer::{map_acm_certificate, map_lb, map_lb_listener, map_lb_target_group, spec_map_acm_certificate, spec_map_lb, spec_map_lb_listener, spec_map_lb_target_group};
use crate::migration::providers::aws::network::{map_eip, map_eip_association, map_internet_gateway, map_nat_gateway, map_network_interface, map_route_table, map_security_group, map_sg_egress_rule, map_sg_ingress_rule, map_subnet, map_vpc, spec_map_eip, spec_map_eip_association, spec_map_internet_gateway, spec_map_nat_gateway, spec_map_network_interface, spec_map_route_table, spec_map_security_group, spec_map_sg_rule, spec_map_subnet, spec_map_vpc};
use crate::migration::providers::aws::storage::{map_ebs_volume, map_efs_file_system, map_s3_bucket, map_s3_bucket_policy, map_volume_attachment, spec_map_ebs_volume, spec_map_efs_file_system, spec_map_s3_bucket, spec_map_s3_bucket_policy, spec_map_volume_attachment};

verus! {

/// A resource type with no mapping: unknown, with a note naming the type.
pub open spec fn spec_not_mapped(res: TerraformResource) -> ResultModel {
    result_model(res, MigrationStatus::Unknown, "(not mapped)"@, None, None, None, seq!["AWS resource '"@ + res.resource_type@ + "' has no defined mapping yet"@])
}

fn not_mapped(res: &TerraformResource) -> (r: MigrationResult)
    ensures
        r@ == spec_not_mapped(*res),
{
    let mut n = String::from_str("AWS resource '");
    push_str(&mut n, res.resource_type.as_str());
    push_str(&mut n, "' has no defined mapping yet");
    let mut notes: Vec<String> = Vec::new();
    push_note(&mut notes, n);
    new_result(res, MigrationStatus::Unknown, "(not mapped)", None, None, None, notes)
}

/// The UpCloud mapping of an AWS resource, by its type.
pub open spec fn spec_aws_map(res: TerraformResource) -> ResultModel {
    let t = res.resource_type@;
    if t == "aws_instance"@ {
        spec_map_instance(res)
    } else if t == "aws_key_pair"@ {
        spec_map_key_pair(res)
    } else if t == "aws_autoscaling_group"@ {
        spec_map_autoscaling_group(res)
    } else if t == "aws_db_instance"@ {
        spec_map_rds_instance(res)
    } else if t == "aws_rds_cluster"@ {
        spec_map_rds_cluster(res)
    } else if t == "aws_db_parameter_group"@ {
        spec_map_db_parameter_group(res)
    } else if t == "aws_db_subnet_group"@ {
        spec_map_db_subnet_group(res)
    } else if t == "aws_elasticache_subnet_group"@ {
        spec_map_elasticache_subnet_group(res)
    } else if t == "aws_elasticache_parameter_group"@ {
        spec_map_elasticache_parameter_group(res)
    } else if t == "aws_elasticache_cluster"@ {
        spec_map_elasticache_cluster(res)
    } else if t == "aws_eks_cluster"@ {
        spec_map_eks_cluster(res)
    } else if t == "aws_eks_node_group"@ {
        spec_map_eks_node_group(res)
    } else if t == "aws_lb"@ || t == "aws_alb"@ {
        spec_map_lb(res)
    } else if t == "aws_lb_target_group"@ || t == "aws_alb_target_group"@ {
        spec_map_lb_target_group(res)
    } else if t == "aws_lb_listener"@ || t == "aws_alb_listener"@ {
        spec_map_lb_listener(res)
    } else if t == "aws_acm_certificate"@ {
        spec_map_acm_certificate(res)
    } else if t == "aws_vpc"@ {
        spec_map_vpc(res)
    } else if t == "aws_subnet"@ {
        spec_map_subnet(res)
    } else if t == "aws_security_group"@ {
        spec_map_security_group(res)
    } else if t == "aws_network_interface"@ {
        spec_map_network_interface(res)
    } else if t == "aws_vpc_security_group_ingress_rule"@ {
        spec_map_sg_rule(res, "in"@)
    } else if t == "aws_vpc_security_group_egress_rule"@ {
        spec_map_sg_rule(res, "out"@)
    } else if t == "aws_eip_association"@ {
        spec_map_eip_association(res)
    } else if t == "aws_nat_gateway"@ {
        spec_map_nat_gateway(res)
    } else if t == "aws_internet_gateway"@ {
        spec_map_internet_gateway(res)
    } else if t == "aws_route_table"@ {
        spec_map_route_table(res)
    } else if t == "aws_eip"@ {
        spec_map_eip(res)
    } else if t == "aws_volume_attachment"@ {
        spec_map_volume_attachment(res)
    } else if t == "aws_ebs_volume"@ {
        spec_map_ebs_volume(res)
    } else if t == "aws_s3_bucket"@ {
        spec_map_s3_bucket(res)
    } else if t == "aws_s3_bucket_policy"@ {
        spec_map_s3_bucket_policy(res)
    } else if t == "aws_efs_file_system"@ {
        spec_map_efs_file_system(res)
    } else {
        spec_not_mapped(res)
    }
}

/// Maps AWS resources.
pub struct AwsResourceMapper;

impl ResourceMapper for AwsResourceMapper {
    open spec fn accepts(&self, res: TerraformResource) -> bool {
        true
    }

    open spec fn mapped(&self, res: TerraformResource) -> ResultModel {
        spec_aws_map(res)
    }

    fn map(&self, res: &TerraformResource) -> (r: MigrationResult) {
        let t = chars_of(res.resource_type.as_str());
        if eq_str(&t, "aws_instance") {
            map_instance(res)
        } else if eq_str(&t, "aws_key_pair") {
            map_key_pair(res)
        } else if eq_str(&t, "aws_autoscaling_group") {
            map_autoscaling_group(res)
        } else if eq_str(&t, "aws_db_instance") {
            map_rds_instance(res)
        } else if eq_str(&t, "aws_rds_cluster") {
            map_rds_cluster(res)
        } else if eq_str(&t, "aws_db_parameter_group") {
            map_db_parameter_group(res)
        } else if eq_str(&t, "aws_db_subnet_group") {
            map_db_subnet_group(res)
        } else if eq_str(&t, "aws_elasticache_subnet_group") {
            map_elasticache_subnet_group(res)
        } else if eq_str(&t, "aws_elasticache_parameter_group") {
            map_elasticache_parameter_group(res)
        } else if eq_str(&t, "aws_elasticache_cluster") {
            map_elasticache_cluster(res)
        } else if eq_str(&t, "aws_eks_cluster") {
            map_eks_cluster(res)
        } else if eq_str(&t, "aws_eks_node_group") {
            map_eks_node_group(res)
        } else if eq_str(&t, "aws_lb") || eq_str(&t, "aws_alb") {
            map_lb(res)
        } else if eq_str(&t, "aws_lb_target_group") || eq_str(&t, "aws_alb_target_group") {
            map_lb_target_group(res)
        } else if eq_str(&t, "aws_lb_listener") || eq_str(&t, "aws_alb_listener") {
            map_lb_listener(res)
        } else if eq_str(&t, "aws_acm_certificate") {
            map_acm_certificate(res)
        } else if eq_str(&t, "aws_vpc") {
            map_vpc(res)
        } else if eq_str(&t, "aws_subnet") {
            map_subnet(res)
        } else if eq_str(&t, "aws_security_group") {
            map_security_group(res)
        } else if eq_str(&t, "aws_network_interface") {
            map_network_interface(res)
        } else if eq_str(&t, "aws_vpc_security_group_ingress_rule") {
            map_sg_ingress_rule(res)
        } else if eq_str(&t, "aws_vpc_security_group_egress_rule") {
            map_sg_egress_rule(res)
        } else if eq_str(&t, "aws_eip_association") {
            map_eip_association(res)
        } else if eq_str(&t, "aws_nat_gateway") {
            map_nat_gateway(res)
        } else if eq_str(&t, "aws_internet_gateway") {
            map_internet_gateway(res)
        } else if eq_str(&t, "aws_route_table") {
            map_route_table(res)
        } else if eq_str(&t, "aws_eip") {
            map_eip(res)
        } else if eq_str(&t, "aws_volume_attachment") {
            map_volume_attachment(res)
        } else if eq_str(&t, "aws_ebs_volume") {
            map_ebs_volume(res)
        } else if eq_str(&t, "aws_s3_bucket") {
            map_s3_bucket(res)
        } else if eq_str(&t, "aws_s3_bucket_policy") {
            map_s3_bucket_policy(res)
        } else if eq_str(&t, "aws_efs_file_system") {
            map_efs_file_system(res)
        } else {
            not_mapped(res)
        }
    }
}

} // verus!
